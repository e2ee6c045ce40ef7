//! The world: static map geometry as a composite hitbox, layer-indexed
//! buckets of agents, a scroll offset standing in for a camera, and the
//! interaction zones. The world arbitrates movement, depth order and the
//! per-tick behavior of everything it contains.
use vstd::prelude::*;

use crate::agent::{enemy_moved_or_stayed, moved_or_stayed, spec_move_clear, Animal, Enemy};
use crate::character::Character;
use crate::direction::{swept, Direction};
use crate::entity::{entity_next_rel, offsets_fit, spec_blit, Blit, Entity};
use crate::hitbox::{collides_any, ComplexHitbox};
use crate::interact::Interactable;
use crate::rect::{fits_i32, overlaps, shifted, Rect};

verus! {

/// Everything the world can hold: a static entity, a wandering animal, or
/// a wandering enemy. A closed sum over the behaviors the game knows.
pub enum Agent {
    Fixed(Entity),
    Animal(Animal),
    Enemy(Enemy),
}

/// The entity a variant carries.
pub open spec fn agent_entity(a: Agent) -> Entity {
    match a {
        Agent::Fixed(e) => e,
        Agent::Animal(an) => an.entity,
        Agent::Enemy(en) => en.entity,
    }
}

pub open spec fn agent_wf(a: Agent) -> bool {
    match a {
        Agent::Fixed(e) => e.wf(),
        Agent::Animal(an) => an.wf(),
        Agent::Enemy(en) => en.wf(),
    }
}

/// The wandering speed of a variant; a static entity never moves.
pub open spec fn agent_speed(a: Agent) -> int {
    match a {
        Agent::Fixed(e) => 0,
        Agent::Animal(an) => an.speed as int,
        Agent::Enemy(en) => en.speed as int,
    }
}

pub open spec fn agent_hitbox(a: Agent) -> Rect {
    agent_entity(a).hitbox
}

pub open spec fn agent_z(a: Agent) -> u8 {
    agent_entity(a).z_index
}

/// How one behavior tick relates an agent's state before to its state
/// after: a static entity is untouched; an animal or enemy wanders as its
/// own behavior contract says, for every outcome of its random draws.
pub open spec fn agent_behaved_rel(
    pre: Agent,
    post: Agent,
    c: Character,
    x: int,
    y: int,
    now: u64,
) -> bool {
    match (pre, post) {
        (Agent::Fixed(e), Agent::Fixed(e2)) => e2 == e,
        (Agent::Animal(a), Agent::Animal(b)) => {
            &&& b.speed == a.speed
            &&& b.can_move == a.can_move
            &&& moved_or_stayed(a.entity, b.entity, b.dir, a.speed as int)
            &&& !spec_move_clear(
                a.entity.hitbox@,
                b.dir,
                a.speed as int,
                c.speed as int,
                x,
                y,
                c.rep.hitbox@,
            ) ==> b.entity == a.entity
        },
        (Agent::Enemy(a), Agent::Enemy(b)) => {
            &&& b.speed == a.speed
            &&& b.can_move == a.can_move
            &&& exists|mid: Entity|
                {
                    &&& #[trigger] entity_next_rel(a.entity, mid, now)
                    &&& enemy_moved_or_stayed(mid, b.entity, b.dir, a.speed as int)
                    &&& !spec_move_clear(
                        mid.hitbox@,
                        b.dir,
                        a.speed as int,
                        c.speed as int,
                        x,
                        y,
                        c.rep.hitbox@,
                    ) ==> b.entity == mid
                }
        },
        _ => false,
    }
}

/// The agent with its movement-permission flag set to `b`; a static
/// entity carries no flag.
pub open spec fn agent_with_flag(a: Agent, b: bool) -> Agent {
    match a {
        Agent::Fixed(e) => Agent::Fixed(e),
        Agent::Animal(an) => Agent::Animal(Animal { can_move: b, ..an }),
        Agent::Enemy(en) => Agent::Enemy(Enemy { can_move: b, ..en }),
    }
}

impl Agent {
    /// Probe whether this agent, under the world offset, leaves the given
    /// hitbox untouched; a wandering agent records the outcome in its
    /// permission flag.
    pub fn check_move(&mut self, x: i32, y: i32, hitbox: Rect) -> (r: bool)
        ensures
            r == !overlaps(
                shifted(agent_hitbox(*old(self))@, x as int, y as int),
                hitbox@,
            ),
            *final(self) == agent_with_flag(*old(self), r),
    {
        match self {
            Agent::Fixed(e) => e.check_move(x, y, hitbox),
            Agent::Animal(an) => an.check_move(x, y, hitbox),
            Agent::Enemy(en) => en.check_move(x, y, hitbox),
        }
    }

    pub fn get_hitbox(&self) -> (r: Rect)
        ensures
            r == agent_hitbox(*self),
    {
        match self {
            Agent::Fixed(e) => e.hitbox,
            Agent::Animal(an) => an.entity.hitbox,
            Agent::Enemy(en) => en.entity.hitbox,
        }
    }

    pub fn get_z_index(&self) -> (r: u8)
        ensures
            r == agent_z(*self),
    {
        match self {
            Agent::Fixed(e) => e.z_index,
            Agent::Animal(an) => an.entity.z_index,
            Agent::Enemy(en) => en.entity.z_index,
        }
    }

    /// One behavior tick, dispatched by variant: static entities do
    /// nothing; animals and enemies wander as their own contracts say.
    pub fn behave(&mut self, char: &Character, x: i32, y: i32, now: u64)
        requires
            agent_wf(*old(self)),
            offsets_fit(agent_entity(*old(self)), agent_speed(*old(self))),
        ensures
            agent_behaved_rel(*old(self), *final(self), *char, x as int, y as int, now),
            agent_wf(*final(self)),
    {
        match self {
            Agent::Fixed(_) => (),
            Agent::Animal(an) => an.behave(char, x, y),
            Agent::Enemy(en) => en.behave(char, x, y, now),
        }
    }

    /// The blit this agent asks for under a world offset.
    pub fn blit(&self, world_x: i32, world_y: i32) -> (b: Blit)
        requires
            agent_wf(*self),
            fits_i32(agent_entity(*self).dst.x + world_x),
            fits_i32(agent_entity(*self).dst.y + world_y),
        ensures
            b == spec_blit(agent_entity(*self), world_x as int, world_y as int),
    {
        match self {
            Agent::Fixed(e) => e.blit(world_x, world_y),
            Agent::Animal(an) => an.entity.blit(world_x, world_y),
            Agent::Enemy(en) => en.entity.blit(world_x, world_y),
        }
    }
}

/// The scrolling world.
pub struct World {
    /// The scroll offset: how far the world has shifted under the fixed
    /// player.
    pub x: i32,
    pub y: i32,
    /// Static map geometry.
    pub map: ComplexHitbox,
    /// Agents bucketed by layer index; layer 0 is reserved.
    pub entities: Vec<Vec<Agent>>,
    /// Interaction zones, in insertion order.
    pub interactables: Vec<Interactable>,
    /// The indicator entity drawn over an active interaction zone.
    pub e: Entity,
}

/// The agents of `entities`, restricted to layer `l`, wrapped as static
/// agents, in input order.
pub open spec fn layer_of(entities: Seq<Entity>, l: int) -> Seq<Agent>
    decreases entities.len(),
{
    if entities.len() == 0 {
        Seq::empty()
    } else {
        let rest = layer_of(entities.drop_last(), l);
        if entities.last().z_index == l {
            rest.push(Agent::Fixed(entities.last()))
        } else {
            rest
        }
    }
}

/// May the character move one step along `dir`? Its hitbox, swept by its
/// speed, must neither collide with the static map (under the blocking
/// rule of the composite hitbox) nor overlap any agent's hitbox, all under
/// the current scroll offset.
pub open spec fn spec_can_move(w: World, c: Character, d: Direction) -> bool {
    let sw = swept(c.rep.hitbox@, d, c.speed as int);
    &&& !collides_any(w.map.real@, w.x as int, w.y as int, sw)
    &&& forall|l: int, k: int|
        0 <= l < w.entities@.len() && 0 <= k < w.entities@[l]@.len() ==> !overlaps(
            shifted(agent_hitbox(#[trigger] w.entities@[l]@[k])@, w.x as int, w.y as int),
            sw,
        )
}

impl World {
    /// Build a world from its map, its initial static entities and the
    /// highest layer index in use; `indicator` is the entity drawn over an
    /// active interaction zone. Each entity lands in the bucket of its own
    /// layer index.
    pub fn from(map: ComplexHitbox, entities: Vec<Entity>, highest: u8, indicator: Entity) -> (w:
        World)
        requires
            forall|i: int|
                0 <= i < entities@.len() ==> (#[trigger] entities@[i]).z_index < highest + 2,
        ensures
            w.x == 0,
            w.y == 0,
            w.map == map,
            w.interactables@ == Seq::<Interactable>::empty(),
            w.e == indicator,
            w.entities@.len() == highest + 2,
            forall|l: int|
                0 <= l < w.entities@.len() ==> #[trigger] w.entities@[l]@ == layer_of(
                    entities@,
                    l,
                ),
    {
        let mut entities_n: Vec<Vec<Agent>> = Vec::new();
        let layers: usize = highest as usize + 2;
        while entities_n.len() < layers
            invariant
                entities_n@.len() <= layers,
                forall|l: int|
                    0 <= l < entities_n@.len() ==> #[trigger] entities_n@[l]@ == Seq::<
                        Agent,
                    >::empty(),
            decreases layers - entities_n@.len(),
        {
            entities_n.push(Vec::new());
        }
        let mut entities = entities;
        let ghost orig = entities@;
        let ghost mut i: int = 0;
        proof {
            assert(orig.take(0) =~= Seq::<Entity>::empty());
        }
        while entities.len() > 0
            invariant
                0 <= i <= orig.len(),
                entities@ == orig.skip(i),
                entities_n@.len() == layers,
                layers == highest + 2,
                forall|j: int|
                    0 <= j < orig.len() ==> (#[trigger] orig[j]).z_index < highest + 2,
                forall|l: int|
                    0 <= l < entities_n@.len() ==> #[trigger] entities_n@[l]@ == layer_of(
                        orig.take(i),
                        l,
                    ),
            decreases entities@.len(),
        {
            let entity = entities.remove(0);
            proof {
                assert(entity == orig[i]);
                assert(entities@ =~= orig.skip(i + 1));
            }
            let z = entity.z_index as usize;
            let ghost before = entities_n@;
            let layer = &mut entities_n[z];
            layer.push(Agent::Fixed(entity));
            proof {
                assert(orig.take(i + 1).drop_last() =~= orig.take(i));
                assert(orig.take(i + 1).last() == orig[i]);
                assert(forall|l: int|
                    0 <= l < entities_n@.len() && l != z ==> entities_n@[l] == before[l]);
                i = i + 1;
            }
        }
        proof {
            assert(orig.take(i) =~= orig);
        }
        World {
            x: 0,
            y: 0,
            map,
            entities: entities_n,
            interactables: Vec::new(),
            e: indicator,
        }
    }

    /// Register an interaction zone.
    pub fn add_interaction(&mut self, interactable: Interactable)
        ensures
            *final(self) == (World { interactables: final(self).interactables, ..*old(self) }),
            final(self).interactables@ == old(self).interactables@.push(interactable),
    {
        self.interactables.push(interactable);
    }

    /// Put an agent into the bucket of its own layer index.
    pub fn add(&mut self, agent: Agent)
        requires
            agent_z(agent) < old(self).entities@.len(),
        ensures
            *final(self) == (World { entities: final(self).entities, ..*old(self) }),
            final(self).entities@.len() == old(self).entities@.len(),
            final(self).entities@[agent_z(agent) as int]@ == old(self).entities@[agent_z(agent) as int]@.push(agent),
            forall|l: int|
                0 <= l < old(self).entities@.len() && l != agent_z(agent)
                    ==> final(self).entities@[l] == old(self).entities@[l],
    {
        let z = agent.get_z_index() as usize;
        let layer = &mut self.entities[z];
        layer.push(agent);
    }

    /// May the character move one step along `dir`? Side-effect free: the
    /// query changes neither the world nor the character.
    pub fn can_move(&self, char: &Character, dir: Direction) -> (r: bool)
        requires
            char.speed >= 0,
            fits_i32(char.rep.hitbox.x - char.speed),
            fits_i32(char.rep.hitbox.y - char.speed),
            char.rep.hitbox.w + char.speed <= u32::MAX,
            char.rep.hitbox.h + char.speed <= u32::MAX,
        ensures
            r == spec_can_move(*self, *char, dir),
    {
        let mut hitbox = char.rep.hitbox;
        match dir {
            Direction::Down => {
                hitbox.h = hitbox.h + char.speed as u32;
            },
            Direction::Up => {
                hitbox.y = hitbox.y - char.speed;
                hitbox.h = hitbox.h + char.speed as u32;
            },
            Direction::Right => {
                hitbox.w = hitbox.w + char.speed as u32;
            },
            Direction::Left => {
                hitbox.x = hitbox.x - char.speed;
                hitbox.w = hitbox.w + char.speed as u32;
            },
        }
        proof {
            assert(hitbox@ == swept(char.rep.hitbox@, dir, char.speed as int));
        }
        if self.map.collide_all(hitbox, self.x, self.y) {
            return false;
        }
        let mut l: usize = 0;
        while l < self.entities.len()
            invariant
                l <= self.entities@.len(),
                hitbox@ == swept(char.rep.hitbox@, dir, char.speed as int),
                forall|l2: int, k: int|
                    0 <= l2 < l && 0 <= k < self.entities@[l2]@.len() ==> !overlaps(
                        shifted(
                            agent_hitbox(#[trigger] self.entities@[l2]@[k])@,
                            self.x as int,
                            self.y as int,
                        ),
                        hitbox@,
                    ),
            decreases self.entities@.len() - l,
        {
            let layer = &self.entities[l];
            let mut k: usize = 0;
            while k < layer.len()
                invariant
                    k <= layer@.len(),
                    layer@ == self.entities@[l as int]@,
                    l < self.entities@.len(),
                    hitbox@ == swept(char.rep.hitbox@, dir, char.speed as int),
                    forall|k2: int|
                        0 <= k2 < k ==> !overlaps(
                            shifted(
                                agent_hitbox(#[trigger] layer@[k2])@,
                                self.x as int,
                                self.y as int,
                            ),
                            hitbox@,
                        ),
                decreases layer@.len() - k,
            {
                let hb = layer[k].get_hitbox();
                if crate::rect::overlaps_shifted(&hb, self.x, self.y, &hitbox) {
                    proof {
                        assert(overlaps(
                            shifted(
                                agent_hitbox(self.entities@[l as int]@[k as int])@,
                                self.x as int,
                                self.y as int,
                            ),
                            hitbox@,
                        ));
                    }
                    return false;
                }
                k = k + 1;
            }
            l = l + 1;
        }
        true
    }
    /// One behavior tick for everything in the world, in layer order then
    /// insertion order: every agent wanders (or stays) as its own behavior
    /// contract says; the world itself is untouched.
    pub fn do_behaviours(&mut self, char: &Character, now: u64)
        requires
            forall|l: int, k: int|
                0 <= l < old(self).entities@.len() && 0 <= k < old(self).entities@[l]@.len()
                    ==> agent_wf(#[trigger] old(self).entities@[l]@[k]) && offsets_fit(
                    agent_entity(old(self).entities@[l]@[k]),
                    agent_speed(old(self).entities@[l]@[k]),
                ),
        ensures
            *final(self) == (World { entities: final(self).entities, ..*old(self) }),
            final(self).entities@.len() == old(self).entities@.len(),
            forall|l: int|
                0 <= l < old(self).entities@.len() ==> (#[trigger] final(self).entities@[l])@.len()
                    == old(self).entities@[l]@.len(),
            forall|l: int, k: int|
                0 <= l < old(self).entities@.len() && 0 <= k < old(self).entities@[l]@.len()
                    ==> agent_behaved_rel(
                    #[trigger] old(self).entities@[l]@[k],
                    final(self).entities@[l]@[k],
                    *char,
                    old(self).x as int,
                    old(self).y as int,
                    now,
                ),
    {
        let wx = self.x;
        let wy = self.y;
        let mut l: usize = 0;
        while l < self.entities.len()
            invariant
                l <= self.entities@.len(),
                wx == old(self).x,
                wy == old(self).y,
                *self == (World { entities: self.entities, ..*old(self) }),
                self.entities@.len() == old(self).entities@.len(),
                forall|l2: int, k: int|
                    0 <= l2 < old(self).entities@.len() && 0 <= k < old(
                        self,
                    ).entities@[l2]@.len() ==> agent_wf(#[trigger] old(self).entities@[l2]@[k])
                        && offsets_fit(
                        agent_entity(old(self).entities@[l2]@[k]),
                        agent_speed(old(self).entities@[l2]@[k]),
                    ),
                forall|l2: int|
                    l <= l2 < old(self).entities@.len() ==> #[trigger] self.entities@[l2] == old(
                        self,
                    ).entities@[l2],
                forall|l2: int|
                    0 <= l2 < l ==> (#[trigger] self.entities@[l2])@.len() == old(
                        self,
                    ).entities@[l2]@.len(),
                forall|l2: int, k: int|
                    0 <= l2 < l && 0 <= k < old(self).entities@[l2]@.len() ==> agent_behaved_rel(
                        #[trigger] old(self).entities@[l2]@[k],
                        self.entities@[l2]@[k],
                        *char,
                        wx as int,
                        wy as int,
                        now,
                    ),
            decreases self.entities@.len() - l,
        {
            let layer_len = self.entities[l].len();
            let mut k: usize = 0;
            while k < layer_len
                invariant
                    k <= layer_len,
                    l < self.entities@.len(),
                    wx == old(self).x,
                    wy == old(self).y,
                    *self == (World { entities: self.entities, ..*old(self) }),
                    self.entities@.len() == old(self).entities@.len(),
                    layer_len == old(self).entities@[l as int]@.len(),
                    self.entities@[l as int]@.len() == layer_len,
                    forall|l2: int, k2: int|
                        0 <= l2 < old(self).entities@.len() && 0 <= k2 < old(
                            self,
                        ).entities@[l2]@.len() ==> agent_wf(#[trigger] old(self).entities@[l2]@[k2])
                            && offsets_fit(
                            agent_entity(old(self).entities@[l2]@[k2]),
                            agent_speed(old(self).entities@[l2]@[k2]),
                        ),
                    forall|l2: int|
                        l < l2 < old(self).entities@.len() ==> #[trigger] self.entities@[l2]
                            == old(self).entities@[l2],
                    forall|k2: int|
                        k <= k2 < layer_len ==> #[trigger] self.entities@[l as int]@[k2] == old(
                            self,
                        ).entities@[l as int]@[k2],
                    forall|l2: int|
                        0 <= l2 < l ==> (#[trigger] self.entities@[l2])@.len() == old(
                            self,
                        ).entities@[l2]@.len(),
                    forall|l2: int, k2: int|
                        0 <= l2 < l && 0 <= k2 < old(self).entities@[l2]@.len()
                            ==> agent_behaved_rel(
                            #[trigger] old(self).entities@[l2]@[k2],
                            self.entities@[l2]@[k2],
                            *char,
                            wx as int,
                            wy as int,
                            now,
                        ),
                    forall|k2: int|
                        0 <= k2 < k ==> agent_behaved_rel(
                            #[trigger] old(self).entities@[l as int]@[k2],
                            self.entities@[l as int]@[k2],
                            *char,
                            wx as int,
                            wy as int,
                            now,
                        ),
                decreases layer_len - k,
            {
                let layer = &mut self.entities[l];
                let agent = &mut layer[k];
                agent.behave(char, wx, wy, now);
                k = k + 1;
            }
            l = l + 1;
        }
    }

    /// Scan the interaction zones in insertion order: when the interact
    /// key is pressed and the character stands in a zone under the current
    /// offset, the first such zone's index comes back.
    pub fn check_interact(&self, char: &Character, pressed: bool) -> (r: Option<usize>)
        ensures
            match r {
                Some(i) => {
                    &&& pressed
                    &&& 0 <= i < self.interactables@.len()
                    &&& overlaps(
                        shifted(
                            self.interactables@[i as int].hitbox@,
                            self.x as int,
                            self.y as int,
                        ),
                        char.rep.hitbox@,
                    )
                    &&& forall|j: int|
                        0 <= j < i ==> !overlaps(
                            shifted(
                                (#[trigger] self.interactables@[j]).hitbox@,
                                self.x as int,
                                self.y as int,
                            ),
                            char.rep.hitbox@,
                        )
                },
                None => !pressed || forall|j: int|
                    0 <= j < self.interactables@.len() ==> !overlaps(
                        shifted(
                            (#[trigger] self.interactables@[j]).hitbox@,
                            self.x as int,
                            self.y as int,
                        ),
                        char.rep.hitbox@,
                    ),
            },
    {
        if !pressed {
            return None;
        }
        let mut i: usize = 0;
        while i < self.interactables.len()
            invariant
                i <= self.interactables@.len(),
                pressed,
                forall|j: int|
                    0 <= j < i ==> !overlaps(
                        shifted(
                            (#[trigger] self.interactables@[j]).hitbox@,
                            self.x as int,
                            self.y as int,
                        ),
                        char.rep.hitbox@,
                    ),
            decreases self.interactables@.len() - i,
        {
            let act = &self.interactables[i];
            if act.check(self.x, self.y, char.rep.hitbox) {
                return Some(i);
            }
            i = i + 1;
        }
        None
    }
}

/// The blits of one layer, in insertion order, under a world offset.
pub open spec fn spec_layer_plan(layer: Seq<Agent>, wx: int, wy: int) -> Seq<Blit> {
    layer.map_values(|a: Agent| spec_blit(agent_entity(a), wx, wy))
}

/// The blits of all layers from index `i` on, back to front: at the
/// character's layer the character is drawn first, unshifted (it stays
/// screen-fixed), then the layer's agents under the world offset.
pub open spec fn spec_plan(layers: Seq<Vec<Agent>>, i: int, ch: Character, wx: int, wy: int) -> Seq<
    Blit,
>
    decreases layers.len() - i,
{
    if i < 0 || i >= layers.len() {
        Seq::empty()
    } else {
        (if ch.rep.z_index == i {
            seq![spec_blit(ch.rep, 0, 0)]
        } else {
            Seq::empty()
        }) + spec_layer_plan(layers[i]@, wx, wy) + spec_plan(layers, i + 1, ch, wx, wy)
    }
}

impl World {
    /// The full draw order of one frame: the map first, then each layer
    /// back to front, the character slotted in at its own layer. The
    /// rendering side executes the list as given.
    pub fn render_plan(&self, char: &Character) -> (plan: Vec<Blit>)
        requires
            self.map.base.wf(),
            fits_i32(self.map.base.dst.x + self.x),
            fits_i32(self.map.base.dst.y + self.y),
            char.rep.wf(),
            forall|l: int, k: int|
                0 <= l < self.entities@.len() && 0 <= k < self.entities@[l]@.len() ==> agent_wf(
                    #[trigger] self.entities@[l]@[k],
                ) && fits_i32(agent_entity(self.entities@[l]@[k]).dst.x + self.x) && fits_i32(
                    agent_entity(self.entities@[l]@[k]).dst.y + self.y,
                ),
        ensures
            plan@ == seq![spec_blit(self.map.base, self.x as int, self.y as int)] + spec_plan(
                self.entities@,
                0,
                *char,
                self.x as int,
                self.y as int,
            ),
    {
        let ghost total = seq![spec_blit(self.map.base, self.x as int, self.y as int)]
            + spec_plan(self.entities@, 0, *char, self.x as int, self.y as int);
        let mut plan: Vec<Blit> = Vec::new();
        plan.push(self.map.base.blit(self.x, self.y));
        let mut l: usize = 0;
        while l < self.entities.len()
            invariant
                l <= self.entities@.len(),
                char.rep.wf(),
                forall|l2: int, k: int|
                    0 <= l2 < self.entities@.len() && 0 <= k < self.entities@[l2]@.len()
                        ==> agent_wf(#[trigger] self.entities@[l2]@[k]) && fits_i32(
                        agent_entity(self.entities@[l2]@[k]).dst.x + self.x,
                    ) && fits_i32(agent_entity(self.entities@[l2]@[k]).dst.y + self.y),
                total == plan@ + spec_plan(
                    self.entities@,
                    l as int,
                    *char,
                    self.x as int,
                    self.y as int,
                ),
            decreases self.entities@.len() - l,
        {
            let ghost rest = spec_plan(
                self.entities@,
                l as int + 1,
                *char,
                self.x as int,
                self.y as int,
            );
            if char.rep.z_index as usize == l {
                plan.push(char.rep.blit(0, 0));
            }
            proof {
                assert(plan@ + spec_layer_plan(
                    self.entities@[l as int]@,
                    self.x as int,
                    self.y as int,
                ).skip(0) + rest =~= total);
            }
            let layer = &self.entities[l];
            let mut k: usize = 0;
            while k < layer.len()
                invariant
                    k <= layer@.len(),
                    l < self.entities@.len(),
                    layer@ == self.entities@[l as int]@,
                    rest == spec_plan(
                        self.entities@,
                        l as int + 1,
                        *char,
                        self.x as int,
                        self.y as int,
                    ),
                    forall|k2: int|
                        0 <= k2 < layer@.len() ==> agent_wf(#[trigger] layer@[k2]) && fits_i32(
                            agent_entity(layer@[k2]).dst.x + self.x,
                        ) && fits_i32(agent_entity(layer@[k2]).dst.y + self.y),
                    total == plan@ + spec_layer_plan(layer@, self.x as int, self.y as int).skip(
                        k as int,
                    ) + rest,
                decreases layer@.len() - k,
            {
                let agent = &layer[k];
                plan.push(agent.blit(self.x, self.y));
                proof {
                    let lp = spec_layer_plan(layer@, self.x as int, self.y as int);
                    assert(lp.skip(k as int).drop_first() =~= lp.skip(k as int + 1));
                    assert(lp.skip(k as int)[0] == lp[k as int]);
                    assert(total =~= plan@ + lp.skip(k as int + 1) + rest);
                }
                k = k + 1;
            }
            proof {
                let lp = spec_layer_plan(layer@, self.x as int, self.y as int);
                assert(lp.skip(layer@.len() as int) =~= Seq::<Blit>::empty());
                assert(plan@ + lp.skip(layer@.len() as int) + rest =~= plan@ + rest);
            }
            l = l + 1;
        }
        plan
    }

    /// Where the interaction indicator is drawn for a zone: the indicator
    /// entity, offset to the zone's center under the current scroll
    /// offset.
    pub fn indicator_blit(&self, zone: Rect) -> (b: Blit)
        requires
            self.e.wf(),
            fits_i32(self.x + zone.x + zone.w as int / 2),
            fits_i32(self.y + zone.y + zone.h as int / 2),
            fits_i32(self.e.dst.x + self.x + zone.x + zone.w as int / 2),
            fits_i32(self.e.dst.y + self.y + zone.y + zone.h as int / 2),
        ensures
            b == spec_blit(
                self.e,
                self.x + zone.x + zone.w as int / 2,
                self.y + zone.y + zone.h as int / 2,
            ),
    {
        let ox: i64 = self.x as i64 + zone.x as i64 + (zone.w / 2) as i64;
        let oy: i64 = self.y as i64 + zone.y as i64 + (zone.h / 2) as i64;
        self.e.blit(ox as i32, oy as i32)
    }
}

/// One comparison of the depth sort: how an agent adjusts the character's
/// layer. An agent visually below the character (larger translated hitbox
/// top) whose layer is lower pulls the character down to it; an agent
/// visually above pushes the character to one layer over it; a tie leaves
/// the layer alone.
pub open spec fn reorder_step(z: int, a: Agent, wy: int, cy: int) -> int {
    let hb = agent_hitbox(a);
    let az = agent_z(a) as int;
    if hb.y + wy > cy && az < z {
        az
    } else if hb.y + wy < cy {
        az + 1
    } else {
        z
    }
}

/// The depth sort folded over one layer, in insertion order.
pub open spec fn reorder_layer(layer: Seq<Agent>, z: int, wy: int, cy: int) -> int
    decreases layer.len(),
{
    if layer.len() == 0 {
        z
    } else {
        reorder_layer(layer.drop_first(), reorder_step(z, layer[0], wy, cy), wy, cy)
    }
}

/// The depth sort folded over all layers from index `i` on, in layer
/// order. Later comparisons win: the fold is order-dependent by design.
pub open spec fn reorder_all(layers: Seq<Vec<Agent>>, i: int, z: int, wy: int, cy: int) -> int
    decreases layers.len() - i,
{
    if i < 0 || i >= layers.len() {
        z
    } else {
        reorder_all(layers, i + 1, reorder_layer(layers[i]@, z, wy, cy), wy, cy)
    }
}

impl World {
    /// Recompute the character's draw layer against every agent, in order:
    /// each agent below the character on screen with a lower layer pulls
    /// the character's layer down to its own; each agent above pushes the
    /// character one layer over it; the last comparison wins.
    pub fn reorder_char(&self, char: &mut Character)
        requires
            old(char).wf(),
            forall|l: int, k: int|
                0 <= l < self.entities@.len() && 0 <= k < self.entities@[l]@.len() ==> agent_z(
                    #[trigger] self.entities@[l]@[k],
                ) < 255,
        ensures
            final(char).rep.z_index as int == reorder_all(
                self.entities@,
                0,
                old(char).rep.z_index as int,
                self.y as int,
                old(char).rep.hitbox.y as int,
            ),
            final(char).rep == (Entity { z_index: final(char).rep.z_index, ..old(char).rep }),
            *final(char) == (Character { rep: final(char).rep, ..*old(char) }),
            final(char).wf(),
    {
        let cy: i64 = char.rep.hitbox.y as i64;
        let ghost total = reorder_all(
            self.entities@,
            0,
            char.rep.z_index as int,
            self.y as int,
            char.rep.hitbox.y as int,
        );
        let mut z: u8 = char.rep.z_index;
        let mut l: usize = 0;
        while l < self.entities.len()
            invariant
                l <= self.entities@.len(),
                cy == old(char).rep.hitbox.y as int,
                forall|l2: int, k: int|
                    0 <= l2 < self.entities@.len() && 0 <= k < self.entities@[l2]@.len()
                        ==> agent_z(#[trigger] self.entities@[l2]@[k]) < 255,
                total == reorder_all(
                    self.entities@,
                    l as int,
                    z as int,
                    self.y as int,
                    cy as int,
                ),
            decreases self.entities@.len() - l,
        {
            let layer = &self.entities[l];
            proof {
                assert(layer@.skip(0) =~= layer@);
            }
            let mut k: usize = 0;
            while k < layer.len()
                invariant
                    k <= layer@.len(),
                    l < self.entities@.len(),
                    layer@ == self.entities@[l as int]@,
                    cy == old(char).rep.hitbox.y as int,
                    forall|k2: int|
                        0 <= k2 < layer@.len() ==> agent_z(#[trigger] layer@[k2]) < 255,
                    total == reorder_all(
                        self.entities@,
                        l as int + 1,
                        reorder_layer(layer@.skip(k as int), z as int, self.y as int, cy as int),
                        self.y as int,
                        cy as int,
                    ),
                decreases layer@.len() - k,
            {
                let agent = &layer[k];
                let hb = agent.get_hitbox();
                let az = agent.get_z_index();
                let hy: i64 = hb.y as i64 + self.y as i64;
                let ghost z_pre = z as int;
                if hy > cy && az < z {
                    z = az;
                } else if hy < cy {
                    z = az + 1;
                }
                proof {
                    assert(z as int == reorder_step(z_pre, layer@[k as int], self.y as int, cy as int));
                    assert(layer@.skip(k as int).drop_first() =~= layer@.skip(k as int + 1));
                    assert(layer@.skip(k as int)[0] == layer@[k as int]);
                }
                k = k + 1;
            }
            proof {
                assert(layer@.skip(layer@.len() as int) =~= Seq::<Agent>::empty());
            }
            l = l + 1;
        }
        char.rep.z_index = z;
    }
}

} // verus!

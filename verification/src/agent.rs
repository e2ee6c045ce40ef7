//! Autonomous wandering agents. Animals and enemies share one decision
//! model: occasionally pick a random new direction, then, if a swept move
//! toward the player stays clear of the player's hitbox, move one step with
//! even chance. The random draws come from the library's one generator
//! wrapper; everything downstream holds for every value a draw can produce.
use vstd::prelude::*;

use crate::character::Character;
use crate::direction::{swept, swept_overlaps, Direction};
use crate::entity::{entity_next_rel, entity_play_rel, offset_entity, offsets_fit, Entity};
use crate::rect::{overlaps, shifted, IRect, Rect};
use crate::rng::{chance, random};

verus! {

/// Is the swept move clear: the agent's hitbox, swept `agent_speed +
/// char_speed` pixels along `d` and translated by the world offset, misses
/// the player's hitbox.
pub open spec fn spec_move_clear(
    hb: IRect,
    d: Direction,
    agent_speed: int,
    char_speed: int,
    x: int,
    y: int,
    char_hb: IRect,
) -> bool {
    !overlaps(shifted(swept(hb, d, agent_speed + char_speed), x, y), char_hb)
}

/// The direction a roll of `0..4` decides.
pub open spec fn spec_dir_from(n: int) -> Direction {
    if n == 0 {
        Direction::Right
    } else if n == 1 {
        Direction::Left
    } else if n == 2 {
        Direction::Up
    } else {
        Direction::Down
    }
}

fn dir_from(n: i32) -> (d: Direction)
    requires
        0 <= n < 4,
    ensures
        d == spec_dir_from(n as int),
{
    if n == 0 {
        Direction::Right
    } else if n == 1 {
        Direction::Left
    } else if n == 2 {
        Direction::Up
    } else {
        Direction::Down
    }
}

/// The entity either stayed in place or moved `s` pixels along `d`.
pub open spec fn moved_or_stayed(pre: Entity, post: Entity, d: Direction, s: int) -> bool {
    ||| post == pre
    ||| post == moved_entity(pre, d, s)
}

/// The entity moved `s` pixels along `d`.
pub open spec fn moved_entity(pre: Entity, d: Direction, s: int) -> Entity {
    match d {
        Direction::Down => offset_entity(pre, 0, s),
        Direction::Up => offset_entity(pre, 0, -s),
        Direction::Right => offset_entity(pre, s, 0),
        Direction::Left => offset_entity(pre, -s, 0),
    }
}

/// A wandering animal: a movement-permission flag recorded by the last
/// collision probe, a current direction, a fixed speed and its entity.
pub struct Animal {
    pub can_move: bool,
    pub dir: Direction,
    pub speed: i32,
    pub entity: Entity,
}

impl Animal {
    pub open spec fn wf(self) -> bool {
        &&& self.entity.wf()
        &&& self.speed >= 0
    }

    pub fn from(speed: i32, entity: Entity) -> (a: Animal)
        requires
            entity.wf(),
            speed >= 0,
        ensures
            a == (Animal { can_move: false, dir: Direction::Down, speed, entity }),
            a.wf(),
    {
        Animal { can_move: false, dir: Direction::Down, speed, entity }
    }

    /// With small probability pick a new direction uniformly at random;
    /// otherwise keep the current one. Whatever the draws, only the
    /// direction changes.
    pub fn decide(&mut self)
        ensures
            *final(self) == (Animal { dir: final(self).dir, ..*old(self) }),
    {
        if chance(95) {
            return ;
        }
        let new_dir: i32 = random(0, 4);
        self.dir = dir_from(new_dir);
    }

    /// With even chance stay put; otherwise move `speed` pixels along the
    /// current direction.
    pub fn move_dir(&mut self)
        requires
            old(self).wf(),
            offsets_fit(old(self).entity, old(self).speed as int),
        ensures
            *final(self) == (Animal { entity: final(self).entity, ..*old(self) }),
            moved_or_stayed(old(self).entity, final(self).entity, old(self).dir, old(self).speed as int),
            final(self).wf(),
    {
        if chance(50) {
            return ;
        }
        match self.dir {
            Direction::Down => self.entity.offset_y(self.speed),
            Direction::Up => self.entity.offset_y(-self.speed),
            Direction::Right => self.entity.offset_x(self.speed),
            Direction::Left => self.entity.offset_x(-self.speed),
        }
    }

    /// Would a move along the current direction, swept by the combined
    /// speeds and placed under the world offset, stay clear of the player?
    pub fn can_move_self(&self, char: &Character, x: i32, y: i32) -> (r: bool)
        ensures
            r == spec_move_clear(
                self.entity.hitbox@,
                self.dir,
                self.speed as int,
                char.speed as int,
                x as int,
                y as int,
                char.rep.hitbox@,
            ),
    {
        !swept_overlaps(&self.entity.hitbox, x, y, self.dir, self.speed, char.speed, &char.rep.hitbox)
    }

    /// Probe whether this agent, under the world offset, leaves the given
    /// hitbox untouched, and record the outcome in the permission flag.
    pub fn check_move(&mut self, x: i32, y: i32, hitbox: Rect) -> (r: bool)
        ensures
            r == !overlaps(shifted(old(self).entity.hitbox@, x as int, y as int), hitbox@),
            *final(self) == (Animal { can_move: r, ..*old(self) }),
    {
        let result = self.entity.check_move(x, y, hitbox);
        self.can_move = result;
        result
    }

    /// One behavior tick: maybe pick a new direction; then, if the swept
    /// move toward the player stays clear, maybe move one step. Whatever
    /// the draws, the entity either stays or moves one step along the
    /// decided direction, and never moves when the player is in the way.
    pub fn behave(&mut self, char: &Character, x: i32, y: i32)
        requires
            old(self).wf(),
            offsets_fit(old(self).entity, old(self).speed as int),
        ensures
            final(self).speed == old(self).speed,
            final(self).can_move == old(self).can_move,
            moved_or_stayed(old(self).entity, final(self).entity, final(self).dir, old(self).speed as int),
            !spec_move_clear(
                old(self).entity.hitbox@,
                final(self).dir,
                old(self).speed as int,
                char.speed as int,
                x as int,
                y as int,
                char.rep.hitbox@,
            ) ==> final(self).entity == old(self).entity,
            final(self).wf(),
    {
        self.decide();
        if self.can_move_self(char, x, y) {
            self.move_dir();
        }
    }
}

/// A wandering enemy: the same decision model as an animal, with a smaller
/// chance of turning; it switches its sheet to match vertical movement and
/// advances its own animation every tick.
pub struct Enemy {
    pub can_move: bool,
    pub dir: Direction,
    pub speed: i32,
    pub entity: Entity,
}

/// The entity either stayed or moved `s` pixels along `d`; moving down or
/// up additionally plays the matching sheet (slots 1 and 2).
pub open spec fn enemy_moved_or_stayed(pre: Entity, post: Entity, d: Direction, s: int) -> bool {
    ||| post == pre
    ||| match d {
        Direction::Right => post == offset_entity(pre, s, 0),
        Direction::Left => post == offset_entity(pre, -s, 0),
        Direction::Down => entity_play_rel(offset_entity(pre, 0, s), post, Some(1)),
        Direction::Up => entity_play_rel(offset_entity(pre, 0, -s), post, Some(2)),
    }
}

impl Enemy {
    pub open spec fn wf(self) -> bool {
        &&& self.entity.wf()
        &&& self.speed >= 0
    }

    pub fn from(speed: i32, entity: Entity) -> (e: Enemy)
        requires
            entity.wf(),
            speed >= 0,
        ensures
            e == (Enemy { can_move: false, dir: Direction::Down, speed, entity }),
            e.wf(),
    {
        Enemy { can_move: false, dir: Direction::Down, speed, entity }
    }

    /// With small probability pick a new direction uniformly at random;
    /// otherwise keep the current one. Whatever the draws, only the
    /// direction changes.
    pub fn decide(&mut self)
        ensures
            *final(self) == (Enemy { dir: final(self).dir, ..*old(self) }),
    {
        if chance(98) {
            return ;
        }
        let new_dir: i32 = random(0, 4);
        self.dir = dir_from(new_dir);
    }

    /// With even chance stay put; otherwise move `speed` pixels along the
    /// current direction, switching to the down or up sheet when moving
    /// vertically.
    pub fn move_dir(&mut self)
        requires
            old(self).wf(),
            offsets_fit(old(self).entity, old(self).speed as int),
        ensures
            *final(self) == (Enemy { entity: final(self).entity, ..*old(self) }),
            enemy_moved_or_stayed(
                old(self).entity,
                final(self).entity,
                old(self).dir,
                old(self).speed as int,
            ),
            final(self).wf(),
    {
        if chance(50) {
            return ;
        }
        match self.dir {
            Direction::Down => {
                self.entity.offset_y(self.speed);
                self.entity.play(Some(1));
            },
            Direction::Up => {
                self.entity.offset_y(-self.speed);
                self.entity.play(Some(2));
            },
            Direction::Right => self.entity.offset_x(self.speed),
            Direction::Left => self.entity.offset_x(-self.speed),
        }
    }

    /// Would a move along the current direction, swept by the combined
    /// speeds and placed under the world offset, stay clear of the player?
    pub fn can_move_self(&self, char: &Character, x: i32, y: i32) -> (r: bool)
        ensures
            r == spec_move_clear(
                self.entity.hitbox@,
                self.dir,
                self.speed as int,
                char.speed as int,
                x as int,
                y as int,
                char.rep.hitbox@,
            ),
    {
        !swept_overlaps(&self.entity.hitbox, x, y, self.dir, self.speed, char.speed, &char.rep.hitbox)
    }

    /// Probe whether this agent, under the world offset, leaves the given
    /// hitbox untouched, and record the outcome in the permission flag.
    pub fn check_move(&mut self, x: i32, y: i32, hitbox: Rect) -> (r: bool)
        ensures
            r == !overlaps(shifted(old(self).entity.hitbox@, x as int, y as int), hitbox@),
            *final(self) == (Enemy { can_move: r, ..*old(self) }),
    {
        let result = self.entity.check_move(x, y, hitbox);
        self.can_move = result;
        result
    }

    /// One behavior tick: maybe pick a new direction, advance the own
    /// animation once, then, if the swept move toward the player stays
    /// clear, maybe move one step. The animation tick always happens; the
    /// move never happens when the player is in the way.
    pub fn behave(&mut self, char: &Character, x: i32, y: i32, now: u64)
        requires
            old(self).wf(),
            offsets_fit(old(self).entity, old(self).speed as int),
        ensures
            final(self).speed == old(self).speed,
            final(self).can_move == old(self).can_move,
            exists|mid: Entity|
                {
                    &&& #[trigger] entity_next_rel(old(self).entity, mid, now)
                    &&& enemy_moved_or_stayed(mid, final(self).entity, final(self).dir, old(self).speed as int)
                    &&& !spec_move_clear(
                        mid.hitbox@,
                        final(self).dir,
                        old(self).speed as int,
                        char.speed as int,
                        x as int,
                        y as int,
                        char.rep.hitbox@,
                    ) ==> final(self).entity == mid
                },
            final(self).wf(),
    {
        self.decide();
        self.entity.next(now);
        let ghost mid = self.entity;
        proof {
            assert(entity_next_rel(old(self).entity, mid, now));
        }
        if self.can_move_self(char, x, y) {
            self.move_dir();
        }
    }
}

} // verus!

use gamecore::agent::{Animal, Enemy};
use gamecore::animation::Animation;
use gamecore::character::{Character, MoveKeys};
use gamecore::direction::Direction;
use gamecore::entity::Entity;
use gamecore::hitbox::ComplexHitbox;
use gamecore::interact::Interactable;
use gamecore::rect::Rect;
use gamecore::world::{Agent, World};

fn entity(sheet: u32, x: i32, y: i32) -> Entity {
    let base = Animation::new(sheet, 100, 100, 1, 1, vec![(0, 0)], 0);
    Entity::from(base, x, y, 1920, 1080)
}

/// A map whose only real rectangle is degenerate: nothing ever collides
/// with it.
fn empty_map() -> ComplexHitbox {
    let mut base = entity(0, 0, 0);
    base.gen_hitbox(Rect::new(0, 0, 0, 0));
    ComplexHitbox::new(base)
}

fn character_at(hitbox: Rect, speed: i32) -> Character {
    let mut rep = entity(1, 0, 0);
    rep.hitbox = hitbox;
    Character { x: 0, y: 0, rep, dir: Direction::Right, speed, dodge_cooldown: 0 }
}

#[test]
fn rect_intersection_is_the_common_region() {
    let a = Rect::new(0, 0, 10, 10);
    let b = Rect::new(5, 5, 10, 10);
    assert_eq!(a.intersection(&b), Some(Rect::new(5, 5, 5, 5)));
    let c = Rect::new(10, 0, 10, 10);
    assert_eq!(a.intersection(&c), None, "touching edges do not intersect");
    assert!(!a.has_intersection(&c));
    let zero = Rect::new(0, 0, 0, 10);
    assert_eq!(a.intersection(&zero), None, "a degenerate rectangle meets nothing");
}

#[test]
fn hitbox_strictly_outside_never_collides() {
    let mut map = empty_map();
    map.add_hitbox(Rect::new(100, 100, 50, 50));
    map.add_hitbox(Rect::new(300, 300, 20, 20));
    // far away from both rectangles, under a zero offset
    assert!(!map.collide_all(Rect::new(0, 0, 40, 40), 0, 0));
    // and still outside under a world offset
    assert!(!map.collide_all(Rect::new(0, 0, 40, 40), 500, 500));
}

#[test]
fn hitbox_partial_overlap_collides() {
    let mut map = empty_map();
    map.add_hitbox(Rect::new(100, 100, 50, 50));
    assert!(map.collide_all(Rect::new(90, 90, 20, 20), 0, 0));
    // the offset moves the stored rectangle onto the candidate
    assert!(map.collide_all(Rect::new(590, 590, 20, 20), 500, 500));
}

#[test]
fn hitbox_equal_rectangle_is_not_a_collision() {
    let mut map = empty_map();
    map.add_hitbox(Rect::new(100, 100, 50, 50));
    // exactly the stored rectangle, after the offset: the common region is
    // the whole candidate, which by the blocking rule does not count
    assert!(!map.collide_all(Rect::new(130, 120, 50, 50), 30, 20));
}

#[test]
fn hitbox_containing_candidate_is_not_a_collision() {
    let mut map = empty_map();
    map.add_hitbox(Rect::new(100, 100, 50, 50));
    assert!(!map.collide_all(Rect::new(110, 110, 10, 10), 0, 0));
}

#[test]
fn create_real_anchors_to_base_destination() {
    let mut base = entity(0, 0, 0);
    base.w = 100;
    base.h = 100;
    base.dst();
    base.gen_hitbox(Rect::new(0, 0, 0, 0));
    let mut map = ComplexHitbox::new(base);
    map.add_hitbox(Rect::new(416, 2922, 1284, 1213));
    assert_eq!(map.ideal[0], Rect::new(416, 2922, 1284, 1213));
    assert_eq!(map.real[1], Rect::new(910 + 416, 490 + 2922, 1284, 1213));
}

#[test]
fn can_move_is_free_with_nothing_in_the_way() {
    let world = World::from(empty_map(), vec![], 3, entity(9, 0, 0));
    let c = character_at(Rect::new(0, 0, 25, 1), 3);
    assert!(world.can_move(&c, Direction::Right));
    assert!(world.can_move(&c, Direction::Left));
    assert!(world.can_move(&c, Direction::Up));
    assert!(world.can_move(&c, Direction::Down));
}

#[test]
fn can_move_blocked_by_the_map() {
    let mut map = empty_map();
    // a wall just right of the character's hitbox
    map.add_hitbox(Rect::new(26, 0, 10, 10));
    let world = World::from(map, vec![], 3, entity(9, 0, 0));
    let c = character_at(Rect::new(0, 0, 25, 5), 3);
    assert!(!world.can_move(&c, Direction::Right), "the swept hitbox reaches the wall");
    assert!(world.can_move(&c, Direction::Left));
}

#[test]
fn can_move_blocked_by_an_agent() {
    let mut tree = entity(2, 0, 0);
    tree.hitbox = Rect::new(0, -8, 10, 6);
    tree.z_index = 1;
    let mut world = World::from(empty_map(), vec![], 3, entity(9, 0, 0));
    world.add(Agent::Fixed(tree));
    let c = character_at(Rect::new(0, 0, 25, 5), 3);
    assert!(!world.can_move(&c, Direction::Up));
    assert!(world.can_move(&c, Direction::Down));
}

#[test]
fn can_move_is_idempotent_and_changes_nothing() {
    let world = World::from(empty_map(), vec![], 3, entity(9, 0, 0));
    let c = character_at(Rect::new(0, 0, 25, 1), 3);
    let first = world.can_move(&c, Direction::Right);
    let second = world.can_move(&c, Direction::Right);
    assert_eq!(first, second);
    assert_eq!(world.x, 0);
    assert_eq!(world.y, 0);
    assert_eq!(c.speed, 3);
}

#[test]
fn world_from_buckets_entities_by_layer() {
    let mut a = entity(2, 0, 0);
    a.z_index = 1;
    let mut b = entity(3, 0, 0);
    b.z_index = 3;
    let world = World::from(empty_map(), vec![a, b], 3, entity(9, 0, 0));
    assert_eq!(world.entities.len(), 5);
    assert_eq!(world.entities[1].len(), 1);
    assert_eq!(world.entities[3].len(), 1);
    assert_eq!(world.entities[0].len(), 0);
    assert_eq!(world.x, 0);
    assert_eq!(world.y, 0);
}

#[test]
fn reorder_entity_above_pushes_character_over_it() {
    // the agent sits higher on screen than the character (smaller y) on
    // layer 2: the character must draw after it, on layer 3
    let mut tree = entity(2, 0, 0);
    tree.hitbox = Rect::new(0, -50, 10, 10);
    tree.z_index = 2;
    let mut world = World::from(empty_map(), vec![], 3, entity(9, 0, 0));
    world.add(Agent::Fixed(tree));
    let mut c = character_at(Rect::new(0, 0, 25, 1), 3);
    c.rep.z_index = 1;
    world.reorder_char(&mut c);
    assert_eq!(c.rep.z_index, 3);
}

#[test]
fn reorder_entity_below_pulls_character_to_its_layer() {
    // the agent sits lower on screen (larger y) on a lower layer: the
    // character joins that layer, where it draws first
    let mut tree = entity(2, 0, 0);
    tree.hitbox = Rect::new(0, 50, 10, 10);
    tree.z_index = 1;
    let mut world = World::from(empty_map(), vec![], 5, entity(9, 0, 0));
    world.add(Agent::Fixed(tree));
    let mut c = character_at(Rect::new(0, 0, 25, 1), 3);
    c.rep.z_index = 5;
    world.reorder_char(&mut c);
    assert_eq!(c.rep.z_index, 1);
}

#[test]
fn reorder_last_comparison_wins() {
    let mut above = entity(2, 0, 0);
    above.hitbox = Rect::new(0, -50, 10, 10);
    above.z_index = 2;
    let mut below = entity(3, 0, 0);
    below.hitbox = Rect::new(0, 50, 10, 10);
    below.z_index = 2;
    let mut world = World::from(empty_map(), vec![], 3, entity(9, 0, 0));
    world.add(Agent::Fixed(above));
    world.add(Agent::Fixed(below));
    let mut c = character_at(Rect::new(0, 0, 25, 1), 3);
    c.rep.z_index = 3;
    world.reorder_char(&mut c);
    // the above-agent sets layer 3, then the below-agent pulls to 2
    assert_eq!(c.rep.z_index, 2);
}

#[test]
fn dash_cooldown_gates_a_second_dash() {
    let mut c = character_at(Rect::new(0, 0, 25, 1), 3);
    // give the character the four walk slots and the four dash slots
    for s in 2..10 {
        c.rep.animations.push(Animation::new(s, 100, 100, 1, 1, vec![(0, 0)], 0));
    }
    let mut dash = entity(8, 0, 0);
    dash.animations[0].ongoing = false;

    // the clock starts long past the last dash: the first dash succeeds
    let t0: u64 = 10_000;
    assert!(c.speed(false, true, t0, &mut dash));
    assert_eq!(c.speed, 20);
    assert_eq!(c.dodge_cooldown, t0);
    assert!(dash.animations[0].ongoing, "the cooldown indicator starts");

    // within 150 ms of the dash the speed stays raised
    assert!(!c.speed(false, false, t0 + 100, &mut dash));
    assert_eq!(c.speed, 18);

    // a second attempt after one second is refused
    assert!(!c.speed(false, true, t0 + 1_000, &mut dash));
    assert_ne!(c.speed, 20);
    assert_eq!(c.dodge_cooldown, t0);

    // after 2.1 s it succeeds and restamps the cooldown
    assert!(c.speed(false, true, t0 + 2_100, &mut dash));
    assert_eq!(c.speed, 20);
    assert_eq!(c.dodge_cooldown, t0 + 2_100);
}

#[test]
fn speed_resolution_base_and_sprint() {
    let mut c = character_at(Rect::new(0, 0, 25, 1), 3);
    let mut dash = entity(8, 0, 0);
    let t: u64 = 10_000;
    assert!(!c.speed(false, false, t, &mut dash));
    assert_eq!(c.speed, 3);
    assert!(!c.speed(true, false, t + 10, &mut dash));
    assert_eq!(c.speed, 5);
}

#[test]
fn ten_steps_right_scroll_the_world_left() {
    let mut world = World::from(empty_map(), vec![], 3, entity(9, 0, 0));
    let mut c = character_at(Rect::new(0, 0, 25, 1), 3);
    // make the directional slots exist so the walk switch lands
    for s in 2..6 {
        c.rep.animations.push(Animation::new(s, 100, 100, 1, 1, vec![(0, 0)], 0));
    }
    let keys = MoveKeys { right: true, left: false, up: false, down: false };
    for _ in 0..10 {
        assert!(c.movement(keys, &mut world));
    }
    assert_eq!(world.x, -30, "the world scrolls opposite the motion, speed pixels a step");
    assert_eq!(world.y, 0);
    assert_eq!(c.rep.active, 2, "the right walk slot is active");
    assert_eq!(c.dir, Direction::Right);
}

#[test]
fn movement_refused_leaves_world_still() {
    let mut map = empty_map();
    map.add_hitbox(Rect::new(26, 0, 10, 10));
    let mut world = World::from(map, vec![], 3, entity(9, 0, 0));
    let mut c = character_at(Rect::new(0, 0, 25, 5), 3);
    for s in 2..6 {
        c.rep.animations.push(Animation::new(s, 100, 100, 1, 1, vec![(0, 0)], 0));
    }
    let keys = MoveKeys { right: true, left: false, up: false, down: false };
    assert!(!c.movement(keys, &mut world));
    assert_eq!(world.x, 0);
    assert_eq!(c.rep.active, 0);
}

#[test]
fn movement_left_yields_to_right_even_when_right_is_blocked() {
    let mut map = empty_map();
    map.add_hitbox(Rect::new(26, 0, 10, 10));
    let mut world = World::from(map, vec![], 3, entity(9, 0, 0));
    let mut c = character_at(Rect::new(0, 0, 25, 5), 3);
    for s in 2..6 {
        c.rep.animations.push(Animation::new(s, 100, 100, 1, 1, vec![(0, 0)], 0));
    }
    // right is held and blocked; left, though held and free, is not tried
    let keys = MoveKeys { right: true, left: true, up: false, down: false };
    assert!(!c.movement(keys, &mut world));
    assert_eq!(world.x, 0);
}

#[test]
fn movement_diagonal_is_one_step_per_axis() {
    let mut world = World::from(empty_map(), vec![], 3, entity(9, 0, 0));
    let mut c = character_at(Rect::new(0, 0, 25, 1), 3);
    for s in 2..6 {
        c.rep.animations.push(Animation::new(s, 100, 100, 1, 1, vec![(0, 0)], 0));
    }
    let keys = MoveKeys { right: true, left: false, up: true, down: false };
    assert!(c.movement(keys, &mut world));
    assert_eq!(world.x, -3, "right scrolls the world left");
    assert_eq!(world.y, 3, "up scrolls the world down");
    assert_eq!(c.dir, Direction::Up, "the vertical step is committed last");
}

#[test]
fn interactable_anchors_to_the_map_destination() {
    let zone = Interactable::new(Rect::new(1128, 3383, 86, 36), Rect::new(10, 20, 0, 0));
    assert_eq!(zone.hitbox, Rect::new(1138, 3403, 86, 36));
}

#[test]
fn check_interact_finds_the_first_overlapping_zone() {
    let mut world = World::from(empty_map(), vec![], 3, entity(9, 0, 0));
    world.add_interaction(Interactable::new(Rect::new(500, 500, 10, 10), Rect::new(0, 0, 0, 0)));
    world.add_interaction(Interactable::new(Rect::new(0, 0, 30, 30), Rect::new(0, 0, 0, 0)));
    let c = character_at(Rect::new(5, 5, 10, 10), 3);
    assert_eq!(world.check_interact(&c, true), Some(1));
    assert_eq!(world.check_interact(&c, false), None, "without the key nothing triggers");
    let far = character_at(Rect::new(-900, -900, 10, 10), 3);
    assert_eq!(world.check_interact(&far, true), None);
}

#[test]
fn render_plan_goes_map_then_layers_with_character_slotted_in() {
    let mut tree = entity(2, 0, 0);
    tree.z_index = 1;
    let mut world = World::from(empty_map(), vec![], 2, entity(9, 0, 0));
    world.add(Agent::Fixed(tree));
    let mut c = character_at(Rect::new(0, 0, 25, 1), 3);
    c.rep.z_index = 1;
    let plan = world.render_plan(&c);
    let sheets: Vec<u32> = plan.iter().map(|b| b.sheet).collect();
    // map sheet 0 first; at layer 1 the character (sheet 1) draws before
    // the layer's own agent (sheet 2)
    assert_eq!(sheets, vec![0, 1, 2]);
}

#[test]
fn render_plan_applies_the_scroll_offset_to_agents_only() {
    let mut tree = entity(2, 0, 0);
    tree.z_index = 1;
    let tree_dst = tree.dst;
    let mut world = World::from(empty_map(), vec![], 2, entity(9, 0, 0));
    world.add(Agent::Fixed(tree));
    world.x = 70;
    world.y = -20;
    let mut c = character_at(Rect::new(0, 0, 25, 1), 3);
    c.rep.z_index = 1;
    let char_dst = c.rep.dst;
    let plan = world.render_plan(&c);
    assert_eq!(plan[1].dst, char_dst, "the character stays screen-fixed");
    assert_eq!(plan[2].dst, Rect::new(tree_dst.x + 70, tree_dst.y - 20, tree_dst.w, tree_dst.h));
}

#[test]
fn animal_blocked_by_the_player_stays_put() {
    let mut cat = entity(4, 0, 0);
    cat.hitbox = Rect::new(0, 0, 10, 10);
    let animal = Animal::from(3, cat);
    // the player stands right below, inside the swept area
    let c = character_at(Rect::new(0, 11, 10, 10), 3);
    assert!(!animal.can_move_self(&c, 0, 0), "down is the initial direction");
    let far = character_at(Rect::new(100, 100, 10, 10), 3);
    assert!(animal.can_move_self(&far, 0, 0));
}

#[test]
fn check_move_records_the_outcome() {
    let mut cat = entity(4, 0, 0);
    cat.hitbox = Rect::new(0, 0, 10, 10);
    let mut animal = Animal::from(3, cat);
    assert!(!animal.check_move(0, 0, Rect::new(5, 5, 10, 10)));
    assert!(!animal.can_move);
    assert!(animal.check_move(0, 0, Rect::new(50, 50, 10, 10)));
    assert!(animal.can_move);
}

#[test]
fn agent_check_move_dispatches_and_records() {
    let mut cat = entity(4, 0, 0);
    cat.hitbox = Rect::new(0, 0, 10, 10);
    let mut agent = Agent::Animal(Animal::from(3, cat));
    assert!(!agent.check_move(0, 0, Rect::new(5, 5, 10, 10)));
    match &agent {
        Agent::Animal(a) => assert!(!a.can_move),
        _ => panic!("the variant is preserved"),
    }
    let mut tree = entity(2, 0, 0);
    tree.hitbox = Rect::new(0, 0, 10, 10);
    let mut fixed = Agent::Fixed(tree);
    assert!(fixed.check_move(100, 100, Rect::new(5, 5, 10, 10)));
}

#[test]
fn animal_wanders_in_whole_steps() {
    let mut cat = entity(4, 0, 0);
    cat.hitbox = Rect::new(0, 0, 10, 10);
    let mut animal = Animal::from(3, cat);
    let c = character_at(Rect::new(5_000, 5_000, 10, 10), 3);
    let mut moved = false;
    for _ in 0..400 {
        let (px, py) = (animal.entity.x, animal.entity.y);
        animal.behave(&c, 0, 0);
        let (dx, dy) = (animal.entity.x - px, animal.entity.y - py);
        assert!(
            (dx == 0 && dy == 0) || (dx.abs() == 3 && dy == 0) || (dx == 0 && dy.abs() == 3),
            "each tick moves one whole step or none"
        );
        if dx != 0 || dy != 0 {
            moved = true;
        }
        assert_eq!(animal.speed, 3);
    }
    assert!(moved, "an unobstructed animal moves eventually");
}

#[test]
fn enemy_always_advances_its_animation() {
    let walk = Animation::new(5, 800, 100, 1, 8, (0..8).map(|i| (i, 0)).collect(), 0);
    let mut body = Entity::from(walk, 0, 0, 1920, 1080);
    body.animations.push(Animation::new(6, 800, 100, 1, 8, (0..8).map(|i| (i, 0)).collect(), 0));
    body.hitbox = Rect::new(0, 0, 10, 10);
    let mut enemy = Enemy::from(3, body);
    let c = character_at(Rect::new(5_000, 5_000, 10, 10), 3);
    let before = enemy.entity.animations[0].current;
    enemy.behave(&c, 0, 0, 100);
    let after = enemy.entity.animations[0].current;
    assert_ne!(before, after, "the enemy animates every tick, moving or not");
}

#[test]
fn do_behaviours_keeps_the_world_shape() {
    let mut cat = entity(4, 0, 0);
    cat.hitbox = Rect::new(200, 200, 10, 10);
    cat.z_index = 2;
    let mut world = World::from(empty_map(), vec![], 3, entity(9, 0, 0));
    world.add(Agent::Animal(Animal::from(3, cat)));
    let c = character_at(Rect::new(0, 0, 25, 1), 3);
    for t in 0..50u64 {
        world.do_behaviours(&c, t * 100);
    }
    assert_eq!(world.entities.len(), 5);
    assert_eq!(world.entities[2].len(), 1);
    assert_eq!(world.x, 0);
    assert_eq!(world.y, 0);
}

#[test]
fn indicator_blit_centers_on_the_zone() {
    let mut world = World::from(empty_map(), vec![], 3, entity(9, 0, 0));
    world.x = 100;
    world.y = 200;
    let b = world.indicator_blit(Rect::new(10, 20, 30, 40));
    let e_dst = world.e.dst;
    assert_eq!(b.dst.x, e_dst.x + 100 + 10 + 15);
    assert_eq!(b.dst.y, e_dst.y + 200 + 20 + 20);
}

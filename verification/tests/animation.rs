use gamecore::animation::Animation;
use gamecore::entity::Entity;
use gamecore::rect::Rect;

fn anim(frames: usize, now: u64) -> Animation {
    let coords: Vec<(u8, u8)> = (0..frames as u8).map(|i| (i, 0)).collect();
    Animation::new(7, 100 * frames as u32, 100, 1, frames as u8, coords, now)
}

#[test]
fn new_defaults() {
    let a = anim(3, 0);
    assert_eq!(a.current, 0);
    assert_eq!(a.total, 2);
    assert!(a.ongoing);
    assert!(a.looped);
    assert!(a.interruptable);
    assert!(a.movable);
    assert_eq!(a.dur, 100);
    assert_eq!(a.elapse, 0);
    assert_eq!(a.frames.len(), 3);
}

#[test]
fn get_units_divides_sheet() {
    let a = Animation::new(1, 400, 90, 3, 4, vec![(0, 0)], 0);
    assert_eq!(a.get_units(), (100, 30));
}

#[test]
fn get_src_is_grid_cell() {
    let mut a = anim(4, 0);
    assert_eq!(a.get_src(), Rect::new(0, 0, 100, 100));
    a.next(100);
    a.next(200);
    // two due ticks: frame index 2, third cell of the sheet
    assert_eq!(a.current, 2);
    assert_eq!(a.get_src(), Rect::new(200, 0, 100, 100));
}

#[test]
fn get_src_override_wins() {
    let mut a = anim(2, 0);
    a.set_frame_override(Rect::new(5, 13, 23, 45));
    assert_eq!(a.get_src(), Rect::new(5, 13, 23, 45));
}

#[test]
fn tick_before_due_does_nothing() {
    let mut a = anim(3, 0);
    let finished = a.next(99);
    assert!(!finished);
    assert_eq!(a.current, 0);
    assert_eq!(a.elapse, 0);
}

#[test]
fn one_shot_finishes_then_holds() {
    let mut a = anim(3, 0);
    a.looped = false;
    // one due tick per frame of the sequence: two advances, then the
    // finishing tick
    assert!(!a.next(100));
    assert_eq!(a.current, 1);
    assert!(!a.next(200));
    assert_eq!(a.current, 2);
    assert!(a.next(300));
    assert!(!a.ongoing);
    assert_eq!(a.current, 2, "a finished one-shot stays on its last frame");
    // every later due tick reports finished without moving the frame
    assert!(a.next(400));
    assert!(a.next(100_000));
    assert_eq!(a.current, 2);
    assert!(!a.ongoing);
}

#[test]
fn looped_cycles_and_never_finishes() {
    let mut a = anim(3, 0);
    let mut t = 0;
    for tick in 1..=7 {
        t += 100;
        let finished = a.next(t);
        assert!(!finished, "a looping animation never reports finished");
        assert_eq!(a.current, tick % 3);
        assert!(a.ongoing);
    }
}

#[test]
fn clone_copies_every_field() {
    let mut a = anim(3, 42);
    a.looped = false;
    a.dur = 250;
    let b = a.clone();
    assert_eq!(b.sheet, a.sheet);
    assert_eq!(b.sheet_w, a.sheet_w);
    assert_eq!(b.current, a.current);
    assert_eq!(b.total, a.total);
    assert_eq!(b.dur, 250);
    assert_eq!(b.elapse, 42);
    assert!(!b.looped);
    assert_eq!(b.frames, a.frames);
}

fn entity_with_slots() -> Entity {
    // slot 0: looping, interruptable; slot 1: a two-frame one-shot
    let base = anim(2, 0);
    let mut e = Entity::from(base, 0, 0, 1920, 1080);
    let mut one_shot = anim(2, 0);
    one_shot.looped = false;
    one_shot.interruptable = false;
    e.animations.push(one_shot);
    e
}

#[test]
fn entity_from_takes_one_sheet_cell() {
    let base = Animation::new(1, 400, 90, 1, 4, vec![(0, 0)], 0);
    let e = Entity::from(base, 7, -3, 1920, 1080);
    assert_eq!(e.w, 100);
    assert_eq!(e.h, 90);
    assert_eq!(e.dst, Rect::new(7, -3, 100, 90));
    assert_eq!(e.hitbox, e.dst);
    assert_eq!(e.active, 0);
    assert_eq!(e.last, 0);
    assert_eq!(e.z_index, 0);
}

#[test]
fn dst_centers_position_in_viewport() {
    let mut e = entity_with_slots();
    e.w = 100;
    e.h = 100;
    e.x = 0;
    e.y = 0;
    e.dst();
    assert_eq!(e.dst, Rect::new(910, 490, 100, 100));
    e.x = 25;
    e.dst();
    assert_eq!(e.dst.x, 935);
}

#[test]
fn dst_rounds_toward_zero_when_larger_than_viewport() {
    let mut e = entity_with_slots();
    e.w = 2001;
    e.h = 100;
    e.x = 0;
    e.y = 0;
    e.dst();
    // (1920 - 2001) / 2 truncates toward zero: -40, not -41
    assert_eq!(e.dst.x, -40);
}

#[test]
fn offsets_move_position_hitbox_and_destination_together() {
    let mut e = entity_with_slots();
    e.w = 100;
    e.h = 100;
    e.dst();
    e.gen_hitbox(Rect::new(10, 20, 30, 40));
    let hb = e.hitbox;
    let dst = e.dst;
    e.offset_x(5);
    e.offset_y(-7);
    assert_eq!(e.x, 5);
    assert_eq!(e.y, -7);
    assert_eq!(e.hitbox, Rect::new(hb.x + 5, hb.y - 7, 30, 40));
    assert_eq!(e.dst, Rect::new(dst.x + 5, dst.y - 7, 100, 100));
}

#[test]
fn mult_scales_size_and_hitbox() {
    let mut e = entity_with_slots();
    e.w = 100;
    e.h = 60;
    e.hitbox = Rect::new(0, 0, 50, 30);
    e.mult_w(7, 2);
    e.mult_h(1, 2);
    assert_eq!(e.w, 350);
    assert_eq!(e.h, 30);
    assert_eq!(e.hitbox.w, 175);
    assert_eq!(e.hitbox.h, 15);
}

#[test]
fn gen_hitbox_bakes_in_destination_origin() {
    let mut e = entity_with_slots();
    e.w = 100;
    e.h = 100;
    e.x = 0;
    e.y = 0;
    e.dst();
    e.gen_hitbox(Rect::new(35, 90, 25, 10));
    assert_eq!(e.hitbox, Rect::new(910 + 35, 490 + 90, 25, 10));
}

#[test]
fn switch_to_refused_on_non_interruptable_active() {
    let mut e = entity_with_slots();
    e.switch_to(1);
    assert_eq!(e.active, 1);
    assert_eq!(e.last, 0);
    // slot 1 is not interruptable: the request is silently dropped
    e.switch_to(0);
    assert_eq!(e.active, 1, "a non-interruptable animation keeps its slot");
    assert_eq!(e.last, 0);
}

#[test]
fn switch_to_ignores_out_of_range_slot() {
    let mut e = entity_with_slots();
    e.switch_to(9);
    assert_eq!(e.active, 0);
    assert_eq!(e.last, 0);
}

#[test]
fn finished_one_shot_restores_previous_slot() {
    let mut e = entity_with_slots();
    e.switch_to(1);
    assert_eq!(e.active, 1);
    // two-frame one-shot: one advance, then the finishing tick hands the
    // active slot back
    e.next(100);
    assert_eq!(e.active, 1);
    e.next(200);
    assert_eq!(e.active, 0, "the previously active slot is restored exactly");
}

#[test]
fn play_restarts_a_halted_animation() {
    let mut e = entity_with_slots();
    e.animations[0].ongoing = false;
    e.play(None);
    assert!(e.animations[0].ongoing);
}

#[test]
fn collide_tests_hitbox_overlap() {
    let mut a = entity_with_slots();
    let mut b = entity_with_slots();
    a.hitbox = Rect::new(0, 0, 10, 10);
    b.hitbox = Rect::new(5, 5, 10, 10);
    assert!(a.collide(&b));
    b.hitbox = Rect::new(10, 0, 10, 10);
    assert!(!a.collide(&b), "touching edges do not overlap");
}

#[test]
fn entity_clone_is_deep() {
    let mut e = entity_with_slots();
    e.z_index = 3;
    let mut c = e.clone();
    assert_eq!(c.z_index, 3);
    assert_eq!(c.animations.len(), 2);
    assert_eq!(c.animations[1].looped, false);
    c.animations[0].ongoing = false;
    assert!(e.animations[0].ongoing, "the copy owns its own animations");
}

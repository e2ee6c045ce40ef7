//! The player: a world-anchored entity that stays visually fixed while the
//! world scrolls under it. Movement speed is resolved every tick; a dash
//! raises it briefly and is gated by a cooldown.
use vstd::prelude::*;

use crate::direction::{spec_sign, spec_slot, slot, Direction};
use crate::entity::{entity_play_rel, spec_switch_to, Entity};
use crate::rect::fits_i32;
use crate::world::{spec_can_move, World};

verus! {

/// One tick's movement-key snapshot.
#[derive(Clone, Copy, PartialEq, Eq, Structural, Debug)]
pub struct MoveKeys {
    pub right: bool,
    pub left: bool,
    pub up: bool,
    pub down: bool,
}

/// The character and world after one committed step along `dir`: the
/// offset component moves by the character's speed with the direction's
/// sign, the character faces `dir` and switches to its walk-cycle slot.
pub open spec fn spec_moved(c: Character, w: World, dir: Direction) -> (Character, World) {
    let c1 = Character {
        dir,
        rep: spec_switch_to(c.rep, spec_slot(dir) as usize),
        ..c
    };
    let w1 = match dir {
        Direction::Right | Direction::Left => World {
            x: (w.x + c.speed * spec_sign(dir)) as i32,
            ..w
        },
        Direction::Up | Direction::Down => World {
            y: (w.y + c.speed * spec_sign(dir)) as i32,
            ..w
        },
    };
    (c1, w1)
}

/// The player-controlled character.
pub struct Character {
    /// Position in the world's coordinate system. The world's scroll offset
    /// does the actual moving; these record where the character stands.
    pub x: i32,
    pub y: i32,
    /// The character's visual representation and hitbox.
    pub rep: Entity,
    /// The direction the character is facing.
    pub dir: Direction,
    /// Pixels moved per tick, re-resolved every tick.
    pub speed: i32,
    /// Timestamp (ms) of the last dash; gates the next one.
    pub dodge_cooldown: u64,
}

impl Character {
    pub open spec fn wf(self) -> bool {
        &&& self.rep.wf()
        &&& self.speed >= 0
    }

    /// Commit one step of movement: shift the given world-offset component
    /// by `speed` with the direction's sign, face that way, and switch the
    /// entity to the matching walk-cycle slot.
    pub fn move_world(&mut self, dir: Direction, part: &mut i32)
        requires
            old(self).wf(),
            fits_i32(*old(part) + old(self).speed * spec_sign(dir)),
        ensures
            *final(part) == *old(part) + old(self).speed * spec_sign(dir),
            final(self).dir == dir,
            final(self).rep == spec_switch_to(old(self).rep, spec_slot(dir) as usize),
            *final(self) == (Character {
                dir,
                rep: final(self).rep,
                ..*old(self)
            }),
            final(self).wf(),
    {
        let sign: i64 = match dir {
            Direction::Left => 1,
            Direction::Up => 1,
            Direction::Right => -1,
            Direction::Down => -1,
        };
        *part = (*part as i64 + self.speed as i64 * sign) as i32;
        self.dir = dir;
        self.rep.switch_to(slot(dir));
    }

    /// Resolve this tick's speed. Base 3, raised to 5 while sprinting; 18
    /// within 150 ms of the last dash; a fresh dash (key held, cooldown of
    /// 2 s elapsed) sets 20, plays the directional dash animation, starts
    /// the dash indicator, restamps the cooldown and reports true.
    pub fn speed(&mut self, sprint: bool, dash_key: bool, now: u64, dash: &mut Entity) -> (r: bool)
        requires
            old(self).wf(),
            old(dash).wf(),
            old(self).dodge_cooldown <= now,
        ensures
            ({
                let elapsed = now - old(self).dodge_cooldown;
                if dash_key && elapsed > 2000 {
                    &&& r == true
                    &&& final(self).speed == 20
                    &&& final(self).dodge_cooldown == now
                    &&& entity_play_rel(
                        old(self).rep,
                        final(self).rep,
                        Some((spec_slot(old(self).dir) + 5) as usize),
                    )
                    &&& entity_play_rel(*old(dash), *final(dash), None)
                    &&& *final(self) == (Character {
                        speed: 20,
                        dodge_cooldown: now,
                        rep: final(self).rep,
                        ..*old(self)
                    })
                } else {
                    &&& r == false
                    &&& final(self).speed == (if elapsed < 150 {
                        18int
                    } else if sprint {
                        5int
                    } else {
                        3int
                    })
                    &&& *final(self) == (Character {
                        speed: final(self).speed,
                        ..*old(self)
                    })
                    &&& *final(dash) == *old(dash)
                }
            }),
            final(self).wf(),
            final(dash).wf(),
    {
        if sprint {
            self.speed = 5;
        } else {
            self.speed = 3;
        }
        let elapsed: u64 = now - self.dodge_cooldown;
        if elapsed < 150 {
            self.speed = 18;
        }
        if dash_key {
            if elapsed > 2000 {
                let anim = slot(self.dir) + 5;
                self.rep.play(Some(anim));
                self.speed = 20;
                dash.play(None);
                self.dodge_cooldown = now;
                return true;
            }
        }
        false
    }

    /// Try one step for each pressed movement key: horizontal and vertical
    /// are resolved independently, left yields to right and down to up,
    /// and each step is committed only when the world allows it, against
    /// the world state the previous step left behind. Reports whether any
    /// step was committed.
    pub fn movement(&mut self, keys: MoveKeys, world: &mut World) -> (moved: bool)
        requires
            old(self).wf(),
            fits_i32(old(self).rep.hitbox.x - old(self).speed),
            fits_i32(old(self).rep.hitbox.y - old(self).speed),
            old(self).rep.hitbox.w + old(self).speed <= u32::MAX,
            old(self).rep.hitbox.h + old(self).speed <= u32::MAX,
            fits_i32(old(world).x - old(self).speed),
            fits_i32(old(world).x + old(self).speed),
            fits_i32(old(world).y - old(self).speed),
            fits_i32(old(world).y + old(self).speed),
        ensures
            ({
                let c0 = *old(self);
                let w0 = *old(world);
                let move_r = keys.right && spec_can_move(w0, c0, Direction::Right);
                let move_l = !keys.right && keys.left && spec_can_move(w0, c0, Direction::Left);
                let (c1, w1) = if move_r {
                    spec_moved(c0, w0, Direction::Right)
                } else if move_l {
                    spec_moved(c0, w0, Direction::Left)
                } else {
                    (c0, w0)
                };
                let move_u = keys.up && spec_can_move(w1, c1, Direction::Up);
                let move_d = !keys.up && keys.down && spec_can_move(w1, c1, Direction::Down);
                let (c2, w2) = if move_u {
                    spec_moved(c1, w1, Direction::Up)
                } else if move_d {
                    spec_moved(c1, w1, Direction::Down)
                } else {
                    (c1, w1)
                };
                &&& *final(self) == c2
                &&& *final(world) == w2
                &&& moved == (move_r || move_l || move_u || move_d)
            }),
            final(self).wf(),
    {
        let mut moved = false;
        if keys.right {
            if world.can_move(self, Direction::Right) {
                self.move_world(Direction::Right, &mut world.x);
                moved = true;
            }
        } else if keys.left {
            if world.can_move(self, Direction::Left) {
                self.move_world(Direction::Left, &mut world.x);
                moved = true;
            }
        }
        if keys.up {
            if world.can_move(self, Direction::Up) {
                self.move_world(Direction::Up, &mut world.y);
                moved = true;
            }
        } else if keys.down {
            if world.can_move(self, Direction::Down) {
                self.move_world(Direction::Down, &mut world.y);
                moved = true;
            }
        }
        moved
    }
}

} // verus!

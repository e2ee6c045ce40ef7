//! The four movement directions, their animation-slot conventions, and the
//! swept-hitbox construction shared by every movement check: a hitbox grows
//! by the distance about to be travelled, and for Up/Left its origin moves
//! back, so the whole swept area is covered.
use vstd::prelude::*;

use crate::rect::{overlaps, shifted, IRect, Rect};

verus! {

#[derive(Clone, Copy, PartialEq, Eq, Structural, Debug)]
pub enum Direction {
    Left,
    Right,
    Up,
    Down,
}

/// The animation slot conventionally holding the walk cycle for a
/// direction: slots 1 through 4 are left, right, up, down.
pub open spec fn spec_slot(d: Direction) -> int {
    match d {
        Direction::Left => 1,
        Direction::Right => 2,
        Direction::Up => 3,
        Direction::Down => 4,
    }
}

/// The sign the world's scroll offset moves with when the player walks in a
/// direction: the world scrolls opposite to the perceived motion, so Right
/// and Down decrease the offset while Left and Up increase it.
pub open spec fn spec_sign(d: Direction) -> int {
    match d {
        Direction::Left => 1,
        Direction::Right => -1,
        Direction::Up => 1,
        Direction::Down => -1,
    }
}

/// The walk-cycle slot of a direction.
pub fn slot(d: Direction) -> (r: usize)
    ensures
        r == spec_slot(d),
{
    match d {
        Direction::Left => 1,
        Direction::Right => 2,
        Direction::Up => 3,
        Direction::Down => 4,
    }
}

/// `hb` extended by `e` pixels of travel in direction `d`.
pub open spec fn swept(hb: IRect, d: Direction, e: int) -> IRect {
    match d {
        Direction::Down => IRect { h: hb.h + e, ..hb },
        Direction::Up => IRect { y: hb.y - e, h: hb.h + e, ..hb },
        Direction::Right => IRect { w: hb.w + e, ..hb },
        Direction::Left => IRect { x: hb.x - e, w: hb.w + e, ..hb },
    }
}

/// Does `hb`, swept `s1 + s2` pixels along `d` and translated by the world
/// offset `(dx, dy)`, overlap `other`? Computed in wide arithmetic, so any
/// speeds and offsets are admissible.
pub fn swept_overlaps(
    hb: &Rect,
    dx: i32,
    dy: i32,
    d: Direction,
    s1: i32,
    s2: i32,
    other: &Rect,
) -> (r: bool)
    ensures
        r == overlaps(shifted(swept(hb@, d, s1 + s2), dx as int, dy as int), other@),
{
    let e: i64 = s1 as i64 + s2 as i64;
    let mut x: i64 = hb.x as i64 + dx as i64;
    let mut y: i64 = hb.y as i64 + dy as i64;
    let mut w: i64 = hb.w as i64;
    let mut h: i64 = hb.h as i64;
    match d {
        Direction::Down => {
            h = h + e;
        },
        Direction::Up => {
            y = y - e;
            h = h + e;
        },
        Direction::Right => {
            w = w + e;
        },
        Direction::Left => {
            x = x - e;
            w = w + e;
        },
    }
    let bx: i64 = other.x as i64;
    let by: i64 = other.y as i64;
    w > 0 && h > 0 && other.w > 0 && other.h > 0 && x < bx + other.w as i64 && bx < x + w && y < by
        + other.h as i64 && by < y + h
}

} // verus!

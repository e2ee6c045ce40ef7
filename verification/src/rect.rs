//! Axis-aligned rectangles and the overlap tests the collision system is
//! built on. Coordinates are screen/world pixels: a signed origin and an
//! unsigned extent. The mathematical model (`IRect`) lives over `int`, so
//! translated copies of a rectangle can be reasoned about without any
//! overflow side conditions.
use vstd::prelude::*;

verus! {

/// An axis-aligned rectangle: origin `(x, y)`, extent `w` by `h`.
#[derive(Clone, Copy, PartialEq, Eq, Structural, Debug)]
pub struct Rect {
    pub x: i32,
    pub y: i32,
    pub w: u32,
    pub h: u32,
}

/// The mathematical value of a rectangle: the same four numbers over `int`.
pub ghost struct IRect {
    pub x: int,
    pub y: int,
    pub w: int,
    pub h: int,
}

impl View for Rect {
    type V = IRect;

    open spec fn view(&self) -> IRect {
        IRect { x: self.x as int, y: self.y as int, w: self.w as int, h: self.h as int }
    }
}

/// A rectangle with no area; such a rectangle overlaps nothing.
pub open spec fn is_degenerate(r: IRect) -> bool {
    r.w <= 0 || r.h <= 0
}

/// `r` translated by `(dx, dy)`.
pub open spec fn shifted(r: IRect, dx: int, dy: int) -> IRect {
    IRect { x: r.x + dx, y: r.y + dy, w: r.w, h: r.h }
}

/// Two rectangles share interior points: both have area and each starts
/// strictly before the other ends, on both axes.
pub open spec fn overlaps(a: IRect, b: IRect) -> bool {
    &&& !is_degenerate(a)
    &&& !is_degenerate(b)
    &&& a.x < b.x + b.w
    &&& b.x < a.x + a.w
    &&& a.y < b.y + b.h
    &&& b.y < a.y + a.h
}

/// The common region of two overlapping rectangles. Meaningful only when
/// `overlaps(a, b)` holds.
pub open spec fn common_region(a: IRect, b: IRect) -> IRect {
    let x = if a.x >= b.x { a.x } else { b.x };
    let y = if a.y >= b.y { a.y } else { b.y };
    let r = if a.x + a.w <= b.x + b.w { a.x + a.w } else { b.x + b.w };
    let d = if a.y + a.h <= b.y + b.h { a.y + a.h } else { b.y + b.h };
    IRect { x, y, w: r - x, h: d - y }
}

/// Does `v` fit in an `i32`? The side condition every coordinate mutation
/// carries.
pub open spec fn fits_i32(v: int) -> bool {
    i32::MIN <= v <= i32::MAX
}

/// The blocking test of the composite hitbox: `r`, translated by
/// `(dx, dy)`, blocks the candidate `c` when the two overlap and their
/// common region is not `c` itself. A candidate lying entirely inside the
/// translated rectangle is deliberately not blocked.
pub open spec fn blocks(r: IRect, dx: int, dy: int, c: IRect) -> bool {
    overlaps(shifted(r, dx, dy), c) && common_region(shifted(r, dx, dy), c) != c
}

/// Does `a`, translated by `(dx, dy)`, overlap `b`? Computed in wide
/// arithmetic, so any translation is admissible.
pub fn overlaps_shifted(a: &Rect, dx: i32, dy: i32, b: &Rect) -> (r: bool)
    ensures
        r == overlaps(shifted(a@, dx as int, dy as int), b@),
{
    let ax: i64 = a.x as i64 + dx as i64;
    let ay: i64 = a.y as i64 + dy as i64;
    let bx: i64 = b.x as i64;
    let by: i64 = b.y as i64;
    a.w > 0 && a.h > 0 && b.w > 0 && b.h > 0 && ax < bx + b.w as i64 && bx < ax + a.w as i64 && ay
        < by + b.h as i64 && by < ay + a.h as i64
}

/// Does `a`, translated by `(dx, dy)`, block the candidate `c` in the sense
/// of `blocks`?
pub fn blocks_shifted(a: &Rect, dx: i32, dy: i32, c: &Rect) -> (r: bool)
    ensures
        r == blocks(a@, dx as int, dy as int, c@),
{
    if !overlaps_shifted(a, dx, dy, c) {
        return false;
    }
    let ax: i64 = a.x as i64 + dx as i64;
    let ay: i64 = a.y as i64 + dy as i64;
    let cx: i64 = c.x as i64;
    let cy: i64 = c.y as i64;
    let x: i64 = if ax >= cx { ax } else { cx };
    let y: i64 = if ay >= cy { ay } else { cy };
    let right: i64 = if ax + a.w as i64 <= cx + c.w as i64 { ax + a.w as i64 } else { cx + c.w as i64 };
    let down: i64 = if ay + a.h as i64 <= cy + c.h as i64 { ay + a.h as i64 } else { cy + c.h as i64 };
    let same: bool = x == cx && y == cy && right - x == c.w as i64 && down - y == c.h as i64;
    !same
}

impl Rect {
    pub fn new(x: i32, y: i32, w: u32, h: u32) -> (r: Rect)
        ensures
            r == (Rect { x, y, w, h }),
    {
        Rect { x, y, w, h }
    }

    /// Do `self` and `other` share interior points?
    pub fn has_intersection(&self, other: &Rect) -> (r: bool)
        ensures
            r == overlaps(self@, other@),
    {
        let ax: i64 = self.x as i64;
        let ay: i64 = self.y as i64;
        let bx: i64 = other.x as i64;
        let by: i64 = other.y as i64;
        self.w > 0 && self.h > 0 && other.w > 0 && other.h > 0
            && ax < bx + other.w as i64 && bx < ax + self.w as i64
            && ay < by + other.h as i64 && by < ay + self.h as i64
    }

    /// The common region of `self` and `other`, or `None` when they do not
    /// overlap.
    pub fn intersection(&self, other: &Rect) -> (r: Option<Rect>)
        ensures
            overlaps(self@, other@) ==> (r matches Some(i) && i@ == common_region(self@, other@)),
            !overlaps(self@, other@) ==> r is None,
    {
        if !self.has_intersection(other) {
            return None;
        }
        let x: i32 = if self.x >= other.x { self.x } else { other.x };
        let y: i32 = if self.y >= other.y { self.y } else { other.y };
        let ar: i64 = self.x as i64 + self.w as i64;
        let br: i64 = other.x as i64 + other.w as i64;
        let ad: i64 = self.y as i64 + self.h as i64;
        let bd: i64 = other.y as i64 + other.h as i64;
        let right: i64 = if ar <= br { ar } else { br };
        let down: i64 = if ad <= bd { ad } else { bd };
        let w: u32 = (right - x as i64) as u32;
        let h: u32 = (down - y as i64) as u32;
        Some(Rect { x, y, w, h })
    }
}

} // verus!

//! Interaction zones: static world-anchored rectangles the player can
//! trigger by standing in them and pressing the designated key. The zone's
//! rectangle is anchored once, from a map-local rectangle plus the map's
//! destination origin; the callback tied to a zone lives with the caller,
//! addressed by the zone's index.
use vstd::prelude::*;

use crate::rect::{fits_i32, overlaps, shifted, Rect};

verus! {

/// A world-anchored trigger rectangle.
pub struct Interactable {
    pub hitbox: Rect,
}

impl Interactable {
    /// Anchor a map-local rectangle to the map's destination origin.
    pub fn new(hitbox: Rect, map_dst: Rect) -> (r: Interactable)
        requires
            fits_i32(map_dst.x + hitbox.x),
            fits_i32(map_dst.y + hitbox.y),
        ensures
            r.hitbox == (Rect {
                x: (map_dst.x + hitbox.x) as i32,
                y: (map_dst.y + hitbox.y) as i32,
                w: hitbox.w,
                h: hitbox.h,
            }),
    {
        let hitbox = Rect::new(
            map_dst.x + hitbox.x,
            map_dst.y + hitbox.y,
            hitbox.w,
            hitbox.h,
        );
        Interactable { hitbox }
    }

    /// Does the given hitbox stand in this zone once the world offset is
    /// applied to the zone?
    pub fn check(&self, world_x: i32, world_y: i32, hitbox: Rect) -> (r: bool)
        ensures
            r == overlaps(
                shifted(self.hitbox@, world_x as int, world_y as int),
                hitbox@,
            ),
    {
        crate::rect::overlaps_shifted(&self.hitbox, world_x, world_y, &hitbox)
    }
}

} // verus!

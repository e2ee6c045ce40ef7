//! A composite collision shape for static geometry: a base entity plus a
//! set of extra rectangles. Each extra rectangle is given entity-local
//! ("ideal") and is anchored ("real") to the base entity's destination at
//! the moment it is added; the real copies are not recomputed if the base
//! later moves, since the map is assumed static.
use vstd::prelude::*;

use crate::entity::Entity;
use crate::rect::{blocks, fits_i32, IRect, Rect};

verus! {

/// A base entity with extra world-anchored collision rectangles.
pub struct ComplexHitbox {
    pub base: Entity,
    /// Entity-local rectangles, as handed in.
    pub ideal: Vec<Rect>,
    /// World-anchored rectangles: each ideal one translated by the base
    /// destination origin at the time it was added, after the base
    /// entity's own hitbox, which is always the first entry.
    pub real: Vec<Rect>,
}

/// Does any rectangle of `rs`, translated by the world offset, block the
/// candidate in the sense of `blocks`?
pub open spec fn collides_any(rs: Seq<Rect>, wx: int, wy: int, c: IRect) -> bool {
    exists|i: int| 0 <= i < rs.len() && blocks(rs[i]@, wx, wy, c)
}

impl ComplexHitbox {
    /// Wrap a base entity; its own hitbox is the first real rectangle.
    pub fn new(base: Entity) -> (c: ComplexHitbox)
        ensures
            c.base == base,
            c.ideal@ == Seq::<Rect>::empty(),
            c.real@ == seq![base.hitbox],
    {
        let base_hitbox = base.hitbox;
        let c = ComplexHitbox { base, ideal: Vec::new(), real: vec![base_hitbox] };
        proof {
            assert(c.real@ =~= seq![base_hitbox]);
        }
        c
    }

    /// The world-anchored copy of an entity-local rectangle: translated by
    /// the base entity's current destination origin.
    pub fn create_real(&self, hitbox: Rect) -> (r: Rect)
        requires
            fits_i32(self.base.dst.x + hitbox.x),
            fits_i32(self.base.dst.y + hitbox.y),
        ensures
            r == (Rect {
                x: (self.base.dst.x + hitbox.x) as i32,
                y: (self.base.dst.y + hitbox.y) as i32,
                w: hitbox.w,
                h: hitbox.h,
            }),
    {
        Rect::new(
            self.base.dst.x + hitbox.x,
            self.base.dst.y + hitbox.y,
            hitbox.w,
            hitbox.h,
        )
    }

    /// Add one entity-local rectangle, anchoring its real copy to the
    /// current base destination.
    pub fn add_hitbox(&mut self, ideal: Rect)
        requires
            fits_i32(old(self).base.dst.x + ideal.x),
            fits_i32(old(self).base.dst.y + ideal.y),
        ensures
            final(self).base == old(self).base,
            final(self).ideal@ == old(self).ideal@.push(ideal),
            final(self).real@ == old(self).real@.push(
                Rect {
                    x: (old(self).base.dst.x + ideal.x) as i32,
                    y: (old(self).base.dst.y + ideal.y) as i32,
                    w: ideal.w,
                    h: ideal.h,
                },
            ),
    {
        let anchored = self.create_real(ideal);
        self.real.push(anchored);
        self.ideal.push(ideal);
    }

    /// Add several entity-local rectangles, in order.
    pub fn add_hitboxes(&mut self, ideals: Vec<Rect>)
        requires
            forall|i: int|
                0 <= i < ideals@.len() ==> fits_i32(
                    old(self).base.dst.x + (#[trigger] ideals@[i]).x,
                ) && fits_i32(old(self).base.dst.y + ideals@[i].y),
        ensures
            final(self).base == old(self).base,
            final(self).ideal@ == old(self).ideal@ + ideals@,
            final(self).real@ == old(self).real@ + ideals@.map_values(
                |r: Rect| Rect {
                    x: (old(self).base.dst.x + r.x) as i32,
                    y: (old(self).base.dst.y + r.y) as i32,
                    w: r.w,
                    h: r.h,
                },
            ),
    {
        let ghost anchored = ideals@.map_values(
            |r: Rect| Rect {
                x: (self.base.dst.x + r.x) as i32,
                y: (self.base.dst.y + r.y) as i32,
                w: r.w,
                h: r.h,
            },
        );
        let mut i: usize = 0;
        while i < ideals.len()
            invariant
                i <= ideals@.len(),
                self.base == old(self).base,
                self.ideal@ == old(self).ideal@ + ideals@.take(i as int),
                self.real@ == old(self).real@ + anchored.take(i as int),
                anchored == ideals@.map_values(
                    |r: Rect| Rect {
                        x: (old(self).base.dst.x + r.x) as i32,
                        y: (old(self).base.dst.y + r.y) as i32,
                        w: r.w,
                        h: r.h,
                    },
                ),
                forall|j: int|
                    0 <= j < ideals@.len() ==> fits_i32(
                        old(self).base.dst.x + (#[trigger] ideals@[j]).x,
                    ) && fits_i32(old(self).base.dst.y + ideals@[j].y),
            decreases ideals@.len() - i,
        {
            let ideal = ideals[i];
            self.add_hitbox(ideal);
            proof {
                assert(self.ideal@ =~= old(self).ideal@ + ideals@.take(i + 1));
                assert(self.real@ =~= old(self).real@ + anchored.take(i + 1));
            }
            i = i + 1;
        }
        proof {
            assert(ideals@.take(ideals@.len() as int) =~= ideals@);
            assert(anchored.take(ideals@.len() as int) =~= anchored);
        }
    }

    /// Does the candidate collide with any stored rectangle once the world
    /// offset is applied? A stored rectangle blocks only when the common
    /// region differs from the candidate itself, so a candidate lying
    /// entirely inside a stored rectangle does not collide.
    pub fn collide_all(&self, other: Rect, world_x: i32, world_y: i32) -> (r: bool)
        ensures
            r == collides_any(self.real@, world_x as int, world_y as int, other@),
    {
        let mut i: usize = 0;
        while i < self.real.len()
            invariant
                i <= self.real@.len(),
                forall|j: int|
                    0 <= j < i ==> !blocks(
                        (#[trigger] self.real@[j])@,
                        world_x as int,
                        world_y as int,
                        other@,
                    ),
            decreases self.real@.len() - i,
        {
            if crate::rect::blocks_shifted(&self.real[i], world_x, world_y, &other) {
                return true;
            }
            i = i + 1;
        }
        false
    }
}

/// A candidate rectangle strictly outside every stored rectangle never
/// collides: when no translated stored rectangle overlaps it, `collide_all`
/// is false.
pub proof fn lemma_outside_never_collides(c: ComplexHitbox, other: Rect, wx: int, wy: int)
    requires
        forall|i: int|
            0 <= i < c.real@.len() ==> !crate::rect::overlaps(
                crate::rect::shifted((#[trigger] c.real@[i])@, wx, wy),
                other@,
            ),
    ensures
        !collides_any(c.real@, wx, wy, other@),
{
}

/// A stored rectangle that, once translated, coincides exactly with the
/// candidate does not count as a collision: the common region of equal
/// rectangles is the candidate itself.
pub proof fn lemma_equal_rect_no_collision(r: Rect, wx: int, wy: int, other: Rect)
    requires
        crate::rect::shifted(r@, wx, wy) == other@,
    ensures
        !blocks(r@, wx, wy, other@),
{
}

} // verus!

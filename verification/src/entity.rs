//! An animated, positioned, sized game object. An entity owns a list of
//! animations indexed by slot, an active slot and the previously active
//! slot, a destination rectangle on screen and a hitbox for collision. The
//! destination keeps logical position (0, 0) centered in the viewport, so
//! world scrolling can be simulated by moving a world offset instead of
//! every entity.
use vstd::prelude::*;

use crate::animation::Animation;
use crate::rect::{fits_i32, overlaps, shifted, IRect, Rect};

verus! {

/// `d / 2` rounded toward zero, the way machine division of a signed
/// difference rounds.
pub open spec fn half_toward_zero(d: int) -> int {
    if d >= 0 {
        d / 2
    } else {
        -((-d) / 2)
    }
}

/// One blit request: copy `src` from the sheet `sheet` onto the screen at
/// `dst`. The rendering side executes these; the library only computes
/// them.
#[derive(Clone, Copy, PartialEq, Eq, Structural, Debug)]
pub struct Blit {
    pub sheet: u32,
    pub src: Rect,
    pub dst: Rect,
}

/// An animated game object with a screen placement and a hitbox.
pub struct Entity {
    /// Position in the world's coordinate system.
    pub x: i32,
    pub y: i32,
    /// Logical size.
    pub w: u32,
    pub h: u32,
    /// Index of the active animation slot.
    pub active: usize,
    /// Index of the previously active slot; a finished one-shot animation
    /// hands control back to it.
    pub last: usize,
    /// The animation slots.
    pub animations: Vec<Animation>,
    /// Screen placement, recomputed from position, size and the
    /// viewport-centering offset.
    pub dst: Rect,
    /// Draw-order bucket; higher draws later.
    pub z_index: u8,
    /// Collision rectangle, world-anchored; independent of visual bounds.
    pub hitbox: Rect,
    /// Viewport size used for centering.
    pub vp_w: u32,
    pub vp_h: u32,
}

/// Where the destination rectangle belongs for an entity's current
/// position and size: the viewport-centering offset plus the position.
pub open spec fn spec_dst(e: Entity) -> IRect {
    IRect {
        x: half_toward_zero(e.vp_w - e.w) + e.x,
        y: half_toward_zero(e.vp_h - e.h) + e.y,
        w: e.w as int,
        h: e.h as int,
    }
}

/// The fields `switch_to` may touch are the slot indices; everything else
/// is unchanged.
pub open spec fn spec_switch_to(e: Entity, num: usize) -> Entity {
    if num < e.animations@.len() && num != e.active && e.animations@[e.active as int].interruptable {
        Entity { last: e.active, active: num, ..e }
    } else {
        e
    }
}

/// How `play` relates the state before to the state after: an optional
/// switch under the interruption rule, then the then-active animation is
/// set running; nothing else changes.
pub open spec fn entity_play_rel(pre: Entity, post: Entity, num: Option<usize>) -> bool {
    let e1 = match num {
        Some(x) => spec_switch_to(pre, x),
        None => pre,
    };
    &&& post.active == e1.active
    &&& post.last == e1.last
    &&& post.animations@ == e1.animations@.update(
        e1.active as int,
        Animation { ongoing: true, ..e1.animations@[e1.active as int] },
    )
    &&& post == (Entity {
        active: post.active,
        last: post.last,
        animations: post.animations,
        ..pre
    })
}

/// The entity moved by `(dx, dy)`: position and hitbox shifted together,
/// destination recomputed, everything else as it was. The casts are exact
/// whenever the moved coordinates fit in their fields.
pub open spec fn offset_entity(pre: Entity, dx: int, dy: int) -> Entity {
    let e1 = Entity {
        x: (pre.x + dx) as i32,
        y: (pre.y + dy) as i32,
        hitbox: Rect {
            x: (pre.hitbox.x + dx) as i32,
            y: (pre.hitbox.y + dy) as i32,
            ..pre.hitbox
        },
        ..pre
    };
    Entity {
        dst: Rect {
            x: spec_dst(e1).x as i32,
            y: spec_dst(e1).y as i32,
            w: e1.w,
            h: e1.h,
        },
        ..e1
    }
}

/// Every coordinate the entity touches when moving up to `s` pixels along
/// either axis stays within `i32`.
pub open spec fn offsets_fit(e: Entity, s: int) -> bool {
    &&& fits_i32(e.x - s) && fits_i32(e.x + s)
    &&& fits_i32(e.y - s) && fits_i32(e.y + s)
    &&& fits_i32(e.hitbox.x - s) && fits_i32(e.hitbox.x + s)
    &&& fits_i32(e.hitbox.y - s) && fits_i32(e.hitbox.y + s)
    &&& fits_i32(half_toward_zero(e.vp_w - e.w) + e.x - s)
    &&& fits_i32(half_toward_zero(e.vp_w - e.w) + e.x + s)
    &&& fits_i32(half_toward_zero(e.vp_w - e.w) + e.x)
    &&& fits_i32(half_toward_zero(e.vp_h - e.h) + e.y - s)
    &&& fits_i32(half_toward_zero(e.vp_h - e.h) + e.y + s)
    &&& fits_i32(half_toward_zero(e.vp_h - e.h) + e.y)
}

/// The blit an entity asks for under a world offset `(wx, wy)`: its active
/// animation's current source rectangle, drawn onto its destination
/// translated by the offset. Exact whenever the translated coordinates fit.
pub open spec fn spec_blit(e: Entity, wx: int, wy: int) -> Blit {
    let anim = e.animations@[e.active as int];
    let src = anim.spec_src();
    Blit {
        sheet: anim.sheet,
        src: Rect { x: src.x as i32, y: src.y as i32, w: src.w as u32, h: src.h as u32 },
        dst: Rect { x: (e.dst.x + wx) as i32, y: (e.dst.y + wy) as i32, w: e.dst.w, h: e.dst.h },
    }
}

/// How one entity tick relates the state before to the state after: the
/// active animation is ticked, and if it reported finished the active slot
/// falls back to the previous one.
pub open spec fn entity_next_rel(pre: Entity, post: Entity, now: u64) -> bool {
    let anim = pre.animations@[pre.active as int];
    &&& post.animations@ == pre.animations@.update(pre.active as int, anim.stepped(now))
    &&& post.active == if anim.step_finished(now) {
        pre.last
    } else {
        pre.active
    }
    &&& post.last == pre.last
    &&& post.x == pre.x
    &&& post.y == pre.y
    &&& post.w == pre.w
    &&& post.h == pre.h
    &&& post.dst == pre.dst
    &&& post.hitbox == pre.hitbox
    &&& post.z_index == pre.z_index
    &&& post.vp_w == pre.vp_w
    &&& post.vp_h == pre.vp_h
}

impl Entity {
    /// The structural invariant: both slot indices valid, every animation
    /// well formed.
    pub open spec fn wf(self) -> bool {
        &&& self.active < self.animations@.len()
        &&& self.last < self.animations@.len()
        &&& forall|i: int|
            0 <= i < self.animations@.len() ==> (#[trigger] self.animations@[i]).wf()
    }

    /// Build an entity from its base animation at world position `(x, y)`
    /// inside a viewport. Size starts at one sheet cell of the base
    /// animation; destination and hitbox start at the raw position,
    /// uncentered, until the first geometry recomputation.
    pub fn from(base: Animation, x: i32, y: i32, vp_w: u32, vp_h: u32) -> (e: Entity)
        requires
            base.wf(),
        ensures
            e.wf(),
            e.x == x,
            e.y == y,
            e.w == base.sheet_w as int / base.cols as int,
            e.h == base.sheet_h as int / base.rows as int,
            e.active == 0,
            e.last == 0,
            e.animations@ == seq![base],
            e.dst == (Rect { x, y, w: e.w, h: e.h }),
            e.hitbox == e.dst,
            e.z_index == 0,
            e.vp_w == vp_w,
            e.vp_h == vp_h,
    {
        let (unit_w, unit_h) = base.get_units();
        let dst = Rect::new(x, y, unit_w, unit_h);
        let mut animations: Vec<Animation> = Vec::new();
        animations.push(base);
        proof {
            assert(animations@ =~= seq![animations@[0]]);
        }
        Entity {
            x,
            y,
            w: unit_w,
            h: unit_h,
            active: 0,
            last: 0,
            animations,
            dst,
            z_index: 0,
            hitbox: dst,
            vp_w,
            vp_h,
        }
    }

    /// Recompute the destination rectangle from position, size and the
    /// centering offset.
    pub fn dst(&mut self)
        requires
            fits_i32(spec_dst(*old(self)).x),
            fits_i32(spec_dst(*old(self)).y),
        ensures
            *final(self) == (Entity { dst: final(self).dst, ..*old(self) }),
            final(self).dst@ == spec_dst(*old(self)),
    {
        let x: i64 = half_diff(self.vp_w, self.w) + self.x as i64;
        let y: i64 = half_diff(self.vp_h, self.h) + self.y as i64;
        self.dst = Rect::new(x as i32, y as i32, self.w, self.h);
    }

    /// Move the entity by `value` along the x axis: position and hitbox
    /// shift together and the destination is recomputed.
    pub fn offset_x(&mut self, value: i32)
        requires
            fits_i32(old(self).x + value),
            fits_i32(old(self).hitbox.x + value),
            fits_i32(half_toward_zero(old(self).vp_w - old(self).w) + old(self).x + value),
            fits_i32(half_toward_zero(old(self).vp_h - old(self).h) + old(self).y),
        ensures
            *final(self) == (Entity {
                x: final(self).x,
                dst: final(self).dst,
                hitbox: final(self).hitbox,
                ..*old(self)
            }),
            final(self).x == old(self).x + value,
            final(self).hitbox == (Rect { x: (old(self).hitbox.x + value) as i32, ..old(self).hitbox }),
            final(self).dst@ == spec_dst(*final(self)),
            *final(self) == offset_entity(*old(self), value as int, 0),
    {
        self.x = self.x + value;
        self.hitbox.x = self.hitbox.x + value;
        self.dst();
    }

    /// Move the entity by `value` along the y axis: position and hitbox
    /// shift together and the destination is recomputed.
    pub fn offset_y(&mut self, value: i32)
        requires
            fits_i32(old(self).y + value),
            fits_i32(old(self).hitbox.y + value),
            fits_i32(half_toward_zero(old(self).vp_w - old(self).w) + old(self).x),
            fits_i32(half_toward_zero(old(self).vp_h - old(self).h) + old(self).y + value),
        ensures
            *final(self) == (Entity {
                y: final(self).y,
                dst: final(self).dst,
                hitbox: final(self).hitbox,
                ..*old(self)
            }),
            final(self).y == old(self).y + value,
            final(self).hitbox == (Rect { y: (old(self).hitbox.y + value) as i32, ..old(self).hitbox }),
            final(self).dst@ == spec_dst(*final(self)),
            *final(self) == offset_entity(*old(self), 0, value as int),
    {
        self.y = self.y + value;
        self.hitbox.y = self.hitbox.y + value;
        self.dst();
    }

    /// Scale width by the ratio `num / den`, truncating; the hitbox width
    /// scales along, and the destination is recomputed.
    pub fn mult_w(&mut self, num: u32, den: u32)
        requires
            den >= 1,
            old(self).w * num / den as int <= u32::MAX,
            old(self).hitbox.w * num / den as int <= u32::MAX,
            fits_i32(
                half_toward_zero(old(self).vp_w - old(self).w * num / den as int) + old(self).x,
            ),
            fits_i32(half_toward_zero(old(self).vp_h - old(self).h) + old(self).y),
        ensures
            *final(self) == (Entity {
                w: final(self).w,
                dst: final(self).dst,
                hitbox: final(self).hitbox,
                ..*old(self)
            }),
            final(self).w == old(self).w * num / den as int,
            final(self).hitbox == (Rect {
                w: (old(self).hitbox.w * num / den as int) as u32,
                ..old(self).hitbox
            }),
            final(self).dst@ == spec_dst(*final(self)),
    {
        self.w = scale_trunc(self.w, num, den) as u32;
        self.hitbox.w = scale_trunc(self.hitbox.w, num, den) as u32;
        self.dst();
    }

    /// Scale height by the ratio `num / den`, truncating; the hitbox height
    /// scales along, and the destination is recomputed.
    pub fn mult_h(&mut self, num: u32, den: u32)
        requires
            den >= 1,
            old(self).h * num / den as int <= u32::MAX,
            old(self).hitbox.h * num / den as int <= u32::MAX,
            fits_i32(half_toward_zero(old(self).vp_w - old(self).w) + old(self).x),
            fits_i32(
                half_toward_zero(old(self).vp_h - old(self).h * num / den as int) + old(self).y,
            ),
        ensures
            *final(self) == (Entity {
                h: final(self).h,
                dst: final(self).dst,
                hitbox: final(self).hitbox,
                ..*old(self)
            }),
            final(self).h == old(self).h * num / den as int,
            final(self).hitbox == (Rect {
                h: (old(self).hitbox.h * num / den as int) as u32,
                ..old(self).hitbox
            }),
            final(self).dst@ == spec_dst(*final(self)),
    {
        self.h = scale_trunc(self.h, num, den) as u32;
        self.hitbox.h = scale_trunc(self.hitbox.h, num, den) as u32;
        self.dst();
    }

    /// Put the entity's position at the viewport center for its size, and
    /// move the destination origin there directly, leaving the rest of the
    /// destination untouched.
    pub fn center(&mut self)
        ensures
            *final(self) == (Entity {
                x: final(self).x,
                y: final(self).y,
                dst: final(self).dst,
                ..*old(self)
            }),
            final(self).x == half_toward_zero(old(self).vp_w - old(self).w),
            final(self).y == half_toward_zero(old(self).vp_h - old(self).h),
            final(self).dst == (Rect {
                x: final(self).x,
                y: final(self).y,
                ..old(self).dst
            }),
    {
        let x: i64 = half_diff(self.vp_w, self.w);
        let y: i64 = half_diff(self.vp_h, self.h);
        self.x = x as i32;
        self.y = y as i32;
        self.dst.x = self.x;
        self.dst.y = self.y;
    }

    /// Bake an entity-local rectangle into a world-anchored hitbox: the
    /// current destination origin plus the local offset. Later size changes
    /// do not re-derive it; position offsets move it along.
    pub fn gen_hitbox(&mut self, hitbox: Rect)
        requires
            fits_i32(old(self).dst.x + hitbox.x),
            fits_i32(old(self).dst.y + hitbox.y),
        ensures
            *final(self) == (Entity { hitbox: final(self).hitbox, ..*old(self) }),
            final(self).hitbox == (Rect {
                x: (old(self).dst.x + hitbox.x) as i32,
                y: (old(self).dst.y + hitbox.y) as i32,
                w: hitbox.w,
                h: hitbox.h,
            }),
    {
        self.hitbox = Rect::new(self.dst.x + hitbox.x, self.dst.y + hitbox.y, hitbox.w, hitbox.h);
    }

    /// Make slot `num` active, remembering the current slot, unless the
    /// active animation refuses interruption or `num` is out of range or
    /// already active. A refused request changes nothing.
    pub fn switch_to(&mut self, num: usize)
        requires
            old(self).wf(),
        ensures
            *final(self) == spec_switch_to(*old(self), num),
            final(self).wf(),
    {
        if num < self.animations.len() && self.active != num
            && self.animations[self.active].interruptable {
            self.last = self.active;
            self.active = num;
        }
    }

    /// Switch to `num` if given (under `switch_to`'s interruption rule) and
    /// set the then-active animation running.
    pub fn play(&mut self, num: Option<usize>)
        requires
            old(self).wf(),
        ensures
            entity_play_rel(*old(self), *final(self), num),
            final(self).wf(),
    {
        match num {
            Some(x) => self.switch_to(x),
            None => (),
        }
        let a = self.active;
        let anim = &mut self.animations[a];
        anim.ongoing = true;
    }

    /// Make slot `num` active unconditionally, without remembering the
    /// current slot.
    pub fn force_switch(&mut self, num: usize)
        requires
            num < old(self).animations@.len(),
        ensures
            *final(self) == (Entity { active: num, ..*old(self) }),
    {
        self.active = num;
    }

    /// One tick: advance the active animation; when it reports finished,
    /// fall back to the previously active slot.
    pub fn next(&mut self, now: u64)
        requires
            old(self).wf(),
        ensures
            entity_next_rel(*old(self), *final(self), now),
            final(self).wf(),
    {
        let a = self.active;
        let anim = &mut self.animations[a];
        let finished = anim.next(now);
        if finished {
            self.active = self.last;
        }
    }

    /// The blit this entity asks for under a world offset: the active
    /// animation's current source rectangle onto the translated
    /// destination.
    pub fn blit(&self, world_x: i32, world_y: i32) -> (b: Blit)
        requires
            self.wf(),
            fits_i32(self.dst.x + world_x),
            fits_i32(self.dst.y + world_y),
        ensures
            b == spec_blit(*self, world_x as int, world_y as int),
    {
        let anim = &self.animations[self.active];
        let src = anim.get_src();
        Blit {
            sheet: anim.sheet,
            src,
            dst: Rect::new(self.dst.x + world_x, self.dst.y + world_y, self.dst.w, self.dst.h),
        }
    }

    /// Would this entity, translated by the world offset `(x, y)`, leave the
    /// candidate hitbox untouched? False exactly when the two overlap.
    pub fn check_move(&self, x: i32, y: i32, hitbox: Rect) -> (r: bool)
        ensures
            r == !overlaps(shifted(self.hitbox@, x as int, y as int), hitbox@),
    {
        !crate::rect::overlaps_shifted(&self.hitbox, x, y, &hitbox)
    }

    /// Do the two entities' hitboxes overlap?
    pub fn collide(&self, other: &Entity) -> (r: bool)
        ensures
            r == overlaps(self.hitbox@, other.hitbox@),
    {
        self.hitbox.has_intersection(&other.hitbox)
    }
}

/// The two entities agree field for field, animations compared by
/// `anim_eq`.
pub open spec fn entity_eq(a: Entity, b: Entity) -> bool {
    &&& a.x == b.x
    &&& a.y == b.y
    &&& a.w == b.w
    &&& a.h == b.h
    &&& a.active == b.active
    &&& a.last == b.last
    &&& a.animations@.len() == b.animations@.len()
    &&& forall|i: int|
        0 <= i < a.animations@.len() ==> crate::animation::anim_eq(
            #[trigger] a.animations@[i],
            b.animations@[i],
        )
    &&& a.dst == b.dst
    &&& a.z_index == b.z_index
    &&& a.hitbox == b.hitbox
    &&& a.vp_w == b.vp_w
    &&& a.vp_h == b.vp_h
}

impl Clone for Entity {
    /// A faithful copy; every animation is copied, sheet handles shared.
    fn clone(&self) -> (r: Entity)
        ensures
            entity_eq(r, *self),
    {
        let mut animations: Vec<Animation> = Vec::new();
        let mut i: usize = 0;
        while i < self.animations.len()
            invariant
                i <= self.animations@.len(),
                animations@.len() == i,
                forall|j: int|
                    0 <= j < i ==> crate::animation::anim_eq(
                        #[trigger] animations@[j],
                        self.animations@[j],
                    ),
            decreases self.animations@.len() - i,
        {
            animations.push(self.animations[i].clone());
            i = i + 1;
        }
        Entity {
            x: self.x,
            y: self.y,
            w: self.w,
            h: self.h,
            active: self.active,
            last: self.last,
            animations,
            dst: self.dst,
            z_index: self.z_index,
            hitbox: self.hitbox,
            vp_w: self.vp_w,
            vp_h: self.vp_h,
        }
    }
}

/// `v * num / den`, truncating, in wide arithmetic.
fn scale_trunc(v: u32, num: u32, den: u32) -> (r: u64)
    requires
        den >= 1,
    ensures
        r == v * num / den as int,
{
    proof {
        assert(v as int * num as int <= u32::MAX as int * u32::MAX as int) by (nonlinear_arith)
            requires
                v <= u32::MAX,
                num <= u32::MAX,
        ;
    }
    v as u64 * num as u64 / den as u64
}

/// `(vp - s) / 2` rounded toward zero, in wide arithmetic.
fn half_diff(vp: u32, s: u32) -> (r: i64)
    ensures
        r == half_toward_zero(vp - s),
{
    let d: i64 = vp as i64 - s as i64;
    if d >= 0 {
        (d as u64 / 2) as i64
    } else {
        -(((-d) as u64 / 2) as i64)
    }
}

/// Switching away from an interruptable animation and letting the new,
/// one-shot animation finish restores the previously active slot exactly:
/// the slot that was active before the switch is active again after the
/// finishing tick.
pub proof fn lemma_switch_finish_round_trip(e: Entity, num: usize, e2: Entity, now: u64)
    requires
        e.wf(),
        num < e.animations@.len(),
        num != e.active,
        e.animations@[e.active as int].interruptable,
        entity_next_rel(spec_switch_to(e, num), e2, now),
        spec_switch_to(e, num).animations@[num as int].step_finished(now),
    ensures
        e2.active == e.active,
{
}

} // verus!

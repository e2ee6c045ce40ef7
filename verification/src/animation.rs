//! Sprite-sheet animation playback: an ordered sequence of frame coordinates
//! advanced by a timer. One-shot animations halt on their last frame and
//! report completion exactly once per due tick thereafter; looping ones cycle
//! forever and never report completion.
use vstd::prelude::*;

use crate::rect::{IRect, Rect};

verus! {

/// One frame of an animation: a grid cell on the sheet, or an explicit
/// override rectangle that replaces the computed cell.
#[derive(Clone, Copy, PartialEq, Eq, Debug)]
pub struct Frame {
    pub col: u8,
    pub row: u8,
    pub over: Option<Rect>,
}

/// Does the frame point inside an `rows` by `cols` sheet grid?
pub open spec fn frame_in_grid(f: Frame, rows: u8, cols: u8) -> bool {
    f.col < cols && f.row < rows
}

/// A timed walk over a sheet's frames. `sheet` is an opaque handle the
/// rendering side maps back to the loaded image; the library itself only
/// needs the sheet's pixel size to carve out source rectangles.
pub struct Animation {
    /// Handle of the sheet image, meaningful only to the rendering side.
    pub sheet: u32,
    /// Pixel size of the sheet image.
    pub sheet_w: u32,
    pub sheet_h: u32,
    /// Grid layout of the sheet: frames are cells of this grid.
    pub rows: u8,
    pub cols: u8,
    /// The frame currently shown.
    pub current_frame: Frame,
    /// Index of the frame currently shown.
    pub current: usize,
    /// The frame sequence, walked in order.
    pub frames: Vec<Frame>,
    /// Index of the last frame: `frames.len() - 1`.
    pub total: usize,
    /// Is the timer advancing? A finished one-shot animation has this false.
    pub ongoing: bool,
    /// Milliseconds that must elapse between frame advances.
    pub dur: u64,
    /// Timestamp (ms) of the last advance.
    pub elapse: u64,
    /// May another animation preempt this one while it plays?
    pub interruptable: bool,
    /// Wrap to frame 0 at the end, instead of halting?
    pub looped: bool,
    /// May the owning entity move while this plays?
    pub movable: bool,
}

impl Animation {
    /// The structural invariant: a non-empty frame sequence, a valid current
    /// index, a non-degenerate grid, and every frame inside the grid. Sheet
    /// sizes stay within `i32` so source rectangles can be addressed.
    pub open spec fn wf(self) -> bool {
        &&& self.frames@.len() >= 1
        &&& self.total == self.frames@.len() - 1
        &&& self.current <= self.total
        &&& self.rows >= 1
        &&& self.cols >= 1
        &&& self.sheet_w <= i32::MAX
        &&& self.sheet_h <= i32::MAX
        &&& frame_in_grid(self.current_frame, self.rows, self.cols)
        &&& forall|i: int|
            0 <= i < self.frames@.len() ==> frame_in_grid(
                #[trigger] self.frames@[i],
                self.rows,
                self.cols,
            )
    }

    /// Has enough time passed since the last advance for a tick at `now` to
    /// take effect?
    pub open spec fn due(self, now: u64) -> bool {
        now >= self.elapse + self.dur
    }

    /// The state after one tick at time `now`. A tick before the frame is
    /// due changes nothing; a tick of a halted animation changes nothing; a
    /// due tick on the last frame wraps (looping) or halts in place
    /// (one-shot); any other due tick advances one frame.
    pub open spec fn stepped(self, now: u64) -> Animation {
        if !self.due(now) {
            self
        } else if !self.ongoing {
            self
        } else if self.current == self.total {
            if !self.looped {
                Animation { ongoing: false, ..self }
            } else {
                Animation { current: 0, current_frame: self.frames@[0], elapse: now, ..self }
            }
        } else {
            Animation {
                current: (self.current + 1) as usize,
                current_frame: self.frames@[self.current + 1],
                elapse: now,
                ..self
            }
        }
    }

    /// Does a tick at `now` report the animation as finished? True exactly
    /// for a due tick of an already-halted animation or of a one-shot on its
    /// last frame.
    pub open spec fn step_finished(self, now: u64) -> bool {
        self.due(now) && (!self.ongoing || (self.current == self.total && !self.looped))
    }

    /// Build an animation over a `rows` by `cols` sheet from grid
    /// coordinates. Defaults: 100 ms per frame, looping, interruptable,
    /// movable, running since `now`.
    pub fn new(
        sheet: u32,
        sheet_w: u32,
        sheet_h: u32,
        rows: u8,
        cols: u8,
        frames: Vec<(u8, u8)>,
        now: u64,
    ) -> (a: Animation)
        requires
            frames@.len() >= 1,
            rows >= 1,
            cols >= 1,
            sheet_w <= i32::MAX,
            sheet_h <= i32::MAX,
            forall|i: int|
                0 <= i < frames@.len() ==> (#[trigger] frames@[i]).0 < cols && frames@[i].1 < rows,
        ensures
            a.wf(),
            a.sheet == sheet,
            a.sheet_w == sheet_w,
            a.sheet_h == sheet_h,
            a.rows == rows,
            a.cols == cols,
            a.frames@.len() == frames@.len(),
            forall|i: int|
                0 <= i < frames@.len() ==> #[trigger] a.frames@[i] == (Frame {
                    col: frames@[i].0,
                    row: frames@[i].1,
                    over: None,
                }),
            a.current == 0,
            a.current_frame == a.frames@[0],
            a.total == frames@.len() - 1,
            a.ongoing,
            a.looped,
            a.interruptable,
            a.movable,
            a.dur == 100,
            a.elapse == now,
    {
        let total: usize = frames.len() - 1;
        let mut frames_new: Vec<Frame> = Vec::new();
        let mut i: usize = 0;
        while i < frames.len()
            invariant
                i <= frames@.len(),
                frames_new@.len() == i,
                forall|j: int|
                    0 <= j < frames@.len() ==> (#[trigger] frames@[j]).0 < cols && frames@[j].1
                        < rows,
                forall|j: int|
                    0 <= j < i ==> #[trigger] frames_new@[j] == (Frame {
                        col: frames@[j].0,
                        row: frames@[j].1,
                        over: None,
                    }),
            decreases frames@.len() - i,
        {
            let f = frames[i];
            frames_new.push(Frame { col: f.0, row: f.1, over: None });
            i = i + 1;
        }
        let first = frames_new[0];
        Animation {
            sheet,
            sheet_w,
            sheet_h,
            rows,
            cols,
            current_frame: first,
            current: 0,
            frames: frames_new,
            total,
            ongoing: true,
            dur: 100,
            elapse: now,
            interruptable: true,
            looped: true,
            movable: true,
        }
    }

    /// Pixel size of one grid cell of the sheet.
    pub fn get_units(&self) -> (u: (u32, u32))
        requires
            self.wf(),
        ensures
            u.0 == self.sheet_w as int / self.cols as int,
            u.1 == self.sheet_h as int / self.rows as int,
    {
        (self.sheet_w / (self.cols as u32), self.sheet_h / (self.rows as u32))
    }

    /// The source rectangle of the frame currently shown: its override
    /// rectangle if it has one, else its cell of the sheet grid.
    pub open spec fn spec_src(self) -> IRect {
        match self.current_frame.over {
            Some(r) => r@,
            None => {
                let uw = self.sheet_w as int / self.cols as int;
                let uh = self.sheet_h as int / self.rows as int;
                IRect {
                    x: self.current_frame.col * uw,
                    y: self.current_frame.row * uh,
                    w: uw,
                    h: uh,
                }
            },
        }
    }

    /// The sub-rectangle of the sheet that the current frame blits from.
    pub fn get_src(&self) -> (r: Rect)
        requires
            self.wf(),
        ensures
            r@ == self.spec_src(),
    {
        match self.current_frame.over {
            Some(src) => src,
            None => {
                let (unit_w, unit_h) = self.get_units();
                proof {
                    lemma_cell_in_sheet(
                        self.current_frame.col as int,
                        self.cols as int,
                        self.sheet_w as int,
                    );
                    lemma_cell_in_sheet(
                        self.current_frame.row as int,
                        self.rows as int,
                        self.sheet_h as int,
                    );
                }
                let x64: i64 = self.current_frame.col as i64 * unit_w as i64;
                let y64: i64 = self.current_frame.row as i64 * unit_h as i64;
                Rect::new(x64 as i32, y64 as i32, unit_w, unit_h)
            },
        }
    }

    /// Replace the shown frame's source by an explicit rectangle on the
    /// sheet, leaving the frame sequence itself untouched.
    pub fn set_frame_override(&mut self, src: Rect)
        requires
            old(self).wf(),
        ensures
            *final(self) == (Animation {
                current_frame: Frame { over: Some(src), ..old(self).current_frame },
                ..*old(self)
            }),
            final(self).wf(),
    {
        self.current_frame = Frame { col: self.current_frame.col, row: self.current_frame.row, over: Some(src) };
    }

    /// One tick at time `now`: advance the frame if it is due, following
    /// `stepped`; report completion following `step_finished`.
    pub fn next(&mut self, now: u64) -> (finished: bool)
        requires
            old(self).wf(),
        ensures
            *final(self) == old(self).stepped(now),
            finished == old(self).step_finished(now),
            final(self).wf(),
    {
        if now < self.elapse || now - self.elapse < self.dur {
            return false;
        }
        if !self.ongoing {
            return true;
        }
        if self.current == self.total {
            if !self.looped {
                self.ongoing = false;
                return true;
            }
            self.current = 0;
            self.current_frame = self.frames[0];
            self.elapse = now;
            return false;
        }
        self.current = self.current + 1;
        self.current_frame = self.frames[self.current];
        self.elapse = now;
        false
    }
}

/// The two animations agree field for field, frame sequences compared by
/// value.
pub open spec fn anim_eq(a: Animation, b: Animation) -> bool {
    &&& a.sheet == b.sheet
    &&& a.sheet_w == b.sheet_w
    &&& a.sheet_h == b.sheet_h
    &&& a.rows == b.rows
    &&& a.cols == b.cols
    &&& a.current_frame == b.current_frame
    &&& a.current == b.current
    &&& a.frames@ == b.frames@
    &&& a.total == b.total
    &&& a.ongoing == b.ongoing
    &&& a.dur == b.dur
    &&& a.elapse == b.elapse
    &&& a.interruptable == b.interruptable
    &&& a.looped == b.looped
    &&& a.movable == b.movable
}

impl Clone for Animation {
    /// A faithful copy. The sheet handle is shared: the copy points at the
    /// same loaded image.
    fn clone(&self) -> (r: Animation)
        ensures
            anim_eq(r, *self),
    {
        let mut frames: Vec<Frame> = Vec::new();
        let mut i: usize = 0;
        while i < self.frames.len()
            invariant
                i <= self.frames@.len(),
                frames@ == self.frames@.take(i as int),
            decreases self.frames@.len() - i,
        {
            frames.push(self.frames[i]);
            proof {
                assert(self.frames@.take(i + 1) =~= self.frames@.take(i as int).push(
                    self.frames@[i as int],
                ));
            }
            i = i + 1;
        }
        proof {
            assert(self.frames@.take(self.frames@.len() as int) =~= self.frames@);
        }
        Animation {
            sheet: self.sheet,
            sheet_w: self.sheet_w,
            sheet_h: self.sheet_h,
            rows: self.rows,
            cols: self.cols,
            current_frame: self.current_frame,
            current: self.current,
            frames,
            total: self.total,
            ongoing: self.ongoing,
            dur: self.dur,
            elapse: self.elapse,
            interruptable: self.interruptable,
            looped: self.looped,
            movable: self.movable,
        }
    }
}

/// The state after ticking once per entry of `times`, in order.
pub open spec fn run(a: Animation, times: Seq<u64>) -> Animation
    decreases times.len(),
{
    if times.len() == 0 {
        a
    } else {
        run(a.stepped(times[0]), times.drop_first())
    }
}

/// Does any tick of `times` report the animation as finished?
pub open spec fn ever_finishes(a: Animation, times: Seq<u64>) -> bool
    decreases times.len(),
{
    if times.len() == 0 {
        false
    } else {
        a.step_finished(times[0]) || ever_finishes(a.stepped(times[0]), times.drop_first())
    }
}

/// The tick times each come at least `dur` after the previous advance, so
/// every tick is due.
pub open spec fn spaced_from(elapse: u64, dur: u64, times: Seq<u64>) -> bool
    decreases times.len(),
{
    if times.len() == 0 {
        true
    } else {
        times[0] >= elapse + dur && spaced_from(times[0], dur, times.drop_first())
    }
}

/// A halted animation stays put: every further tick leaves it unchanged, and
/// a due tick reports it finished.
pub proof fn lemma_finished_stays(a: Animation, now: u64)
    requires
        !a.ongoing,
    ensures
        a.stepped(now) == a,
        a.step_finished(now) == a.due(now),
{
}

/// A running one-shot animation finishes: ticked once per frame left in its
/// sequence and once more, each tick due, it ends halted on its last frame,
/// and nothing else about it has changed.
pub proof fn lemma_one_shot_finishes(a: Animation, times: Seq<u64>)
    requires
        a.wf(),
        a.ongoing,
        !a.looped,
        spaced_from(a.elapse, a.dur, times),
        times.len() == a.total - a.current + 1,
    ensures
        run(a, times) == (Animation {
            ongoing: false,
            current: a.total,
            current_frame: if a.current == a.total {
                a.current_frame
            } else {
                a.frames@[a.total as int]
            },
            elapse: if a.current == a.total {
                a.elapse
            } else {
                times[times.len() - 2]
            },
            ..a
        }),
    decreases times.len(),
{
    let a1 = a.stepped(times[0]);
    if a.current == a.total {
        assert(times.len() == 1);
        assert(run(a1, times.drop_first()) == a1);
    } else {
        lemma_one_shot_finishes(a1, times.drop_first());
        if a1.current == a.total {
            assert(times.len() == 2);
        } else {
            assert(times.drop_first()[times.len() - 3] == times[times.len() - 2]);
        }
    }
}

/// Once halted, an animation never moves again, whatever ticks follow.
pub proof fn lemma_halted_forever(a: Animation, times: Seq<u64>)
    requires
        !a.ongoing,
    ensures
        run(a, times) == a,
    decreases times.len(),
{
    if times.len() > 0 {
        lemma_halted_forever(a.stepped(times[0]), times.drop_first());
    }
}

/// A looping animation cycles and never finishes: after any number of due
/// ticks it is still running, no tick reported completion, and the frame
/// index has moved forward by the number of ticks, modulo the frame count.
pub proof fn lemma_looped_cycles(a: Animation, times: Seq<u64>)
    requires
        a.wf(),
        a.ongoing,
        a.looped,
        spaced_from(a.elapse, a.dur, times),
    ensures
        !ever_finishes(a, times),
        run(a, times).ongoing,
        run(a, times).looped,
        run(a, times).wf(),
        run(a, times).frames == a.frames,
        run(a, times).total == a.total,
        run(a, times).current == (a.current + times.len()) % a.frames@.len() as int,
        run(a, times).current_frame == if times.len() == 0 {
            a.current_frame
        } else {
            a.frames@[(a.current + times.len()) % a.frames@.len() as int]
        },
    decreases times.len(),
{
    let len = a.frames@.len() as int;
    if times.len() == 0 {
        vstd::arithmetic::div_mod::lemma_small_mod(a.current as nat, a.frames@.len());
    } else {
        let a1 = a.stepped(times[0]);
        lemma_looped_cycles(a1, times.drop_first());
        assert(a1.current == (a.current + 1) % len) by {
            if a.current == a.total {
                vstd::arithmetic::div_mod::lemma_mod_self_0(len);
            } else {
                vstd::arithmetic::div_mod::lemma_small_mod((a.current + 1) as nat, a.frames@.len());
            }
        }
        assert((a1.current + times.drop_first().len()) % len == (a.current + times.len()) % len)
            by {
            vstd::arithmetic::div_mod::lemma_add_mod_noop(
                a.current + 1,
                times.len() - 1,
                len,
            );
            vstd::arithmetic::div_mod::lemma_add_mod_noop(
                (a.current + 1) % len,
                times.len() - 1,
                len,
            );
            vstd::arithmetic::div_mod::lemma_mod_twice(a.current + 1, len);
            vstd::arithmetic::div_mod::lemma_mod_twice((times.len() - 1) as int, len);
        }
    }
}

/// A cell's pixel origin lies inside the sheet: with `unit == size / cells`,
/// `cell * unit <= size` whenever `cell < cells`.
proof fn lemma_cell_in_sheet(cell: int, cells: int, size: int)
    requires
        0 <= cell < cells,
        0 <= size,
    ensures
        cell * (size / cells) <= size,
        0 <= cell * (size / cells),
{
    let unit = size / cells;
    vstd::arithmetic::div_mod::lemma_fundamental_div_mod(size, cells);
    vstd::arithmetic::div_mod::lemma_mod_bound(size, cells);
    assert(cells * unit <= size);
    assert(0 <= unit) by {
        vstd::arithmetic::div_mod::lemma_div_pos_is_pos(size, cells);
    }
    assert(cell * unit <= cells * unit) by (nonlinear_arith)
        requires
            0 <= cell < cells,
            0 <= unit,
    ;
    assert(0 <= cell * unit) by (nonlinear_arith)
        requires
            0 <= cell,
            0 <= unit,
    ;
}

} // verus!

use vstd::prelude::*;

use crate::coord::Coord;
use crate::frame::Frame;

verus! {

/// How an animation moves from one frame to the next.
#[derive(Debug, Clone, Copy, PartialEq, Eq, Structural)]
pub enum AnimationKind {
    Empty,
    Static,
    TickBased,
    MovementBased,
}

/// Ticks a frame stays on screen: its own count, or the default when that is 0.
pub open spec fn frame_ticks(f: Frame, default: usize) -> nat {
    if f.ticks > 0 {
        f.ticks as nat
    } else {
        default as nat
    }
}

/// Sum of the display ticks of `frames`.
pub open spec fn ticks_sum(frames: Seq<Frame>, default: usize) -> nat
    decreases frames.len(),
{
    if frames.len() == 0 {
        0
    } else {
        ticks_sum(frames.drop_last(), default) + frame_ticks(frames.last(), default)
    }
}

/// Ticks shown before frame `k` starts.
pub open spec fn cumulative(frames: Seq<Frame>, default: usize, k: int) -> nat {
    ticks_sum(frames.take(k), default)
}

/// The first frame from `i` on whose cumulative end lies beyond `t`,
/// or the last frame when there is none.
pub open spec fn frame_at_from(frames: Seq<Frame>, default: usize, t: int, i: int) -> int
    decreases frames.len() - i,
{
    if i >= frames.len() {
        frames.len() - 1
    } else if t < cumulative(frames, default, i + 1) {
        i
    } else {
        frame_at_from(frames, default, t, i + 1)
    }
}

/// The frame on screen `t` ticks into the frame table.
pub open spec fn frame_at(frames: Seq<Frame>, default: usize, t: int) -> int {
    frame_at_from(frames, default, t, 0)
}

pub proof fn lemma_cumulative_step(frames: Seq<Frame>, default: usize, k: int)
    requires
        0 <= k < frames.len(),
    ensures
        cumulative(frames, default, k + 1) == cumulative(frames, default, k) + frame_ticks(
            frames[k],
            default,
        ),
{
    assert(frames.take(k + 1).drop_last() =~= frames.take(k));
}

pub proof fn lemma_cumulative_mono(frames: Seq<Frame>, default: usize, i: int, j: int)
    requires
        0 <= i <= j <= frames.len(),
    ensures
        cumulative(frames, default, i) <= cumulative(frames, default, j),
    decreases j - i,
{
    if i < j {
        lemma_cumulative_step(frames, default, j - 1);
        lemma_cumulative_mono(frames, default, i, j - 1);
    }
}

pub proof fn lemma_cumulative_all(frames: Seq<Frame>, default: usize)
    ensures
        cumulative(frames, default, frames.len() as int) == ticks_sum(frames, default),
{
    assert(frames.take(frames.len() as int) =~= frames);
}

/// A sequence of frames with its advancement policy.
pub struct Animation {
    pub frames: Vec<Frame>,
    pub current_frame_id: usize,
    pub start_frame_id: usize,
    pub default_ticks_per_frame: usize,
    pub kind: AnimationKind,
    pub duration: usize,
    pub is_loop: bool,
    pub is_done: bool,
    pub started_tick_id: Option<usize>,
}

impl Animation {
    /// The shape every animation keeps: the current frame is in range, and
    /// the frame table's total fits in a `usize`.
    pub open spec fn wf(&self) -> bool {
        &&& self.frames.len() > 0 ==> self.current_frame_id < self.frames.len()
        &&& self.start_frame_id <= self.frames.len()
        &&& (self.kind == AnimationKind::TickBased || self.kind == AnimationKind::MovementBased)
            ==> self.frames.len() > 0
        &&& self.total_ticks() <= usize::MAX
    }

    pub open spec fn total_ticks(&self) -> nat {
        ticks_sum(self.frames@, self.default_ticks_per_frame)
    }

    /// Ticks of the frames that come before the starting frame.
    pub open spec fn offset_ticks(&self) -> nat {
        cumulative(self.frames@, self.default_ticks_per_frame, self.start_frame_id as int)
    }

    /// The tick the animation counts from, once advanced at `tick`.
    pub open spec fn start_for(&self, tick: usize) -> int {
        match self.started_tick_id {
            Some(s) => s as int,
            None => tick as int,
        }
    }

    /// Position in the frame table after `elapsed` ticks.
    pub open spec fn effective_tick(&self, elapsed: int) -> int {
        let total = self.total_ticks() as int;
        let t = elapsed + self.offset_ticks();
        if total > 0 {
            if self.is_loop {
                t % total
            } else if t < total - 1 {
                t
            } else {
                total - 1
            }
        } else {
            elapsed
        }
    }

    /// Whether a tick-based animation has run through its table after `elapsed` ticks.
    pub open spec fn table_ended(&self, elapsed: int) -> bool {
        !self.is_loop && self.total_ticks() > 0 && elapsed >= self.total_ticks()
    }

    /// The frame a tick-based animation shows after `elapsed` ticks.
    pub open spec fn tick_frame(&self, elapsed: int) -> int {
        if self.table_ended(elapsed) {
            self.frames.len() - 1
        } else {
            frame_at(self.frames@, self.default_ticks_per_frame, self.effective_tick(elapsed))
        }
    }

    /// The frame a movement-based animation moves to when the occupant moved.
    pub open spec fn moved_frame(&self) -> int {
        if self.is_loop && self.current_frame_id == self.frames.len() - 1 {
            0
        } else {
            self.current_frame_id + 1
        }
    }

    /// Whether a movement-based animation is held on its last frame.
    pub open spec fn at_end(&self) -> bool {
        !self.is_loop && self.current_frame_id >= self.frames.len() - 1
    }

    pub fn new_empty() -> (r: Animation)
        ensures
            r.wf(),
            r.frames@.len() == 0,
            r.current_frame_id == 0,
            r.start_frame_id == 0,
            r.kind == AnimationKind::Empty,
            r.duration == 0,
            r.is_loop,
            r.is_done,
            r.started_tick_id is None,
    {
        Animation {
            frames: Vec::new(),
            current_frame_id: 0,
            start_frame_id: 0,
            default_ticks_per_frame: 0,
            kind: AnimationKind::Empty,
            duration: 0,
            is_loop: true,
            is_done: true,
            started_tick_id: None,
        }
    }

    pub fn new_static(frame: Frame) -> (r: Animation)
        ensures
            r.wf(),
            r.frames@ == seq![frame],
            r.current_frame_id == 0,
            r.kind == AnimationKind::Static,
            r.duration == 0,
            !r.is_done,
            r.started_tick_id is None,
    {
        let mut frames: Vec<Frame> = Vec::new();
        frames.push(frame);
        let r = Animation {
            frames,
            current_frame_id: 0,
            start_frame_id: 0,
            default_ticks_per_frame: 0,
            kind: AnimationKind::Static,
            duration: 0,
            is_loop: true,
            is_done: false,
            started_tick_id: None,
        };
        proof {
            assert(r.frames@.drop_last() =~= Seq::<Frame>::empty());
            assert(ticks_sum(r.frames@, 0) == ticks_sum(Seq::<Frame>::empty(), 0) + frame_ticks(
                frame,
                0,
            ));
        }
        r
    }

    pub fn new_tick_based(
        frames: Vec<Frame>,
        start_frame_id: usize,
        default_ticks_per_frame: usize,
        duration: usize,
        is_loop: bool,
    ) -> (r: Animation)
        requires
            start_frame_id < frames@.len(),
            ticks_sum(frames@, default_ticks_per_frame) <= usize::MAX,
        ensures
            r.wf(),
            r.frames@ == frames@,
            r.current_frame_id == start_frame_id,
            r.start_frame_id == start_frame_id,
            r.default_ticks_per_frame == default_ticks_per_frame,
            r.kind == AnimationKind::TickBased,
            r.duration == duration,
            r.is_loop == is_loop,
            !r.is_done,
            r.started_tick_id is None,
    {
        Animation {
            frames,
            current_frame_id: start_frame_id,
            start_frame_id,
            default_ticks_per_frame,
            kind: AnimationKind::TickBased,
            duration,
            is_loop,
            is_done: false,
            started_tick_id: None,
        }
    }

    pub fn new_movement_based(frames: Vec<Frame>, start_frame_id: usize, is_loop: bool) -> (r:
        Animation)
        requires
            start_frame_id < frames@.len(),
            ticks_sum(frames@, 0) <= usize::MAX,
        ensures
            r.wf(),
            r.frames@ == frames@,
            r.current_frame_id == start_frame_id,
            r.start_frame_id == start_frame_id,
            r.kind == AnimationKind::MovementBased,
            r.duration == 0,
            r.is_loop == is_loop,
            !r.is_done,
            r.started_tick_id is None,
    {
        Animation {
            frames,
            current_frame_id: start_frame_id,
            start_frame_id,
            default_ticks_per_frame: 0,
            kind: AnimationKind::MovementBased,
            duration: 0,
            is_loop,
            is_done: false,
            started_tick_id: None,
        }
    }

    pub fn frames(&self) -> (r: Vec<&Frame>)
        ensures
            r@.len() == self.frames@.len(),
            forall|i: int| 0 <= i < r@.len() ==> *r@[i] == self.frames@[i],
    {
        let mut r: Vec<&Frame> = Vec::new();
        let mut i: usize = 0;
        while i < self.frames.len()
            invariant
                i <= self.frames@.len(),
                r@.len() == i,
                forall|j: int| 0 <= j < i ==> *r@[j] == self.frames@[j],
            decreases self.frames@.len() - i,
        {
            r.push(&self.frames[i]);
            i = i + 1;
        }
        r
    }

    pub fn current_frame_id(&self) -> (r: usize)
        ensures
            r == self.current_frame_id,
    {
        self.current_frame_id
    }

    pub fn kind(&self) -> (r: AnimationKind)
        ensures
            r == self.kind,
    {
        self.kind
    }

    pub fn is_loop(&self) -> (r: bool)
        ensures
            r == self.is_loop,
    {
        self.is_loop
    }

    pub fn default_ticks_per_frame(&self) -> (r: usize)
        ensures
            r == self.default_ticks_per_frame,
    {
        self.default_ticks_per_frame
    }

    /// A static animation is never done: a decoration never ends a scene.
    pub open spec fn done_spec(&self) -> bool {
        self.kind != AnimationKind::Static && self.is_done
    }

    pub fn is_done(&self) -> (r: bool)
        ensures
            r == self.done_spec(),
    {
        match self.kind {
            AnimationKind::Static => false,
            _ => self.is_done,
        }
    }

    pub fn reset(&mut self)
        requires
            old(self).wf(),
        ensures
            final(self).wf(),
            final(self).current_frame_id == 0,
            !final(self).is_done,
            final(self).started_tick_id is None,
            final(self).frames@ == old(self).frames@,
            final(self).kind == old(self).kind,
            final(self).is_loop == old(self).is_loop,
            final(self).start_frame_id == old(self).start_frame_id,
            final(self).default_ticks_per_frame == old(self).default_ticks_per_frame,
            final(self).duration == old(self).duration,
    {
        self.current_frame_id = 0;
        self.is_done = false;
        self.started_tick_id = None;
    }

    pub fn has_started(&self) -> (r: bool)
        ensures
            r == self.started_tick_id is Some,
    {
        self.started_tick_id.is_some()
    }

    pub fn frame(&self) -> (r: &Frame)
        requires
            self.wf(),
            self.frames@.len() > 0,
        ensures
            *r == self.frames@[self.current_frame_id as int],
    {
        &self.frames[self.current_frame_id]
    }

    pub fn started_tick(&self) -> (r: Option<usize>)
        ensures
            r == self.started_tick_id,
    {
        self.started_tick_id
    }

    /// Display ticks of the whole frame table.
    pub fn get_total_ticks(&self) -> (r: usize)
        requires
            self.wf(),
        ensures
            r == self.total_ticks(),
    {
        proof {
            lemma_cumulative_all(self.frames@, self.default_ticks_per_frame);
        }
        self.ticks_before(self.frames.len())
    }

    /// Display ticks of the first `k` frames.
    fn ticks_before(&self, k: usize) -> (r: usize)
        requires
            self.wf(),
            k <= self.frames@.len(),
        ensures
            r == cumulative(self.frames@, self.default_ticks_per_frame, k as int),
    {
        let ghost fs = self.frames@;
        let ghost d = self.default_ticks_per_frame;
        let mut acc: usize = 0;
        let mut i: usize = 0;
        while i < k
            invariant
                fs == self.frames@,
                d == self.default_ticks_per_frame,
                k <= fs.len(),
                i <= k,
                acc == cumulative(fs, d, i as int),
                ticks_sum(fs, d) <= usize::MAX,
            decreases k - i,
        {
            proof {
                lemma_cumulative_step(fs, d, i as int);
                lemma_cumulative_mono(fs, d, i + 1, fs.len() as int);
                lemma_cumulative_all(fs, d);
            }
            let f = &self.frames[i];
            let ft = if f.ticks > 0 {
                f.ticks
            } else {
                self.default_ticks_per_frame
            };
            acc = acc + ft;
            i = i + 1;
        }
        acc
    }

    /// The frame shown `t` ticks into the frame table.
    fn frame_for_tick(&self, t: usize) -> (r: usize)
        requires
            self.wf(),
            self.frames@.len() > 0,
        ensures
            r == frame_at(self.frames@, self.default_ticks_per_frame, t as int),
            r < self.frames@.len(),
    {
        let ghost fs = self.frames@;
        let ghost d = self.default_ticks_per_frame;
        let mut acc: usize = 0;
        let mut i: usize = 0;
        while i < self.frames.len()
            invariant
                fs == self.frames@,
                d == self.default_ticks_per_frame,
                fs.len() > 0,
                i <= fs.len(),
                acc == cumulative(fs, d, i as int),
                ticks_sum(fs, d) <= usize::MAX,
                frame_at(fs, d, t as int) == frame_at_from(fs, d, t as int, i as int),
            decreases fs.len() - i,
        {
            proof {
                lemma_cumulative_step(fs, d, i as int);
                lemma_cumulative_mono(fs, d, i + 1, fs.len() as int);
                lemma_cumulative_all(fs, d);
            }
            let f = &self.frames[i];
            let ft = if f.ticks > 0 {
                f.ticks
            } else {
                self.default_ticks_per_frame
            };
            acc = acc + ft;
            if t < acc {
                return i;
            }
            i = i + 1;
        }
        self.frames.len() - 1
    }

    /// Step a tick-based animation to tick `tick_id`.
    fn advance_tick(&mut self, tick_id: usize)
        requires
            old(self).wf(),
            old(self).frames@.len() > 0,
            old(self).started_tick_id matches Some(s) && s <= tick_id,
        ensures
            final(self).wf(),
            final(self).current_frame_id == old(self).tick_frame(
                tick_id - old(self).started_tick_id->0,
            ),
            final(self).is_done == (old(self).is_done || old(self).table_ended(
                tick_id - old(self).started_tick_id->0,
            )),
            final(self).frames == old(self).frames,
            final(self).frames@ == old(self).frames@,
            final(self).start_frame_id == old(self).start_frame_id,
            final(self).default_ticks_per_frame == old(self).default_ticks_per_frame,
            final(self).kind == old(self).kind,
            final(self).duration == old(self).duration,
            final(self).is_loop == old(self).is_loop,
            final(self).started_tick_id == old(self).started_tick_id,
    {
        let start_tick = match self.started_tick_id {
            Some(s) => s,
            None => tick_id,
        };
        let elapsed = tick_id - start_tick;
        let total = self.get_total_ticks();
        if !self.is_loop && total > 0 && elapsed >= total {
            self.is_done = true;
            self.current_frame_id = self.frames.len() - 1;
            return;
        }
        let offset = self.ticks_before(self.start_frame_id);
        proof {
            lemma_cumulative_mono(
                self.frames@,
                self.default_ticks_per_frame,
                self.start_frame_id as int,
                self.frames@.len() as int,
            );
            lemma_cumulative_all(self.frames@, self.default_ticks_per_frame);
        }
        let effective: usize = if total > 0 {
            if self.is_loop {
                let a = elapsed % total;
                proof {
                    lemma_shifted_mod(elapsed as int, offset as int, total as int);
                }
                if a >= total - offset {
                    a - (total - offset)
                } else {
                    a + offset
                }
            } else if offset < total - 1 && elapsed < total - 1 - offset {
                elapsed + offset
            } else {
                total - 1
            }
        } else {
            elapsed
        };
        self.current_frame_id = self.frame_for_tick(effective);
    }

    /// Step a movement-based animation, given where its occupant is now and
    /// where it was; returns the frame now shown.
    pub fn advance_movement(&mut self, sprite_new_coord: Coord, sprite_prev_coord: Coord) -> (r:
        usize)
        requires
            old(self).wf(),
            old(self).frames@.len() > 0,
        ensures
            final(self).wf(),
            r == final(self).current_frame_id,
            final(self).current_frame_id == if old(self).at_end() || sprite_new_coord
                == sprite_prev_coord {
                old(self).current_frame_id as int
            } else {
                old(self).moved_frame()
            },
            final(self).is_done == (old(self).is_done || old(self).at_end() || (sprite_new_coord
                != sprite_prev_coord && !old(self).is_loop && old(self).moved_frame()
                >= old(self).frames@.len() - 1)),
            final(self).frames == old(self).frames,
            final(self).frames@ == old(self).frames@,
            final(self).start_frame_id == old(self).start_frame_id,
            final(self).default_ticks_per_frame == old(self).default_ticks_per_frame,
            final(self).kind == old(self).kind,
            final(self).duration == old(self).duration,
            final(self).is_loop == old(self).is_loop,
            final(self).started_tick_id == old(self).started_tick_id,
    {
        if !self.is_loop && self.current_frame_id >= self.frames.len() - 1 {
            self.is_done = true;
            return self.current_frame_id;
        }
        if sprite_new_coord.x != sprite_prev_coord.x || sprite_new_coord.y != sprite_prev_coord.y {
            if self.is_loop && self.current_frame_id == self.frames.len() - 1 {
                self.current_frame_id = 0;
            } else {
                self.current_frame_id = self.current_frame_id + 1;
            }
            if !self.is_loop && self.current_frame_id >= self.frames.len() - 1 {
                self.is_done = true;
            }
        }
        self.current_frame_id
    }

    /// Whether the scripted duration has run out after `elapsed` ticks.
    pub open spec fn duration_over(&self, elapsed: int) -> bool {
        self.duration > 0 && elapsed >= self.duration
    }

    /// The animation after `advance(tick, new, next)`.
    pub open spec fn advanced(self, tick: usize, new: Option<Coord>, next: Option<Coord>) -> Animation {
        let start = self.start_for(tick);
        let elapsed = tick - start;
        let base = self.is_done || self.duration_over(elapsed);
        let moved = next->0 != new->0;
        let cur: int = match self.kind {
            AnimationKind::TickBased => self.tick_frame(elapsed),
            AnimationKind::MovementBased => if self.at_end() || !moved {
                self.current_frame_id as int
            } else {
                self.moved_frame()
            },
            _ => self.current_frame_id as int,
        };
        let done = match self.kind {
            AnimationKind::TickBased => base || self.table_ended(elapsed),
            AnimationKind::MovementBased => base || self.at_end() || (moved && !self.is_loop
                && self.moved_frame() >= self.frames@.len() - 1),
            _ => base,
        };
        Animation {
            current_frame_id: cur as usize,
            is_done: done,
            started_tick_id: Some(start as usize),
            ..self
        }
    }

    /// Step the animation to tick `tick_id`. The first call fixes the tick that
    /// elapsed time counts from. A movement-based animation needs the occupant's
    /// coordinate at this tick and at the next one.
    pub fn advance(
        &mut self,
        tick_id: usize,
        sprite_new_coord: Option<Coord>,
        sprite_next_coord: Option<Coord>,
    )
        requires
            old(self).wf(),
            old(self).started_tick_id matches Some(s) ==> s <= tick_id,
            old(self).kind == AnimationKind::MovementBased ==> sprite_new_coord is Some
                && sprite_next_coord is Some,
        ensures
            final(self).wf(),
            *final(self) == old(self).advanced(tick_id, sprite_new_coord, sprite_next_coord),
            final(self).started_tick_id == Some(old(self).start_for(tick_id) as usize),
            final(self).frames == old(self).frames,
            final(self).frames@ == old(self).frames@,
            final(self).start_frame_id == old(self).start_frame_id,
            final(self).default_ticks_per_frame == old(self).default_ticks_per_frame,
            final(self).kind == old(self).kind,
            final(self).duration == old(self).duration,
            final(self).is_loop == old(self).is_loop,
            old(self).is_done ==> final(self).is_done,
            ({
                let elapsed = tick_id - old(self).start_for(tick_id);
                let base = old(self).is_done || old(self).duration_over(elapsed);
                match old(self).kind {
                    AnimationKind::Empty | AnimationKind::Static => {
                        &&& final(self).current_frame_id == old(self).current_frame_id
                        &&& final(self).is_done == base
                    },
                    AnimationKind::TickBased => {
                        &&& final(self).current_frame_id == old(self).tick_frame(elapsed)
                        &&& final(self).is_done == (base || old(self).table_ended(elapsed))
                    },
                    AnimationKind::MovementBased => {
                        let moved = sprite_next_coord->0 != sprite_new_coord->0;
                        &&& final(self).current_frame_id == if old(self).at_end() || !moved {
                            old(self).current_frame_id as int
                        } else {
                            old(self).moved_frame()
                        }
                        &&& final(self).is_done == (base || old(self).at_end() || (moved
                            && !old(self).is_loop && old(self).moved_frame()
                            >= old(self).frames@.len() - 1))
                    },
                }
            }),
    {
        if self.started_tick_id.is_none() {
            self.started_tick_id = Some(tick_id);
        }
        let start_tick = match self.started_tick_id {
            Some(s) => s,
            None => tick_id,
        };
        if self.duration > 0 && tick_id - start_tick >= self.duration {
            self.is_done = true;
        }
        match self.kind {
            AnimationKind::Empty => {},
            AnimationKind::Static => {},
            AnimationKind::TickBased => {
                self.advance_tick(tick_id);
            },
            AnimationKind::MovementBased => {
                match (sprite_next_coord, sprite_new_coord) {
                    (Some(next), Some(prev)) => {
                        self.advance_movement(next, prev);
                    },
                    _ => {},
                }
            },
        }
    }
}

/// `(e % n + o) % n`, written without leaving `[0, 2n)`.
pub proof fn lemma_shifted_mod(e: int, o: int, n: int)
    requires
        0 <= e,
        0 <= o <= n,
        n > 0,
    ensures
        (e % n) >= n - o ==> (e % n) - (n - o) == (e + o) % n,
        (e % n) < n - o ==> (e % n) + o == (e + o) % n,
{
    let a = e % n;
    let q = e / n;
    assert(e == q * n + a) by (nonlinear_arith)
        requires
            a == e % n,
            q == e / n,
            n > 0,
    ;
    assert(0 <= a < n);
    if a >= n - o {
        assert(e + o == (q + 1) * n + (a - (n - o))) by (nonlinear_arith)
            requires
                e == q * n + a,
        ;
        vstd::arithmetic::div_mod::lemma_fundamental_div_mod_converse(
            e + o,
            n,
            q + 1,
            a - (n - o),
        );
    } else {
        assert(e + o == q * n + (a + o)) by (nonlinear_arith)
            requires
                e == q * n + a,
        ;
        vstd::arithmetic::div_mod::lemma_fundamental_div_mod_converse(e + o, n, q, a + o);
    }
}


/// A looping tick-based animation shows the same frame at elapsed times that
/// differ by the length of its frame table: it cycles with that period.
pub proof fn lemma_tick_loop_period(a: Animation, elapsed: int)
    requires
        a.is_loop,
        a.total_ticks() > 0,
        elapsed >= 0,
    ensures
        a.tick_frame(elapsed + a.total_ticks()) == a.tick_frame(elapsed),
{
    let n = a.total_ticks() as int;
    let t = elapsed + a.offset_ticks();
    vstd::arithmetic::div_mod::lemma_mod_add_multiples_vanish(t, n);
    assert(elapsed + n + a.offset_ticks() == n + t);
}

/// A tick-based animation that does not loop ends its table exactly once the
/// elapsed time reaches the table's length, and from then on shows its last
/// frame.
pub proof fn lemma_tick_end(a: Animation, elapsed: int)
    requires
        !a.is_loop,
        a.total_ticks() > 0,
    ensures
        a.table_ended(elapsed) <==> elapsed >= a.total_ticks(),
        elapsed >= a.total_ticks() ==> a.tick_frame(elapsed) == a.frames@.len() - 1,
{
}

} // verus!

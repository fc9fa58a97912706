use vstd::prelude::*;

use crate::frame::Frame;

verus! {

/// How a layered animation moves from one frame to the next.
#[derive(Clone, Copy, Debug, PartialEq, Eq, Structural)]
pub enum AnimationType {
    Static,
    TickBased,
    MovementBased,
}

/// An animation that counts its own ticks: a tick-based one moves to the next
/// frame once `default_frame_ticks` ticks have gone by since the last change, a
/// movement-based one on every move.
pub struct SpriteAnimation {
    pub frames: Vec<Frame>,
    pub current_frame_index: usize,
    pub default_frame_ticks: usize,
    /// Ticks since the last change of frame.
    pub elapsed_ticks: usize,
    pub animation_type: AnimationType,
    pub looping: bool,
    pub is_done: bool,
    pub started_tick_id: Option<usize>,
}

impl SpriteAnimation {
    pub open spec fn wf(&self) -> bool {
        &&& self.frames@.len() > 0
        &&& self.current_frame_index < self.frames@.len()
    }

    pub fn new_static(frame: Frame) -> (r: SpriteAnimation)
        ensures
            r.wf(),
            r.frames@ == seq![frame],
            r.current_frame_index == 0,
            r.animation_type == AnimationType::Static,
            !r.is_done,
            r.started_tick_id is None,
    {
        let mut frames: Vec<Frame> = Vec::new();
        frames.push(frame);
        SpriteAnimation {
            frames,
            current_frame_index: 0,
            default_frame_ticks: 0,
            elapsed_ticks: 0,
            animation_type: AnimationType::Static,
            looping: true,
            is_done: false,
            started_tick_id: None,
        }
    }

    pub fn new_tick_based(frames: Vec<Frame>, frame_ticks: usize, looping: bool) -> (r:
        SpriteAnimation)
        requires
            frames@.len() > 0,
        ensures
            r.wf(),
            r.frames@ == frames@,
            r.current_frame_index == 0,
            r.default_frame_ticks == frame_ticks,
            r.elapsed_ticks == 0,
            r.animation_type == AnimationType::TickBased,
            r.looping == looping,
            !r.is_done,
            r.started_tick_id is None,
    {
        SpriteAnimation {
            frames,
            current_frame_index: 0,
            default_frame_ticks: frame_ticks,
            elapsed_ticks: 0,
            animation_type: AnimationType::TickBased,
            looping,
            is_done: false,
            started_tick_id: None,
        }
    }

    pub fn new_movement_based(frames: Vec<Frame>, looping: bool) -> (r: SpriteAnimation)
        requires
            frames@.len() > 0,
        ensures
            r.wf(),
            r.frames@ == frames@,
            r.current_frame_index == 0,
            r.animation_type == AnimationType::MovementBased,
            r.looping == looping,
            !r.is_done,
            r.started_tick_id is None,
    {
        SpriteAnimation {
            frames,
            current_frame_index: 0,
            default_frame_ticks: 0,
            elapsed_ticks: 0,
            animation_type: AnimationType::MovementBased,
            looping,
            is_done: false,
            started_tick_id: None,
        }
    }

    pub fn current_frame_index(&self) -> (r: usize)
        ensures
            r == self.current_frame_index,
    {
        self.current_frame_index
    }

    pub fn current_frame(&self) -> (r: &Frame)
        requires
            self.wf(),
        ensures
            *r == self.frames@[self.current_frame_index as int],
    {
        &self.frames[self.current_frame_index]
    }

    pub fn reset(&mut self)
        requires
            old(self).wf(),
        ensures
            final(self).wf(),
            *final(self) == (SpriteAnimation {
                current_frame_index: 0,
                is_done: false,
                started_tick_id: None,
                ..*old(self)
            }),
    {
        self.current_frame_index = 0;
        self.is_done = false;
        self.started_tick_id = None;
    }

    pub fn has_started(&self) -> (r: bool)
        ensures
            r == self.started_tick_id is Some,
    {
        self.started_tick_id.is_some()
    }

    pub fn started_tick(&self) -> (r: Option<usize>)
        ensures
            r == self.started_tick_id,
    {
        self.started_tick_id
    }

    /// The frame after the current one: the next, the first again when
    /// looping past the end, or the last one held.
    pub open spec fn next_index(&self) -> int {
        if self.current_frame_index + 1 < self.frames@.len() {
            self.current_frame_index + 1
        } else if self.looping {
            0
        } else {
            self.current_frame_index as int
        }
    }

    /// Whether moving on from the current frame ends the animation.
    pub open spec fn ends_on_next(&self) -> bool {
        self.current_frame_index + 1 >= self.frames@.len() && !self.looping
    }

    pub fn next_frame(&mut self)
        requires
            old(self).wf(),
        ensures
            final(self).wf(),
            final(self).current_frame_index == old(self).next_index(),
            final(self).is_done == (old(self).is_done || old(self).ends_on_next()),
            final(self).frames@ == old(self).frames@,
            final(self).elapsed_ticks == old(self).elapsed_ticks,
            final(self).animation_type == old(self).animation_type,
            final(self).looping == old(self).looping,
            final(self).default_frame_ticks == old(self).default_frame_ticks,
            final(self).started_tick_id == old(self).started_tick_id,
    {
        if self.current_frame_index < self.frames.len() - 1 {
            self.current_frame_index = self.current_frame_index + 1;
        } else if self.looping {
            self.current_frame_index = 0;
        } else {
            self.is_done = true;
        }
    }

    /// Step the animation by `tick_delta` ticks, `moved` telling whether its
    /// owner moved.
    pub fn advance(&mut self, tick_delta: usize, moved: bool)
        requires
            old(self).wf(),
            old(self).elapsed_ticks + tick_delta <= usize::MAX,
        ensures
            final(self).wf(),
            final(self).frames@ == old(self).frames@,
            final(self).animation_type == old(self).animation_type,
            ({
                let steps = match old(self).animation_type {
                    AnimationType::Static => false,
                    AnimationType::TickBased => old(self).elapsed_ticks + tick_delta
                        >= old(self).default_frame_ticks,
                    AnimationType::MovementBased => moved,
                };
                &&& final(self).current_frame_index == if steps {
                    old(self).next_index()
                } else {
                    old(self).current_frame_index as int
                }
                &&& final(self).is_done == (old(self).is_done || (steps && old(self).ends_on_next()))
                &&& final(self).elapsed_ticks == match old(self).animation_type {
                    AnimationType::TickBased => if steps {
                        0
                    } else {
                        old(self).elapsed_ticks + tick_delta
                    },
                    _ => old(self).elapsed_ticks as int,
                }
            }),
    {
        match self.animation_type {
            AnimationType::Static => {},
            AnimationType::TickBased => {
                self.elapsed_ticks = self.elapsed_ticks + tick_delta;
                if self.elapsed_ticks >= self.default_frame_ticks {
                    self.elapsed_ticks = 0;
                    self.next_frame();
                }
            },
            AnimationType::MovementBased => {
                if moved {
                    self.next_frame();
                }
            },
        }
    }
}

} // verus!

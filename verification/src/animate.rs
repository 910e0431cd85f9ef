//! A frame counter for animations that advance every so many frames.

use vstd::prelude::*;

verus! {

/// The frame at which the counter starts over.
pub const MAX_FRAMES: i64 = 4294967296;

/// Counts rendered frames, from zero up to `MAX_FRAMES` and round again.
#[derive(Debug, Clone, Copy)]
pub struct Animate {
    max_frames: i64,
    frames: i64,
}

impl Animate {
    /// The number of frames counted since the counter last started over.
    pub closed spec fn frames(&self) -> int {
        self.frames as int
    }

    /// The count after which the next frame starts over at zero.
    pub closed spec fn max_frames(&self) -> int {
        self.max_frames as int
    }

    /// The count never leaves the range from zero to the limit.
    pub closed spec fn wf(&self) -> bool {
        0 <= self.frames <= self.max_frames < i64::MAX
    }

    /// A counter at frame zero.
    pub fn new() -> (a: Animate)
        ensures
            a.wf(),
            a.frames() == 0,
            a.max_frames() == MAX_FRAMES,
    {
        Animate { frames: 0, max_frames: MAX_FRAMES }
    }

    /// Counts one more frame; the frame after the limit is frame zero.
    pub fn next_frame(&mut self)
        requires
            old(self).wf(),
        ensures
            final(self).wf(),
            final(self).max_frames() == old(self).max_frames(),
            final(self).frames() == if old(self).frames() >= old(self).max_frames() {
                0
            } else {
                old(self).frames() + 1
            },
    {
        if self.frames >= self.max_frames {
            self.frames = 0;
        } else {
            self.frames = self.frames + 1;
        }
    }

    /// Whether the current frame is a multiple of `frames_per_tick`.
    pub fn tick(&self, frames_per_tick: i64) -> (due: bool)
        requires
            self.wf(),
            frames_per_tick != 0,
        ensures
            due == (self.frames() % frames_per_tick as int == 0),
    {
        (self.frames % frames_per_tick) == 0
    }
}

} // verus!

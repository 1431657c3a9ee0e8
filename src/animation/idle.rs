//! The passive animation: a still sprite that is drawn when nothing else plays.
use vstd::prelude::*;

use crate::animation::{DrawCommand, SpriteFrames};

verus! {

/// Shows the first of its frames and never moves the window. It counts as
/// finished at once, so it never holds the active slot beyond one update.
#[derive(Debug, Clone, Copy, PartialEq, Eq, Structural)]
pub struct IdleAnimation {
    pub sprite_frames: SpriteFrames,
}

impl IdleAnimation {
    /// What the animation shows: frame zero of its run, unmirrored.
    pub open spec fn frame_shown(self) -> DrawCommand {
        DrawCommand { frame: self.sprite_frames.first, mirrored: false }
    }

    /// Has no timeline to restart.
    pub fn start(&mut self, now: u64)
        ensures
            *final(self) == *old(self),
    {
    }

    /// Has nothing to advance.
    pub fn update(&mut self, now: u64)
        ensures
            *final(self) == *old(self),
    {
    }

    /// Frame zero, whatever the time.
    pub fn draw(&self, now: u64) -> (d: DrawCommand)
        ensures
            d == self.frame_shown(),
    {
        DrawCommand { frame: self.sprite_frames.first, mirrored: false }
    }

    /// Always finished.
    pub fn is_finished(&self) -> (r: bool)
        ensures
            r,
    {
        true
    }
}

} // verus!

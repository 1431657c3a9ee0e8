//! A drop of the window to a resting position, showing one still frame.
use vstd::prelude::*;

use crate::animation::{
    elapsed_between, elapsed_since, lemma_lerp_between, lerp_point, lerp_point_at, progress,
    progress_at, DrawCommand,
};

verus! {

/// Carries the window from `start_pos` to `end_pos` over `duration` by linear
/// interpolation, once started; used for the entrance from above the screen
/// and to bring the window back to the ground after a drag.
#[derive(Debug, Clone, Copy)]
pub struct FallAnimation {
    pub start_pos: (i64, i64),
    pub end_pos: (i64, i64),
    pub duration: u64,
    pub start_time: Option<u64>,
    pub finished: bool,
    /// The still frame shown throughout.
    pub frame: usize,
}

impl FallAnimation {
    /// The animation restarted at `now`.
    pub open spec fn started(self, now: u64) -> FallAnimation {
        FallAnimation { start_time: Some(now), finished: false, ..self }
    }

    /// The animation after an update at `now`, and where the window is to be
    /// placed: nowhere before a start or after the end; otherwise at the
    /// interpolated position, finished once the parameter reaches one.
    pub open spec fn advanced(self, now: u64) -> (FallAnimation, Option<(i64, i64)>) {
        match self.start_time {
            Some(s) if !self.finished => {
                let t = progress(elapsed_since(s, now), self.duration);
                let p = lerp_point(self.start_pos, self.end_pos, t);
                (FallAnimation { finished: t.0 == t.1, ..self }, Some((p.0 as i64, p.1 as i64)))
            },
            _ => (self, None),
        }
    }

    /// What the animation shows: its still frame.
    pub open spec fn frame_shown(self) -> DrawCommand {
        DrawCommand { frame: self.frame, mirrored: false }
    }

    /// A drop from `start` to `end` over `duration`, not yet started.
    pub fn new(start: (i64, i64), end: (i64, i64), duration: u64, frame: usize) -> (f: FallAnimation)
        ensures
            f.start_pos == start,
            f.end_pos == end,
            f.duration == duration,
            f.start_time is None,
            !f.finished,
            f.frame == frame,
    {
        FallAnimation { start_pos: start, end_pos: end, duration, start_time: None, finished: false, frame }
    }

    /// Marks the start of the drop at `now`.
    pub fn start(&mut self, now: u64)
        ensures
            *final(self) == old(self).started(now),
    {
        self.start_time = Some(now);
        self.finished = false;
    }

    /// Advances to `now`; returns where the window is to be placed, if anywhere.
    pub fn update(&mut self, now: u64) -> (p: Option<(i64, i64)>)
        ensures
            (*final(self), p) == old(self).advanced(now),
    {
        if self.finished {
            return None;
        }
        match self.start_time {
            None => None,
            Some(s) => {
                let t = progress_at(elapsed_between(s, now), self.duration);
                proof {
                    lemma_lerp_between(self.start_pos.0 as int, self.end_pos.0 as int, t.0 as int, t.1 as int);
                    lemma_lerp_between(self.start_pos.1 as int, self.end_pos.1 as int, t.0 as int, t.1 as int);
                }
                let p = lerp_point_at(self.start_pos, self.end_pos, t);
                self.finished = t.0 == t.1;
                Some(p)
            },
        }
    }

    /// Its still frame, whatever the time.
    pub fn draw(&self, now: u64) -> (d: DrawCommand)
        ensures
            d == self.frame_shown(),
    {
        DrawCommand { frame: self.frame, mirrored: false }
    }

    pub fn is_finished(&self) -> (r: bool)
        ensures
            r == self.finished,
    {
        self.finished
    }
}

} // verus!

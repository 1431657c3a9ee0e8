//! An animation that carries the window in a straight line while the sprite
//! cycles through its frames.
use vstd::prelude::*;

use crate::animation::{
    elapsed_between, elapsed_since, lemma_lerp_between, lerp_point, lerp_point_at, progress,
    progress_at, DrawCommand, SpriteFrames,
};

verus! {

/// How long each frame of the walk cycle shows: five frames a second.
pub const FRAME_PERIOD_MS: u64 = 200;

/// Which way a movement goes; a rightward one shows the sprite mirrored,
/// since the sprites face left.
#[derive(Debug, Clone, Copy, PartialEq, Eq, Structural)]
pub enum Direction {
    Vertical,
    Left,
    Right,
}

/// Carries the window from `start_pos` to `end` over `duration` by linear
/// interpolation, cycling the sprite frames at a fixed rate meanwhile.
#[derive(Debug, Clone, Copy)]
pub struct MoveAnimation {
    pub start_pos: (i64, i64),
    pub end: (i64, i64),
    pub duration: u64,
    pub start_time: u64,
    pub finished: bool,
    pub sprite_frames: SpriteFrames,
    pub current_pos: (i64, i64),
    pub direction: Direction,
}

impl MoveAnimation {
    pub open spec fn wf(&self) -> bool {
        self.sprite_frames.wf()
    }

    /// The animation restarted at `now`.
    pub open spec fn started(self, now: u64) -> MoveAnimation {
        MoveAnimation { start_time: now, finished: false, current_pos: self.start_pos, ..self }
    }

    /// The interpolation parameter at `now`.
    pub open spec fn t_at(self, now: u64) -> (int, int) {
        progress(elapsed_since(self.start_time, now), self.duration)
    }

    /// The animation after an update at `now`: at the interpolated position,
    /// and finished once the parameter reaches one.
    pub open spec fn advanced(self, now: u64) -> MoveAnimation {
        let t = self.t_at(now);
        let p = lerp_point(self.start_pos, self.end, t);
        MoveAnimation {
            current_pos: (p.0 as i64, p.1 as i64),
            finished: self.finished || t.0 == t.1,
            ..self
        }
    }

    /// What the animation shows at `now`: nothing once finished; otherwise
    /// the walk-cycle frame of the elapsed time, independent of the position,
    /// mirrored when going right.
    pub open spec fn frame_at(self, now: u64) -> Option<DrawCommand> {
        if self.finished {
            None
        } else {
            let k = (elapsed_since(self.start_time, now) / FRAME_PERIOD_MS) as int
                % self.sprite_frames.count as int;
            Some(
                DrawCommand {
                    frame: self.sprite_frames.frame(k) as usize,
                    mirrored: self.direction == Direction::Right,
                },
            )
        }
    }

    /// A movement from `start_pos` to `end` over `duration`, not yet started.
    pub fn new(
        start_pos: (i64, i64),
        end: (i64, i64),
        duration: u64,
        sprite_frames: SpriteFrames,
        direction: Direction,
    ) -> (m: MoveAnimation)
        ensures
            m == (MoveAnimation {
                start_pos,
                end,
                duration,
                start_time: 0,
                finished: false,
                sprite_frames,
                current_pos: start_pos,
                direction,
            }),
    {
        MoveAnimation {
            start_pos,
            end,
            duration,
            start_time: 0,
            finished: false,
            sprite_frames,
            current_pos: start_pos,
            direction,
        }
    }

    /// Restarts the movement at `now`, back at its start position.
    pub fn start(&mut self, now: u64)
        ensures
            *final(self) == old(self).started(now),
    {
        self.start_time = now;
        self.finished = false;
        self.current_pos = self.start_pos;
    }

    /// Moves to the position of `now` and returns it: the window is to be
    /// placed there.
    pub fn update(&mut self, now: u64) -> (p: (i64, i64))
        ensures
            *final(self) == old(self).advanced(now),
            p == final(self).current_pos,
    {
        let elapsed = elapsed_between(self.start_time, now);
        let t = progress_at(elapsed, self.duration);
        proof {
            lemma_lerp_between(self.start_pos.0 as int, self.end.0 as int, t.0 as int, t.1 as int);
            lemma_lerp_between(self.start_pos.1 as int, self.end.1 as int, t.0 as int, t.1 as int);
        }
        self.current_pos = lerp_point_at(self.start_pos, self.end, t);
        if t.0 == t.1 {
            self.finished = true;
        }
        self.current_pos
    }

    /// What to draw at `now`.
    pub fn draw(&self, now: u64) -> (d: Option<DrawCommand>)
        requires
            self.wf(),
        ensures
            d == self.frame_at(now),
    {
        if self.finished {
            None
        } else {
            let k = ((elapsed_between(self.start_time, now) / FRAME_PERIOD_MS)
                % (self.sprite_frames.count as u64)) as usize;
            Some(
                DrawCommand {
                    frame: self.sprite_frames.first + k,
                    mirrored: self.direction == Direction::Right,
                },
            )
        }
    }

    pub fn is_finished(&self) -> (r: bool)
        ensures
            r == self.finished,
    {
        self.finished
    }
}

} // verus!

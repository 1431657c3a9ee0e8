//! Time-driven animations of the companion's window and sprite, and the
//! registry that plays at most one of them at a time.
use vstd::arithmetic::div_mod::{lemma_div_by_multiple, lemma_div_is_ordered};
use vstd::arithmetic::mul::lemma_mul_inequality;
use vstd::hash_map::StringHashMap;
use vstd::prelude::*;

pub mod fall;
pub mod idle;
pub mod movement;

use self::fall::FallAnimation;
use self::idle::IdleAnimation;
use self::movement::MoveAnimation;

verus! {

/// An ordered, non-empty run of sprite frames, named by the handles
/// `first, first + 1, ..., first + count - 1` into the frame store that the
/// renderer keeps.
#[derive(Debug, Clone, Copy, PartialEq, Eq, Structural)]
pub struct SpriteFrames {
    pub first: usize,
    pub count: usize,
}

impl SpriteFrames {
    pub open spec fn wf(&self) -> bool {
        self.count > 0 && self.first + self.count <= usize::MAX
    }

    /// The handle of the `k`th frame of the run.
    pub open spec fn frame(&self, k: int) -> int {
        self.first + k
    }
}

/// What to draw for one frame: a sprite frame at the window's origin,
/// mirrored about its own center where `mirrored` is set.
#[derive(Debug, Clone, Copy, PartialEq, Eq, Structural)]
pub struct DrawCommand {
    pub frame: usize,
    pub mirrored: bool,
}

/// Time passed from `start` to `now`; none where `now` is earlier.
pub open spec fn elapsed_since(start: u64, now: u64) -> u64 {
    if now >= start {
        (now - start) as u64
    } else {
        0
    }
}

/// The interpolation parameter `t` of an animation `elapsed` into `duration`,
/// as the fraction `num / den`: `elapsed / duration` clamped to at most one;
/// a zero duration is complete at once.
pub open spec fn progress(elapsed: u64, duration: u64) -> (int, int) {
    if duration == 0 {
        (1, 1)
    } else if elapsed >= duration {
        (duration as int, duration as int)
    } else {
        (elapsed as int, duration as int)
    }
}

/// The point at `num / den` of the way from `a` to `b`, rounded toward `a`.
pub open spec fn lerp(a: int, b: int, num: int, den: int) -> int {
    if a <= b {
        a + (b - a) * num / den
    } else {
        a - (a - b) * num / den
    }
}

/// The position at `t = num / den` of the way from `from` to `to`.
pub open spec fn lerp_point(from: (i64, i64), to: (i64, i64), t: (int, int)) -> (int, int) {
    (lerp(from.0 as int, to.0 as int, t.0, t.1), lerp(from.1 as int, to.1 as int, t.0, t.1))
}

/// The interpolation parameter lies in `[0, 1]` at every elapsed time,
/// before, at and beyond the duration.
pub proof fn lemma_progress_in_unit_interval(elapsed: u64, duration: u64)
    ensures
        progress(elapsed, duration).1 > 0,
        0 <= progress(elapsed, duration).0 <= progress(elapsed, duration).1,
{
}

/// An interpolated coordinate lies between its two ends.
pub proof fn lemma_lerp_between(a: int, b: int, num: int, den: int)
    requires
        0 <= num <= den,
        0 < den,
    ensures
        a <= b ==> a <= lerp(a, b, num, den) <= b,
        b < a ==> b <= lerp(a, b, num, den) <= a,
        num == den ==> lerp(a, b, num, den) == b,
        num == 0 ==> lerp(a, b, num, den) == a,
{
    let x = if a <= b { b - a } else { a - b };
    lemma_offset_bounded(x, num, den);
    if num == den {
        lemma_div_by_multiple(x, den);
    }
    if num == 0 {
        assert(x * num == 0);
    }
}

proof fn lemma_offset_bounded(x: int, num: int, den: int)
    requires
        0 <= x,
        0 <= num <= den,
        0 < den,
    ensures
        0 <= x * num / den <= x,
{
    lemma_mul_inequality(num, den, x);
    assert(num * x == x * num && den * x == x * den) by (nonlinear_arith);
    assert(0 <= x * num) by (nonlinear_arith)
        requires
            0 <= x,
            0 <= num,
    ;
    lemma_div_is_ordered(0, x * num, den);
    lemma_div_is_ordered(x * num, x * den, den);
    lemma_div_by_multiple(x, den);
}

/// The interpolation parameter at `elapsed` into `duration`.
pub fn progress_at(elapsed: u64, duration: u64) -> (t: (u64, u64))
    ensures
        (t.0 as int, t.1 as int) == progress(elapsed, duration),
{
    if duration == 0 {
        (1, 1)
    } else if elapsed >= duration {
        (duration, duration)
    } else {
        (elapsed, duration)
    }
}

/// The coordinate at `num / den` of the way from `a` to `b`.
pub fn lerp_at(a: i64, b: i64, num: u64, den: u64) -> (r: i64)
    requires
        num <= den,
        0 < den,
    ensures
        r == lerp(a as int, b as int, num as int, den as int),
{
    proof {
        lemma_lerp_between(a as int, b as int, num as int, den as int);
    }
    let x: u128 = if a <= b {
        (b as i128 - a as i128) as u128
    } else {
        (a as i128 - b as i128) as u128
    };
    assert(x * (num as u128) <= u128::MAX) by (nonlinear_arith)
        requires
            x <= u64::MAX,
            num <= u64::MAX,
    ;
    let offset: u128 = x * (num as u128) / (den as u128);
    proof {
        lemma_offset_bounded(x as int, num as int, den as int);
    }
    if a <= b {
        (a as i128 + offset as i128) as i64
    } else {
        (a as i128 - offset as i128) as i64
    }
}

/// The position at `t` of the way from `from` to `to`.
pub fn lerp_point_at(from: (i64, i64), to: (i64, i64), t: (u64, u64)) -> (p: (i64, i64))
    requires
        t.0 <= t.1,
        0 < t.1,
    ensures
        (p.0 as int, p.1 as int) == lerp_point(from, to, (t.0 as int, t.1 as int)),
{
    (lerp_at(from.0, to.0, t.0, t.1), lerp_at(from.1, to.1, t.0, t.1))
}

/// The time passed from `start` to `now`.
pub fn elapsed_between(start: u64, now: u64) -> (e: u64)
    ensures
        e == elapsed_since(start, now),
{
    if now >= start {
        now - start
    } else {
        0
    }
}

/// One of the companion's animations. Each has a start, an update that may
/// place the window, a drawing, and a finished state.
#[derive(Debug, Clone, Copy)]
pub enum Animation {
    Idle(IdleAnimation),
    Move(MoveAnimation),
    Fall(FallAnimation),
}

impl Animation {
    pub open spec fn wf(self) -> bool {
        match self {
            Animation::Move(m) => m.wf(),
            _ => true,
        }
    }

    /// The animation restarted at `now`.
    pub open spec fn started(self, now: u64) -> Animation {
        match self {
            Animation::Idle(i) => Animation::Idle(i),
            Animation::Move(m) => Animation::Move(m.started(now)),
            Animation::Fall(f) => Animation::Fall(f.started(now)),
        }
    }

    /// The animation after an update at `now`, and where the window is to be
    /// placed, if anywhere.
    pub open spec fn advanced(self, now: u64) -> (Animation, Option<(i64, i64)>) {
        match self {
            Animation::Idle(i) => (Animation::Idle(i), None),
            Animation::Move(m) => (Animation::Move(m.advanced(now)), Some(m.advanced(now).current_pos)),
            Animation::Fall(f) => (Animation::Fall(f.advanced(now).0), f.advanced(now).1),
        }
    }

    /// What the animation shows at `now`.
    pub open spec fn frame_at(self, now: u64) -> Option<DrawCommand> {
        match self {
            Animation::Idle(i) => Some(i.frame_shown()),
            Animation::Move(m) => m.frame_at(now),
            Animation::Fall(f) => Some(f.frame_shown()),
        }
    }

    pub open spec fn is_done(self) -> bool {
        match self {
            Animation::Idle(_) => true,
            Animation::Move(m) => m.finished,
            Animation::Fall(f) => f.finished,
        }
    }

    /// Restarts the animation at `now`.
    pub fn start(&mut self, now: u64)
        ensures
            *final(self) == old(self).started(now),
    {
        match *self {
            Animation::Idle(mut i) => {
                i.start(now);
                *self = Animation::Idle(i);
            },
            Animation::Move(mut m) => {
                m.start(now);
                *self = Animation::Move(m);
            },
            Animation::Fall(mut f) => {
                f.start(now);
                *self = Animation::Fall(f);
            },
        }
    }

    /// Advances the animation to `now`; returns where the window is to be
    /// placed, if anywhere.
    pub fn update(&mut self, now: u64) -> (p: Option<(i64, i64)>)
        ensures
            (*final(self), p) == old(self).advanced(now),
    {
        match *self {
            Animation::Idle(mut i) => {
                i.update(now);
                *self = Animation::Idle(i);
                None
            },
            Animation::Move(mut m) => {
                let p = m.update(now);
                *self = Animation::Move(m);
                Some(p)
            },
            Animation::Fall(mut f) => {
                let p = f.update(now);
                *self = Animation::Fall(f);
                p
            },
        }
    }

    /// What to draw at `now`, if anything.
    pub fn draw(&self, now: u64) -> (d: Option<DrawCommand>)
        requires
            self.wf(),
        ensures
            d == self.frame_at(now),
    {
        match self {
            Animation::Idle(i) => Some(i.draw(now)),
            Animation::Move(m) => m.draw(now),
            Animation::Fall(f) => Some(f.draw(now)),
        }
    }

    pub fn is_finished(&self) -> (r: bool)
        ensures
            r == self.is_done(),
    {
        match self {
            Animation::Idle(i) => i.is_finished(),
            Animation::Move(m) => m.is_finished(),
            Animation::Fall(f) => f.is_finished(),
        }
    }
}

/// The name under which the fallback animation is registered.
pub open spec fn idle_name() -> Seq<char> {
    "idle"@
}

/// The registry as values: the animations by name, and the name of the one
/// that plays, if any.
pub struct RegistryView {
    pub animations: Map<Seq<char>, Animation>,
    pub active: Option<Seq<char>>,
}

impl RegistryView {
    /// The active name, if any, names a registered animation, and every
    /// animation can be drawn. So at most one animation plays at any time,
    /// and it is one that the registry holds.
    pub open spec fn wf(self) -> bool {
        &&& self.active matches Some(n) ==> self.animations.contains_key(n)
        &&& forall|k: Seq<char>| #[trigger] self.animations.contains_key(k) ==> self.animations[k].wf()
    }

    /// `a` registered under `name`, replacing what was there; the active
    /// name stays.
    pub open spec fn pushed(self, name: Seq<char>, a: Animation) -> RegistryView {
        RegistryView { animations: self.animations.insert(name, a), active: self.active }
    }

    /// The animation under `name` restarted at `now` and made active; with
    /// no such animation, nothing changes.
    pub open spec fn activated(self, name: Seq<char>, now: u64) -> RegistryView {
        if self.animations.contains_key(name) {
            RegistryView {
                animations: self.animations.insert(name, self.animations[name].started(now)),
                active: Some(name),
            }
        } else {
            self
        }
    }

    /// The registry after a tick at `now`, and where the window is to be
    /// placed: the active animation advances, and leaves the active slot in
    /// the same tick if it is then finished. With nothing active, or an
    /// active name that names nothing, nothing changes.
    pub open spec fn ticked(self, now: u64) -> (RegistryView, Option<(i64, i64)>) {
        match self.active {
            Some(n) if self.animations.contains_key(n) => {
                let (a, p) = self.animations[n].advanced(now);
                (
                    RegistryView {
                        animations: self.animations.insert(n, a),
                        active: if a.is_done() {
                            None
                        } else {
                            Some(n)
                        },
                    },
                    p,
                )
            },
            _ => (self, None),
        }
    }

    /// What is drawn at `now`: the active animation, or else the one named
    /// "idle", or else nothing.
    pub open spec fn shown(self, now: u64) -> Option<DrawCommand> {
        match self.active {
            Some(n) if self.animations.contains_key(n) => self.animations[n].frame_at(now),
            _ => if self.animations.contains_key(idle_name()) {
                self.animations[idle_name()].frame_at(now)
            } else {
                None
            },
        }
    }
}

/// A name-keyed registry of animations, of which at most one is active.
pub struct CompanionAnimations {
    pub animations: StringHashMap<Animation>,
    pub active: Option<String>,
}

impl View for CompanionAnimations {
    type V = RegistryView;

    open spec fn view(&self) -> RegistryView {
        RegistryView {
            animations: self.animations@,
            active: match self.active {
                Some(n) => Some(n@),
                None => None,
            },
        }
    }
}

impl CompanionAnimations {
    /// An empty registry with nothing active.
    pub fn new() -> (r: CompanionAnimations)
        ensures
            r@.animations == Map::<Seq<char>, Animation>::empty(),
            r@.active is None,
            r@.wf(),
    {
        CompanionAnimations { animations: StringHashMap::new(), active: None }
    }

    /// Registers `animation` under `name`, replacing any animation there;
    /// what is active stays as it was.
    pub fn push(&mut self, animation: Animation, name: String)
        requires
            animation.wf(),
        ensures
            final(self)@ == old(self)@.pushed(name@, animation),
            old(self)@.wf() ==> final(self)@.wf(),
    {
        self.animations.insert(name, animation);
    }

    /// Restarts the animation under `name` at `now` and makes it active;
    /// an unknown name is no error, and changes nothing.
    pub fn start(&mut self, name: &str, now: u64)
        ensures
            final(self)@ == old(self)@.activated(name@, now),
            old(self)@.wf() ==> final(self)@.wf(),
    {
        let found: Option<Animation> = match self.animations.get(name) {
            Some(a) => Some(*a),
            None => None,
        };
        if let Some(mut a) = found {
            a.start(now);
            self.animations.insert(name.to_owned(), a);
            self.active = Some(name.to_owned());
            assert(final(self)@.animations =~= old(self)@.animations.insert(name@, a));
        }
    }

    /// Advances the active animation to `now`, and clears the active slot if
    /// it is then finished. Returns where the window is to be placed, if
    /// anywhere.
    pub fn update(&mut self, now: u64) -> (p: Option<(i64, i64)>)
        ensures
            (final(self)@, p) == old(self)@.ticked(now),
            old(self)@.wf() ==> final(self)@.wf(),
    {
        let name: String = match &self.active {
            Some(n) => n.as_str().to_owned(),
            None => return None,
        };
        let found: Option<Animation> = match self.animations.get(name.as_str()) {
            Some(a) => Some(*a),
            None => None,
        };
        match found {
            None => None,
            Some(mut a) => {
                let p = a.update(now);
                let done = a.is_finished();
                self.animations.insert(name, a);
                if done {
                    self.active = None;
                }
                p
            },
        }
    }

    /// What to draw at `now`: the active animation, or else the one named
    /// "idle", or else nothing. Changes nothing.
    pub fn draw(&self, now: u64) -> (d: Option<DrawCommand>)
        requires
            self@.wf(),
        ensures
            d == self@.shown(now),
    {
        if let Some(n) = &self.active {
            if let Some(a) = self.animations.get(n.as_str()) {
                return a.draw(now);
            }
        }
        match self.animations.get("idle") {
            Some(a) => a.draw(now),
            None => None,
        }
    }
}

/// The idle animation is finished whatever was done to it before, and always
/// shows frame zero of its run, unmirrored.
pub proof fn lemma_idle_always_finished(i: IdleAnimation, started_at: u64, updated_at: u64, now: u64)
    ensures
        Animation::Idle(i).is_done(),
        Animation::Idle(i).started(started_at).is_done(),
        Animation::Idle(i).started(started_at).advanced(updated_at).0.is_done(),
        Animation::Idle(i).started(started_at).advanced(updated_at).0.frame_at(now) == Some(
            DrawCommand { frame: i.sprite_frames.first, mirrored: false },
        ),
{
}

/// A movement or a drop updated at or after the end of its duration stands
/// at its end and is finished, and stays there on later updates.
pub proof fn lemma_rests_at_end(m: MoveAnimation, f: FallAnimation, now: u64, later: u64)
    requires
        elapsed_since(m.start_time, now) >= m.duration,
        f.start_time matches Some(s) && elapsed_since(s, now) >= f.duration && !f.finished,
        now <= later,
    ensures
        m.advanced(now).current_pos == m.end,
        m.advanced(now).finished,
        m.advanced(now).advanced(later).current_pos == m.end,
        f.advanced(now).1 == Some(f.end_pos),
        f.advanced(now).0.finished,
        f.advanced(now).0.advanced(later).1 is None,
{
    let t = progress(elapsed_since(m.start_time, now), m.duration);
    lemma_lerp_between(m.start_pos.0 as int, m.end.0 as int, t.0, t.1);
    lemma_lerp_between(m.start_pos.1 as int, m.end.1 as int, t.0, t.1);
    let u = progress(elapsed_since(m.start_time, later), m.duration);
    lemma_lerp_between(m.start_pos.0 as int, m.end.0 as int, u.0, u.1);
    lemma_lerp_between(m.start_pos.1 as int, m.end.1 as int, u.0, u.1);
    let s = f.start_time->0;
    let v = progress(elapsed_since(s, now), f.duration);
    lemma_lerp_between(f.start_pos.0 as int, f.end_pos.0 as int, v.0, v.1);
    lemma_lerp_between(f.start_pos.1 as int, f.end_pos.1 as int, v.0, v.1);
}

/// The registry never has more than one active animation, and the active
/// one is always registered: an empty registry holds this, and registering,
/// activating and ticking keep it.
pub proof fn lemma_single_active(r: RegistryView, name: Seq<char>, a: Animation, now: u64)
    requires
        r.wf(),
        a.wf(),
    ensures
        (RegistryView { animations: Map::empty(), active: None }).wf(),
        r.pushed(name, a).wf(),
        r.activated(name, now).wf(),
        r.ticked(now).0.wf(),
{
}

} // verus!

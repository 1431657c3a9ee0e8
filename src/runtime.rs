//! The companion at run time: its entrance, its autonomous behavior, and the
//! pointer drags that override it. Each frame and each pointer event is a
//! step from the state and what the window reports to the next state and
//! where the window is to be placed.
use vstd::hash_map::StringHashMap;
use vstd::prelude::*;

use crate::animation::fall::FallAnimation;
use crate::animation::idle::IdleAnimation;
use crate::animation::movement::{Direction, MoveAnimation};
use crate::animation::{idle_name, Animation, CompanionAnimations, DrawCommand, RegistryView, SpriteFrames};
use crate::behavior::{
    choices_total, is_standard, total_weight, Behavior, BehaviorManager, DECISION_INTERVAL_MS,
};
use crate::chance::random_in;
use crate::companion::Companion;

verus! {

/// Height above the top of the screen at which the entrance begins.
pub const ENTRANCE_TOP: i64 = -50;

/// How long a drop to the ground takes.
pub const FALL_DURATION_MS: u64 = 600;

/// The shortest step of a walk.
pub const MIN_STEP: u64 = 50;

/// The bound, not reached, on the step of a walk.
pub const MAX_STEP: u64 = 200;

/// The shortest walk: no walk is over at once.
pub const MIN_WALK_MS: u64 = 100;

/// How long a walk takes where the companion has no positive speed.
pub const FALLBACK_WALK_MS: u64 = 500;

/// A pointer button.
#[derive(Debug, Clone, Copy, PartialEq, Eq, Structural)]
pub enum PointerButton {
    Left,
    Right,
    Middle,
    Other,
}

pub open spec fn walk_name() -> Seq<char> {
    "walk"@
}

pub open spec fn fall_name() -> Seq<char> {
    "fall"@
}

/// Where a walk of `step` from `cur_x` ends: to the left, not past the
/// screen's left edge; to the right, not past the place where the sprite
/// touches the right edge.
pub open spec fn walk_target(b: Behavior, cur_x: int, step: int, monitor_width: int, width: int) -> int {
    if b == Behavior::WalkLeft {
        if cur_x - step < 0 {
            0
        } else {
            cur_x - step
        }
    } else {
        if cur_x + step > monitor_width - width {
            monitor_width - width
        } else {
            cur_x + step
        }
    }
}

/// How long a walk of `distance` takes at `walkspeed` pixels a second: never
/// under the shortest walk, and a fixed time where the speed is zero.
pub open spec fn walk_duration(distance: int, walkspeed: int) -> int {
    if walkspeed > 0 {
        let d = distance * 1000 / walkspeed;
        if d < MIN_WALK_MS {
            MIN_WALK_MS as int
        } else {
            d
        }
    } else {
        FALLBACK_WALK_MS as int
    }
}

pub open spec fn abs(x: int) -> int {
    if x < 0 {
        -x
    } else {
        x
    }
}

/// The frames of each animation by name, from a list of entries in which a
/// later entry for a name replaces an earlier one.
pub open spec fn frame_cache(entries: Seq<(String, SpriteFrames)>) -> Map<Seq<char>, SpriteFrames>
    decreases entries.len(),
{
    if entries.len() == 0 {
        Map::empty()
    } else {
        frame_cache(entries.drop_last()).insert(entries.last().0@, entries.last().1)
    }
}

/// The companion's state as values.
pub struct AppView {
    pub companion: Companion,
    pub registry: RegistryView,
    pub behavior: BehaviorManager,
    pub monitor_size: (u32, u32),
    pub dragging: bool,
    pub drag_coords: (i64, i64),
    pub window_start: (i64, i64),
    pub frames: Map<Seq<char>, SpriteFrames>,
    pub initialized: bool,
}

impl AppView {
    pub open spec fn wf(self) -> bool {
        &&& self.registry.wf()
        &&& self.behavior.wf()
        &&& self.frames.contains_key(idle_name())
        &&& self.frames[idle_name()].wf()
        &&& self.frames.contains_key(walk_name())
        &&& self.frames[walk_name()].wf()
        &&& i32::MIN <= self.window_start.0 <= i32::MAX
        &&& i32::MIN <= self.window_start.1 <= i32::MAX
        &&& 2 * i32::MIN <= self.drag_coords.0 <= 2 * i32::MAX
        &&& 2 * i32::MIN <= self.drag_coords.1 <= 2 * i32::MAX
    }

    /// The resting height: the window's top when the sprite touches the
    /// bottom of the screen.
    pub open spec fn ground_line(self) -> int {
        self.monitor_size.1 - self.companion.height
    }

    pub open spec fn with_registry(self, r: RegistryView) -> AppView {
        AppView { registry: r, ..self }
    }

    /// `a` registered under `name` and made active at `now`.
    pub open spec fn playing(self, a: Animation, name: Seq<char>, now: u64) -> AppView {
        self.with_registry(self.registry.pushed(name, a).activated(name, now))
    }

    /// The entrance: a drop from above the screen, centered, to the ground.
    pub open spec fn entrance(self) -> FallAnimation {
        let x = (self.monitor_size.0 / 2) as i64;
        FallAnimation {
            start_pos: (x, ENTRANCE_TOP),
            end_pos: (x, self.ground_line() as i64),
            duration: FALL_DURATION_MS,
            start_time: None,
            finished: false,
            frame: self.frames[idle_name()].first,
        }
    }

    /// The bootstrap: once the window is visible, it is placed centered at
    /// the top and the entrance plays; before that, nothing happens.
    pub open spec fn initialized_at(self, visible: bool, now: u64) -> (AppView, Option<(i64, i64)>) {
        if visible {
            (
                AppView {
                    initialized: true,
                    ..self.playing(Animation::Fall(self.entrance()), fall_name(), now)
                },
                Some(((self.monitor_size.0 / 2) as i64, 0i64)),
            )
        } else {
            (self, None)
        }
    }

    /// The walk that `b` makes from `cur` with a step of `step`.
    pub open spec fn walk(self, b: Behavior, cur: (i32, i32), step: int) -> MoveAnimation {
        let target = walk_target(
            b,
            cur.0 as int,
            step,
            self.monitor_size.0 as int,
            self.companion.width as int,
        );
        MoveAnimation {
            start_pos: (cur.0 as i64, cur.1 as i64),
            end: (target as i64, cur.1 as i64),
            duration: walk_duration(abs(target - cur.0), self.companion.walkspeed as int) as u64,
            start_time: 0,
            finished: false,
            sprite_frames: self.frames[walk_name()],
            current_pos: (cur.0 as i64, cur.1 as i64),
            direction: if b == Behavior::WalkLeft {
                Direction::Left
            } else {
                Direction::Right
            },
        }
    }

    /// The state after `b` is acted on at `now`, with the window at `cur` if
    /// known: idling plays the idle animation; a walk plays a walk of `step`
    /// where the window's position is known, and is skipped where it is not;
    /// a fall or a jump does nothing.
    pub open spec fn behavior_started(
        self,
        b: Behavior,
        cur: Option<(i32, i32)>,
        step: int,
        now: u64,
    ) -> AppView {
        match b {
            Behavior::Idle => self.playing(
                Animation::Idle(IdleAnimation { sprite_frames: self.frames[idle_name()] }),
                idle_name(),
                now,
            ),
            Behavior::WalkLeft | Behavior::WalkRight => match cur {
                Some(c) => self.playing(Animation::Move(self.walk(b, c, step)), walk_name(), now),
                None => self,
            },
            _ => self,
        }
    }

    /// One frame at `now`, given whether the window is visible and where it
    /// is, with `draw` for a behavior decision and `step` for a walk. Before
    /// the bootstrap, it is tried; after it, with nothing active, a decision
    /// is polled and acted on. Then, unless a drag is on, the active
    /// animation advances. The result places the window where the last of
    /// these placed it, if anywhere.
    pub open spec fn frame_step(
        self,
        visible: bool,
        window_pos: Option<(i32, i32)>,
        now: u64,
        draw: int,
        step: int,
    ) -> (AppView, Option<(i64, i64)>) {
        let (s1, p1) = if !self.initialized {
            self.initialized_at(visible, now)
        } else if self.registry.active is None {
            let (m, r) = self.behavior.decision(now, draw);
            let s = AppView { behavior: m, ..self };
            (
                match r {
                    Some(b) => s.behavior_started(b, window_pos, step, now),
                    None => s,
                },
                None,
            )
        } else {
            (self, None)
        };
        if s1.dragging {
            (s1, p1)
        } else {
            let (reg, p2) = s1.registry.ticked(now);
            (
                s1.with_registry(reg),
                if p2 is Some {
                    p2
                } else {
                    p1
                },
            )
        }
    }

    /// A press of `button` at `(x, y)` in the window, the window being at
    /// `window_pos` if known. A left press makes the idle animation active
    /// and, where the window's position is known, starts a drag anchored at
    /// the pointer's screen position and the window's position.
    pub open spec fn pressed(
        self,
        button: PointerButton,
        x: i32,
        y: i32,
        window_pos: Option<(i32, i32)>,
        now: u64,
    ) -> AppView {
        if button == PointerButton::Left {
            let s = self.with_registry(self.registry.activated(idle_name(), now));
            match window_pos {
                Some(w) => AppView {
                    drag_coords: ((x + w.0) as i64, (y + w.1) as i64),
                    window_start: (w.0 as i64, w.1 as i64),
                    dragging: true,
                    ..s
                },
                None => s,
            }
        } else {
            self
        }
    }

    /// Where a pointer move to `(x, y)` in the window places the window:
    /// during a drag, at its anchor moved by as much as the pointer moved on
    /// the screen; nowhere otherwise, or where the window's position is
    /// unknown.
    pub open spec fn drag_target(self, x: i32, y: i32, window_pos: Option<(i32, i32)>) -> Option<(i64, i64)> {
        match window_pos {
            Some(w) if self.dragging => Some(
                (
                    (self.window_start.0 + (x + w.0 - self.drag_coords.0)) as i64,
                    (self.window_start.1 + (y + w.1 - self.drag_coords.1)) as i64,
                ),
            ),
            _ => None,
        }
    }

    /// A drop from `pos` straight down, or up, to the ground.
    pub open spec fn landing(self, pos: (i32, i32)) -> FallAnimation {
        FallAnimation {
            start_pos: (pos.0 as i64, pos.1 as i64),
            end_pos: (pos.0 as i64, self.ground_line() as i64),
            duration: FALL_DURATION_MS,
            start_time: None,
            finished: false,
            frame: self.frames[idle_name()].first,
        }
    }

    /// A release: the drag ends, and where the window is known to be off the
    /// ground, a drop to the ground plays.
    pub open spec fn released(self, window_pos: Option<(i32, i32)>, now: u64) -> AppView {
        let s = AppView { dragging: false, ..self };
        match window_pos {
            Some(w) if w.1 != s.ground_line() => s.playing(
                Animation::Fall(s.landing(w)),
                fall_name(),
                now,
            ),
            _ => s,
        }
    }
}

/// The companion's runtime: its animations, its behavior, and its drag state.
pub struct CompanionApp {
    pub companion_data: Companion,
    pub animations: CompanionAnimations,
    pub behavior: BehaviorManager,
    /// Width and height of the monitor, in pixels.
    pub monitor_size: (u32, u32),
    pub dragging: bool,
    /// The pointer's screen position when the drag began.
    pub drag_coords: (i64, i64),
    /// The window's position when the drag began.
    pub window_start: (i64, i64),
    /// The sprite frames of each animation, by name.
    pub frames: StringHashMap<SpriteFrames>,
    pub initialized: bool,
}

impl View for CompanionApp {
    type V = AppView;

    open spec fn view(&self) -> AppView {
        AppView {
            companion: self.companion_data,
            registry: self.animations@,
            behavior: self.behavior,
            monitor_size: self.monitor_size,
            dragging: self.dragging,
            drag_coords: self.drag_coords,
            window_start: self.window_start,
            frames: self.frames@,
            initialized: self.initialized,
        }
    }
}

impl CompanionApp {
    /// A companion that has not appeared yet, created at `now`, with the
    /// frames of each animation (a later entry for a name replaces an
    /// earlier one), on a monitor of `monitor_size`. Only the idle animation
    /// is registered, and nothing is active.
    pub fn new(
        companion_data: Companion,
        frames: Vec<(String, SpriteFrames)>,
        monitor_size: (u32, u32),
        now: u64,
    ) -> (app: CompanionApp)
        requires
            frame_cache(frames@).contains_key(idle_name()),
            frame_cache(frames@)[idle_name()].wf(),
            frame_cache(frames@).contains_key(walk_name()),
            frame_cache(frames@)[walk_name()].wf(),
        ensures
            app@.wf(),
            app.companion_data == companion_data,
            app.frames@ == frame_cache(frames@),
            app.monitor_size == monitor_size,
            app@.registry.animations == Map::<Seq<char>, Animation>::empty().insert(
                idle_name(),
                Animation::Idle(IdleAnimation { sprite_frames: frame_cache(frames@)[idle_name()] }),
            ),
            app@.registry.active is None,
            app.behavior.current is None,
            app.behavior.previous is None,
            app.behavior.last_change == now,
            app.behavior.interval == DECISION_INTERVAL_MS,
            is_standard(app.behavior.table),
            !app.dragging,
            app.drag_coords == (0i64, 0i64),
            app.window_start == (0i64, 0i64),
            !app.initialized,
    {
        let cache = Self::build_cache(frames);
        let idle = Self::frames_in(&cache, "idle");
        let mut animations = CompanionAnimations::new();
        animations.push(Animation::Idle(IdleAnimation { sprite_frames: idle }), "idle".to_owned());
        CompanionApp {
            companion_data,
            animations,
            behavior: BehaviorManager::new(DECISION_INTERVAL_MS, now),
            monitor_size,
            dragging: false,
            drag_coords: (0, 0),
            window_start: (0, 0),
            frames: cache,
            initialized: false,
        }
    }

    /// The frame cache of `entries`.
    fn build_cache(entries: Vec<(String, SpriteFrames)>) -> (m: StringHashMap<SpriteFrames>)
        ensures
            m@ == frame_cache(entries@),
    {
        let mut m = StringHashMap::new();
        let n = entries.len();
        let mut i: usize = 0;
        while i < n
            invariant
                n == entries@.len(),
                i <= n,
                m@ == frame_cache(entries@.take(i as int)),
            decreases n - i,
        {
            let (name, f) = &entries[i];
            m.insert(name.as_str().to_owned(), *f);
            assert(entries@.take(i + 1).drop_last() =~= entries@.take(i as int));
            i = i + 1;
        }
        assert(entries@.take(n as int) =~= entries@);
        m
    }

    /// The frames registered under `name`.
    fn frames_in(frames: &StringHashMap<SpriteFrames>, name: &str) -> (f: SpriteFrames)
        requires
            frames@.contains_key(name@),
        ensures
            f == frames@[name@],
    {
        match frames.get(name) {
            Some(f) => *f,
            None => SpriteFrames { first: 0, count: 1 },
        }
    }

    /// Registers `animation` under `name` and makes it active at `now`.
    pub fn start_animation(&mut self, animation: Animation, name: &str, now: u64)
        requires
            old(self)@.wf(),
            animation.wf(),
        ensures
            final(self)@ == old(self)@.playing(animation, name@, now),
            final(self)@.wf(),
    {
        self.animations.push(animation, name.to_owned());
        self.animations.start(name, now);
    }

    /// The resting height of the window.
    fn ground_line(&self) -> (g: i64)
        ensures
            g == self@.ground_line(),
    {
        self.monitor_size.1 as i64 - self.companion_data.height as i64
    }

    /// Tries the bootstrap at `now`: once the window is visible, returns the
    /// centered place at the top of the screen for it and plays the
    /// entrance; before that, does nothing.
    pub fn initialize(&mut self, visible: bool, now: u64) -> (p: Option<(i64, i64)>)
        requires
            old(self)@.wf(),
        ensures
            (final(self)@, p) == old(self)@.initialized_at(visible, now),
            final(self)@.wf(),
    {
        if !visible {
            return None;
        }
        let x = (self.monitor_size.0 / 2) as i64;
        let idle = Self::frames_in(&self.frames, "idle");
        let fall = FallAnimation::new((x, ENTRANCE_TOP), (x, self.ground_line()), FALL_DURATION_MS, idle.first);
        self.start_animation(Animation::Fall(fall), "fall", now);
        self.initialized = true;
        Some((x, 0))
    }

    /// Acts on `b` at `now`, the window being at `cur` if known, with a step
    /// of `step` for a walk.
    pub fn start_behavior_with_step(&mut self, b: Behavior, cur: Option<(i32, i32)>, step: u64, now: u64)
        requires
            old(self)@.wf(),
            MIN_STEP <= step < MAX_STEP,
        ensures
            final(self)@ == old(self)@.behavior_started(b, cur, step as int, now),
            final(self)@.wf(),
    {
        match b {
            Behavior::Idle => {
                let idle = Self::frames_in(&self.frames, "idle");
                self.start_animation(Animation::Idle(IdleAnimation { sprite_frames: idle }), "idle", now);
            },
            Behavior::WalkLeft | Behavior::WalkRight => {
                if let Some(c) = cur {
                    let walk = self.walk(b, c, step);
                    self.start_animation(Animation::Move(walk), "walk", now);
                }
            },
            Behavior::Fall | Behavior::Jump => {},
        }
    }

    /// The walk that `b` makes from `cur` with a step of `step`.
    fn walk(&self, b: Behavior, cur: (i32, i32), step: u64) -> (m: MoveAnimation)
        requires
            self@.wf(),
            step < MAX_STEP,
        ensures
            m == self@.walk(b, cur, step as int),
            m.wf(),
    {
        let cur_x = cur.0 as i64;
        let step = step as i64;
        let target: i64 = if b == Behavior::WalkLeft {
            if cur_x - step < 0 {
                0
            } else {
                cur_x - step
            }
        } else {
            let right = self.monitor_size.0 as i64 - self.companion_data.width as i64;
            if cur_x + step > right {
                right
            } else {
                cur_x + step
            }
        };
        let distance: u64 = if target < cur_x {
            (cur_x - target) as u64
        } else {
            (target - cur_x) as u64
        };
        let speed = self.companion_data.walkspeed as u64;
        let duration: u64 = if speed > 0 {
            let d = distance * 1000 / speed;
            if d < MIN_WALK_MS {
                MIN_WALK_MS
            } else {
                d
            }
        } else {
            FALLBACK_WALK_MS
        };
        let frames = Self::frames_in(&self.frames, "walk");
        let direction = if b == Behavior::WalkLeft {
            Direction::Left
        } else {
            Direction::Right
        };
        MoveAnimation::new(
            (cur_x, cur.1 as i64),
            (target, cur.1 as i64),
            duration,
            frames,
            direction,
        )
    }

    /// Acts on `b` at `now`, the window being at `cur` if known, drawing the
    /// step of a walk at random: the result is that of some step in
    /// `[MIN_STEP, MAX_STEP)`.
    pub fn start_behavior(&mut self, b: Behavior, cur: Option<(i32, i32)>, now: u64)
        requires
            old(self)@.wf(),
        ensures
            exists|step: int|
                MIN_STEP <= step < MAX_STEP && final(self)@ == old(self)@.behavior_started(
                    b,
                    cur,
                    step,
                    now,
                ),
            final(self)@.wf(),
    {
        let step = random_in(MIN_STEP, MAX_STEP);
        self.start_behavior_with_step(b, cur, step, now);
    }
}

impl CompanionApp {
    /// One frame at `now`: the window is `visible` or not and at `window_pos`
    /// if known; `draw` serves a behavior decision and `step` a walk. Returns
    /// where the window is to be placed, if anywhere.
    pub fn update_with(
        &mut self,
        visible: bool,
        window_pos: Option<(i32, i32)>,
        now: u64,
        draw: u64,
        step: u64,
    ) -> (p: Option<(i64, i64)>)
        requires
            old(self)@.wf(),
            draw < total_weight(old(self).behavior.next_choices()),
            MIN_STEP <= step < MAX_STEP,
        ensures
            (final(self)@, p) == old(self)@.frame_step(visible, window_pos, now, draw as int, step as int),
            final(self)@.wf(),
    {
        let mut placed: Option<(i64, i64)> = None;
        if !self.initialized {
            placed = self.initialize(visible, now);
        } else if self.animations.active.is_none() {
            if let Some(b) = self.behavior.update_with_draw(now, draw) {
                self.start_behavior_with_step(b, window_pos, step, now);
            }
        }
        if !self.dragging {
            let p = self.animations.update(now);
            if p.is_some() {
                placed = p;
            }
        }
        placed
    }

    /// One frame at `now`, drawing at random for a behavior decision and for
    /// the step of a walk: the result is that of some draw below the total
    /// weight of the choices and some step in `[MIN_STEP, MAX_STEP)`.
    pub fn update(&mut self, visible: bool, window_pos: Option<(i32, i32)>, now: u64) -> (p: Option<(i64, i64)>)
        requires
            old(self)@.wf(),
        ensures
            exists|draw: int, step: int|
                0 <= draw < total_weight(old(self).behavior.next_choices()) && MIN_STEP <= step
                    < MAX_STEP && (final(self)@, p) == old(self)@.frame_step(
                    visible,
                    window_pos,
                    now,
                    draw,
                    step,
                ),
            final(self)@.wf(),
    {
        proof {
            self.behavior.table.lemma_choices_valid(self.behavior.current);
        }
        let total = match choices_total(self.behavior.table.lookup(self.behavior.current)) {
            Some(t) => t,
            None => 1,
        };
        let draw = random_in(0, total);
        let step = random_in(MIN_STEP, MAX_STEP);
        self.update_with(visible, window_pos, now, draw, step)
    }

    /// A press of `button` at `(x, y)` in the window at `now`, the window
    /// being at `window_pos` if known.
    pub fn mouse_button_down_event(
        &mut self,
        button: PointerButton,
        x: i32,
        y: i32,
        window_pos: Option<(i32, i32)>,
        now: u64,
    )
        requires
            old(self)@.wf(),
        ensures
            final(self)@ == old(self)@.pressed(button, x, y, window_pos, now),
            final(self)@.wf(),
    {
        if button == PointerButton::Left {
            self.animations.start("idle", now);
            if let Some(w) = window_pos {
                self.drag_coords = (x as i64 + w.0 as i64, y as i64 + w.1 as i64);
                self.window_start = (w.0 as i64, w.1 as i64);
                self.dragging = true;
            }
        }
    }

    /// A pointer move to `(x, y)` in the window, the window being at
    /// `window_pos` if known. Returns where the window is to be placed.
    pub fn mouse_motion_event(&self, x: i32, y: i32, window_pos: Option<(i32, i32)>) -> (p: Option<(i64, i64)>)
        requires
            self@.wf(),
        ensures
            p == self@.drag_target(x, y, window_pos),
    {
        match window_pos {
            Some(w) if self.dragging => {
                let dx = x as i64 + w.0 as i64 - self.drag_coords.0;
                let dy = y as i64 + w.1 as i64 - self.drag_coords.1;
                Some((self.window_start.0 + dx, self.window_start.1 + dy))
            },
            _ => None,
        }
    }

    /// A release of a pointer button at `now`, the window being at
    /// `window_pos` if known.
    pub fn mouse_button_up_event(&mut self, window_pos: Option<(i32, i32)>, now: u64)
        requires
            old(self)@.wf(),
        ensures
            final(self)@ == old(self)@.released(window_pos, now),
            final(self)@.wf(),
    {
        self.dragging = false;
        if let Some(w) = window_pos {
            if w.1 as i64 != self.ground_line() {
                let idle = Self::frames_in(&self.frames, "idle");
                let fall = FallAnimation::new(
                    (w.0 as i64, w.1 as i64),
                    (w.0 as i64, self.ground_line()),
                    FALL_DURATION_MS,
                    idle.first,
                );
                self.start_animation(Animation::Fall(fall), "fall", now);
            }
        }
    }

    /// What to draw at `now`. Changes nothing.
    pub fn draw(&self, now: u64) -> (d: Option<DrawCommand>)
        requires
            self@.wf(),
        ensures
            d == self@.registry.shown(now),
    {
        self.animations.draw(now)
    }
}

/// A drag. A left press at `(x, y)` in the window, with the window at `w`,
/// starts a drag; a move of the pointer to `(x2, y2)` in the window, with
/// the window at `w2`, places the window at `w` shifted by as much as the
/// pointer moved on the screen; a release with the window at `w3` off the
/// ground ends the drag and plays a drop that ends on the ground line, right
/// below or above `w3`.
pub proof fn lemma_drag(
    s: AppView,
    x: i32,
    y: i32,
    w: (i32, i32),
    x2: i32,
    y2: i32,
    w2: (i32, i32),
    w3: (i32, i32),
    t1: u64,
    t2: u64,
)
    requires
        s.wf(),
    ensures
        ({
            let s1 = s.pressed(PointerButton::Left, x, y, Some(w), t1);
            &&& s1.dragging
            &&& s1.drag_target(x2, y2, Some(w2)) == Some(
                (
                    (w.0 + ((x2 + w2.0) - (x + w.0))) as i64,
                    (w.1 + ((y2 + w2.1) - (y + w.1))) as i64,
                ),
            )
            &&& w3.1 != s.ground_line() ==> {
                let s2 = s1.released(Some(w3), t2);
                &&& !s2.dragging
                &&& s2.registry.active == Some(fall_name())
                &&& s2.registry.animations[fall_name()] matches Animation::Fall(f)
                &&& f.start_pos == (w3.0 as i64, w3.1 as i64)
                &&& f.end_pos == (w3.0 as i64, s.ground_line() as i64)
                &&& f.start_time == Some(t2)
            }
        }),
{
    let s1 = s.pressed(PointerButton::Left, x, y, Some(w), t1);
    if w3.1 != s.ground_line() {
        let s2 = s1.released(Some(w3), t2);
        assert(s2.registry.animations.contains_key(fall_name()));
    }
}

} // verus!

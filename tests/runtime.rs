use desktop_companion::animation::{Animation, DrawCommand, SpriteFrames};
use desktop_companion::behavior::Behavior;
use desktop_companion::companion::Companion;
use desktop_companion::runtime::{CompanionApp, PointerButton, FALL_DURATION_MS};

fn companion(walkspeed: u32) -> Companion {
    Companion {
        name: "cat".to_string(),
        path: "cat".to_string(),
        width: 100,
        height: 80,
        walkspeed,
    }
}

fn app(walkspeed: u32) -> CompanionApp {
    let frames = vec![
        ("idle".to_string(), SpriteFrames { first: 0, count: 2 }),
        ("walk".to_string(), SpriteFrames { first: 2, count: 4 }),
    ];
    CompanionApp::new(companion(walkspeed), frames, (1920, 1080), 0)
}

fn registered(app: &CompanionApp, name: &str) -> Option<Animation> {
    app.animations.animations.get(name).copied()
}

#[test]
fn new_registers_idle_only() {
    let a = app(100);
    assert!(a.animations.active.is_none());
    assert!(matches!(registered(&a, "idle"), Some(Animation::Idle(i)) if i.sprite_frames.first == 0));
    assert!(registered(&a, "walk").is_none());
    assert!(!a.initialized);
    assert_eq!(a.draw(0), Some(DrawCommand { frame: 0, mirrored: false }));
}

#[test]
fn bootstrap_waits_for_visibility_then_drops_in() {
    let mut a = app(100);
    assert_eq!(a.update_with(false, Some((0, 0)), 10, 0, 50), None);
    assert!(!a.initialized);
    let placed = a.update_with(true, Some((0, 0)), 20, 0, 50);
    assert!(a.initialized);
    // the drop starts above the screen, centered
    assert_eq!(placed, Some((960, -50)));
    assert_eq!(a.animations.active.as_deref(), Some("fall"));
    match registered(&a, "fall") {
        Some(Animation::Fall(f)) => {
            assert_eq!(f.end_pos, (960, 1000));
            assert_eq!(f.duration, FALL_DURATION_MS);
        }
        other => panic!("no drop registered: {other:?}"),
    }
    assert_eq!(a.update_with(true, Some((960, -50)), 320, 0, 50), Some((960, 475)));
    assert_eq!(a.update_with(true, Some((960, 475)), 620, 0, 50), Some((960, 1000)));
    assert!(a.animations.active.is_none());
}

#[test]
fn bootstrap_places_window_before_the_drop() {
    let mut a = app(100);
    assert_eq!(a.initialize(true, 5), Some((960, 0)));
    assert!(a.initialized);
}

#[test]
fn idle_decision_plays_idle() {
    let mut a = app(100);
    a.initialize(true, 0);
    a.update_with(true, Some((960, 1000)), 600, 0, 50);
    assert!(a.animations.active.is_none());
    // first decision: draw 0 selects idling
    assert_eq!(a.update_with(true, Some((960, 1000)), 700, 0, 50), None);
    assert_eq!(a.behavior.current, Some(Behavior::Idle));
    assert!(a.animations.active.is_none());
    assert_eq!(a.draw(700), Some(DrawCommand { frame: 0, mirrored: false }));
}

#[test]
fn walk_left_stops_at_left_edge() {
    let mut a = app(100);
    a.start_behavior_with_step(Behavior::WalkLeft, Some((30, 1000)), 120, 0);
    assert_eq!(a.animations.active.as_deref(), Some("walk"));
    match registered(&a, "walk") {
        Some(Animation::Move(m)) => {
            assert_eq!(m.start_pos, (30, 1000));
            assert_eq!(m.end, (0, 1000));
            // 30 pixels at 100 a second
            assert_eq!(m.duration, 300);
        }
        other => panic!("no walk registered: {other:?}"),
    }
}

#[test]
fn walk_right_stops_at_right_edge() {
    let mut a = app(100);
    a.start_behavior_with_step(Behavior::WalkRight, Some((1800, 1000)), 199, 0);
    match registered(&a, "walk") {
        Some(Animation::Move(m)) => {
            assert_eq!(m.end, (1820, 1000));
            assert_eq!(m.duration, 200);
        }
        other => panic!("no walk registered: {other:?}"),
    }
    assert_eq!(a.draw(0), Some(DrawCommand { frame: 2, mirrored: true }));
}

#[test]
fn short_walk_takes_the_least_time() {
    let mut a = app(10_000);
    a.start_behavior_with_step(Behavior::WalkLeft, Some((500, 1000)), 50, 0);
    match registered(&a, "walk") {
        Some(Animation::Move(m)) => assert_eq!(m.duration, 100),
        other => panic!("no walk registered: {other:?}"),
    }
}

#[test]
fn walk_without_speed_takes_fixed_time() {
    let mut a = app(0);
    a.start_behavior_with_step(Behavior::WalkRight, Some((500, 1000)), 60, 0);
    match registered(&a, "walk") {
        Some(Animation::Move(m)) => {
            assert_eq!(m.end, (560, 1000));
            assert_eq!(m.duration, 500);
        }
        other => panic!("no walk registered: {other:?}"),
    }
}

#[test]
fn walk_is_skipped_without_window_position() {
    let mut a = app(100);
    a.start_behavior_with_step(Behavior::WalkRight, None, 60, 0);
    assert!(a.animations.active.is_none());
    assert!(registered(&a, "walk").is_none());
}

#[test]
fn fall_and_jump_behaviors_are_inert() {
    let mut a = app(100);
    a.start_behavior_with_step(Behavior::Fall, Some((0, 0)), 60, 0);
    a.start_behavior_with_step(Behavior::Jump, Some((0, 0)), 60, 0);
    assert!(a.animations.active.is_none());
    assert!(registered(&a, "fall").is_none());
}

#[test]
fn random_walk_step_is_in_range() {
    for _ in 0..50 {
        let mut a = app(1000);
        a.start_behavior(Behavior::WalkRight, Some((500, 1000)), 0);
        match registered(&a, "walk") {
            Some(Animation::Move(m)) => {
                let step = m.end.0 - 500;
                assert!((50..200).contains(&step), "step {step}");
            }
            other => panic!("no walk registered: {other:?}"),
        }
    }
}

#[test]
fn drag_moves_window_with_pointer_and_drops_back() {
    let mut a = app(100);
    a.initialize(true, 0);
    let (wx, wy) = (700, 400);
    let (x, y) = (20, 30);
    a.mouse_button_down_event(PointerButton::Left, x, y, Some((wx, wy)), 100);
    assert!(a.dragging);
    assert_eq!(a.animations.active.as_deref(), Some("idle"));
    // the pointer moves by (10, 5) on the screen while the window has not moved yet
    assert_eq!(a.mouse_motion_event(x + 10, y + 5, Some((wx, wy))), Some((wx as i64 + 10, wy as i64 + 5)));
    // the same screen position read after the window followed
    assert_eq!(a.mouse_motion_event(x, y, Some((wx + 10, wy + 5))), Some((wx as i64 + 10, wy as i64 + 5)));
    // no animation is ticked while dragging
    assert_eq!(a.update_with(true, Some((wx + 10, wy + 5)), 200, 0, 50), None);
    a.mouse_button_up_event(Some((wx + 10, wy + 5)), 300);
    assert!(!a.dragging);
    assert_eq!(a.animations.active.as_deref(), Some("fall"));
    match registered(&a, "fall") {
        Some(Animation::Fall(f)) => {
            assert_eq!(f.start_pos, (710, 405));
            assert_eq!(f.end_pos, (710, 1000));
        }
        other => panic!("no drop registered: {other:?}"),
    }
}

#[test]
fn release_on_ground_plays_no_drop() {
    let mut a = app(100);
    a.mouse_button_down_event(PointerButton::Left, 1, 1, Some((10, 1000)), 0);
    a.mouse_button_up_event(Some((10, 1000)), 10);
    assert!(!a.dragging);
    assert!(registered(&a, "fall").is_none());
}

#[test]
fn other_buttons_and_idle_motion_do_nothing() {
    let mut a = app(100);
    a.mouse_button_down_event(PointerButton::Right, 1, 1, Some((10, 10)), 0);
    assert!(!a.dragging);
    assert!(a.animations.active.is_none());
    assert_eq!(a.mouse_motion_event(5, 5, Some((10, 10))), None);
}

#[test]
fn press_without_window_position_starts_no_drag() {
    let mut a = app(100);
    a.mouse_button_down_event(PointerButton::Left, 1, 1, None, 0);
    assert!(!a.dragging);
    assert_eq!(a.animations.active.as_deref(), Some("idle"));
}

#[test]
fn random_frame_keeps_running() {
    let mut a = app(100);
    for t in 0..50u64 {
        a.update(true, Some((960, 1000)), t * 1000);
    }
    assert!(a.initialized);
    assert!(a.behavior.current.is_some());
}

use desktop_companion::animation::fall::FallAnimation;
use desktop_companion::animation::idle::IdleAnimation;
use desktop_companion::animation::movement::{Direction, MoveAnimation};
use desktop_companion::animation::{progress_at, Animation, CompanionAnimations, DrawCommand, SpriteFrames};

fn frames(first: usize, count: usize) -> SpriteFrames {
    SpriteFrames { first, count }
}

#[test]
fn move_interpolates_then_rests() {
    let mut m = MoveAnimation::new((0, 0), (100, 0), 1000, frames(0, 4), Direction::Left);
    m.start(0);
    assert_eq!(m.update(0), (0, 0));
    assert!(!m.is_finished());
    assert_eq!(m.update(500), (50, 0));
    assert!(!m.is_finished());
    assert_eq!(m.update(1000), (100, 0));
    assert!(m.is_finished());
    assert_eq!(m.update(1700), (100, 0));
    assert_eq!(m.update(5000), (100, 0));
    assert_eq!(m.current_pos, (100, 0));
    assert!(m.is_finished());
}

#[test]
fn move_interpolates_both_axes_toward_start() {
    let mut m = MoveAnimation::new((10, 200), (-20, 100), 300, frames(0, 1), Direction::Vertical);
    m.start(1000);
    // a third of the way: x moves 10 of 30 to the left, y 33 of 100 up (rounded toward the start)
    assert_eq!(m.update(1100), (0, 167));
    assert_eq!(m.update(1300), (-20, 100));
}

#[test]
fn move_with_zero_duration_finishes_at_once() {
    let mut m = MoveAnimation::new((5, 5), (50, 7), 0, frames(0, 1), Direction::Right);
    m.start(42);
    assert_eq!(m.update(42), (50, 7));
    assert!(m.is_finished());
}

#[test]
fn move_restart_returns_to_start() {
    let mut m = MoveAnimation::new((0, 0), (100, 0), 1000, frames(0, 2), Direction::Left);
    m.start(0);
    m.update(2000);
    assert!(m.is_finished());
    m.start(3000);
    assert!(!m.is_finished());
    assert_eq!(m.current_pos, (0, 0));
    assert_eq!(m.update(3250), (25, 0));
}

#[test]
fn move_frames_cycle_with_elapsed_time() {
    let mut m = MoveAnimation::new((0, 0), (1000, 0), 10_000, frames(7, 3), Direction::Left);
    m.start(100);
    assert_eq!(m.draw(100), Some(DrawCommand { frame: 7, mirrored: false }));
    assert_eq!(m.draw(299), Some(DrawCommand { frame: 7, mirrored: false }));
    assert_eq!(m.draw(300), Some(DrawCommand { frame: 8, mirrored: false }));
    assert_eq!(m.draw(500), Some(DrawCommand { frame: 9, mirrored: false }));
    assert_eq!(m.draw(700), Some(DrawCommand { frame: 7, mirrored: false }));
    // the frame depends on time, not on where the window is
    m.update(150);
    assert_eq!(m.draw(700), Some(DrawCommand { frame: 7, mirrored: false }));
}

#[test]
fn move_right_is_mirrored_and_finished_draws_nothing() {
    let mut m = MoveAnimation::new((0, 0), (10, 0), 100, frames(0, 2), Direction::Right);
    m.start(0);
    assert_eq!(m.draw(0), Some(DrawCommand { frame: 0, mirrored: true }));
    m.update(100);
    assert_eq!(m.draw(100), None);
}

#[test]
fn progress_stays_in_unit_interval() {
    for duration in [0u64, 1, 7, 600, 1000, u64::MAX] {
        for elapsed in [0u64, 1, 6, 7, 8, 599, 600, 601, 1000, 10_000, u64::MAX] {
            let (num, den) = progress_at(elapsed, duration);
            assert!(den > 0);
            assert!(num <= den);
        }
    }
    assert_eq!(progress_at(500, 1000), (500, 1000));
    assert_eq!(progress_at(1500, 1000), (1000, 1000));
    assert_eq!(progress_at(3, 0), (1, 1));
}

#[test]
fn idle_is_always_finished_and_shows_frame_zero() {
    let mut i = IdleAnimation { sprite_frames: frames(4, 3) };
    assert!(i.is_finished());
    i.start(10);
    assert!(i.is_finished());
    i.update(5000);
    assert!(i.is_finished());
    assert_eq!(i.draw(0), DrawCommand { frame: 4, mirrored: false });
    assert_eq!(i.draw(123_456), DrawCommand { frame: 4, mirrored: false });
}

#[test]
fn fall_moves_only_once_started() {
    let mut f = FallAnimation::new((300, -50), (300, 1000), 600, 2);
    assert_eq!(f.update(100), None);
    f.start(1000);
    assert_eq!(f.update(1000), Some((300, -50)));
    assert_eq!(f.update(1300), Some((300, 475)));
    assert!(!f.is_finished());
    assert_eq!(f.update(1600), Some((300, 1000)));
    assert!(f.is_finished());
    assert_eq!(f.update(1700), None);
    assert_eq!(f.draw(1700), DrawCommand { frame: 2, mirrored: false });
}

#[test]
fn registry_push_does_not_activate() {
    let mut reg = CompanionAnimations::new();
    reg.push(Animation::Idle(IdleAnimation { sprite_frames: frames(0, 1) }), "idle".to_string());
    assert!(reg.active.is_none());
    assert_eq!(reg.update(10), None);
}

#[test]
fn registry_unknown_name_is_no_op() {
    let mut reg = CompanionAnimations::new();
    reg.push(Animation::Idle(IdleAnimation { sprite_frames: frames(0, 1) }), "idle".to_string());
    reg.start("walk", 0);
    assert!(reg.active.is_none());
}

#[test]
fn registry_clears_active_when_finished() {
    let mut reg = CompanionAnimations::new();
    let m = MoveAnimation::new((0, 0), (100, 0), 1000, frames(10, 2), Direction::Left);
    reg.push(Animation::Move(m), "walk".to_string());
    reg.start("walk", 0);
    assert_eq!(reg.active.as_deref(), Some("walk"));
    assert_eq!(reg.update(500), Some((50, 0)));
    assert_eq!(reg.active.as_deref(), Some("walk"));
    assert_eq!(reg.update(1000), Some((100, 0)));
    assert!(reg.active.is_none());
    assert_eq!(reg.update(1500), None);
}

#[test]
fn registry_idle_leaves_active_slot_in_one_tick() {
    let mut reg = CompanionAnimations::new();
    reg.push(Animation::Idle(IdleAnimation { sprite_frames: frames(0, 1) }), "idle".to_string());
    reg.start("idle", 0);
    assert_eq!(reg.active.as_deref(), Some("idle"));
    assert_eq!(reg.update(1), None);
    assert!(reg.active.is_none());
}

#[test]
fn registry_draws_active_then_idle_fallback() {
    let mut reg = CompanionAnimations::new();
    assert_eq!(reg.draw(0), None);
    reg.push(Animation::Idle(IdleAnimation { sprite_frames: frames(3, 2) }), "idle".to_string());
    assert_eq!(reg.draw(0), Some(DrawCommand { frame: 3, mirrored: false }));
    let m = MoveAnimation::new((0, 0), (100, 0), 1000, frames(10, 2), Direction::Right);
    reg.push(Animation::Move(m), "walk".to_string());
    reg.start("walk", 0);
    assert_eq!(reg.draw(250), Some(DrawCommand { frame: 11, mirrored: true }));
    reg.update(1000);
    assert_eq!(reg.draw(1000), Some(DrawCommand { frame: 3, mirrored: false }));
}

#[test]
fn registry_push_replaces_same_name() {
    let mut reg = CompanionAnimations::new();
    let a = MoveAnimation::new((0, 0), (100, 0), 1000, frames(0, 1), Direction::Left);
    let b = MoveAnimation::new((0, 0), (0, 100), 1000, frames(0, 1), Direction::Vertical);
    reg.push(Animation::Move(a), "walk".to_string());
    reg.push(Animation::Move(b), "walk".to_string());
    reg.start("walk", 0);
    assert_eq!(reg.update(500), Some((0, 50)));
}

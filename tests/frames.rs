use std::time::Instant;
use raytracer::controller::{numberify, CameraController, MoveKey};
use raytracer::timer::{FrameStats, FrameTimer, REPORT_MICROS};

#[test]
fn a_new_timer_has_counted_nothing() {
    let t = FrameTimer::new();
    assert_eq!(t.frame_count, 0);
    assert_eq!(t.micro_seconds, 0);
}

#[test]
fn frames_are_counted_until_the_report() {
    let mut t = FrameTimer::new();
    assert_eq!(t.record(Instant::now(), 1_000_000), None);
    assert_eq!(t.frame_count, 1);
    assert_eq!(t.record(Instant::now(), 1_000_000), None);
    assert_eq!(t.frame_count, 2);
    assert_eq!(t.micro_seconds, REPORT_MICROS);
    let r = t.record(Instant::now(), 1);
    assert_eq!(r, Some(FrameStats { frame_count: 3, micro_seconds: 2_000_001 }));
    assert_eq!(t.frame_count, 0);
    assert_eq!(t.micro_seconds, 0);
}

#[test]
fn reset_hands_back_the_counts() {
    let mut t = FrameTimer::new();
    t.record(Instant::now(), 500);
    t.record(Instant::now(), 700);
    let s = t.reset();
    assert_eq!(s, FrameStats { frame_count: 2, micro_seconds: 1200 });
    assert_eq!(t.frame_count, 0);
    assert_eq!(t.micro_seconds, 0);
}

#[test]
fn update_counts_a_frame() {
    let mut t = FrameTimer::new();
    let r = t.update();
    assert_eq!(r, None);
    assert_eq!(t.frame_count, 1);
}

#[test]
fn held_keys_give_the_direction() {
    let mut c = CameraController::new();
    assert_eq!(c.direction(), (0, 0, 0));
    c.keyboard_event(Some(MoveKey::Forward), true);
    c.keyboard_event(Some(MoveKey::Left), true);
    assert_eq!(c.direction(), (-1, 0, 1));
    c.keyboard_event(Some(MoveKey::Right), true);
    assert_eq!(c.direction(), (-1, 0, 1));
    c.keyboard_event(Some(MoveKey::Left), false);
    assert_eq!(c.direction(), (1, 0, 1));
    c.keyboard_event(Some(MoveKey::Up), true);
    c.keyboard_event(Some(MoveKey::Down), true);
    assert_eq!(c.direction(), (1, -1, 1));
    c.keyboard_event(None, false);
    assert_eq!(c.direction(), (1, -1, 1));
    c.keyboard_event(Some(MoveKey::Back), true);
    assert_eq!(c.direction().2, -1);
}

#[test]
fn numberify_prefers_the_negative_key() {
    assert_eq!(numberify(true, true), -1);
    assert_eq!(numberify(true, false), 1);
    assert_eq!(numberify(false, false), 0);
    assert_eq!(numberify(false, true), -1);
}

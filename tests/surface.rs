use veilde::clock::FrameClock;
use veilde::error::VeilError;
use veilde::surface::{SurfaceState, Viewport};

#[test]
fn create_sizes_surface_and_viewport() {
    let s = SurfaceState::create(1600, 900).unwrap();
    assert_eq!((s.width, s.height), (1600, 900));
    assert_eq!(s.viewport, Viewport { x: 0, y: 0, width: 1600, height: 900 });
}

#[test]
fn create_refuses_degenerate_size() {
    for (w, h) in [(0u32, 900u32), (1600, 0), (0, 0)] {
        match SurfaceState::create(w, h) {
            Err(VeilError::SurfaceCreation { detail }) => assert!(!detail.is_empty()),
            other => panic!("unexpected {:?}", other),
        }
    }
}

#[test]
fn resize_sets_viewport() {
    let mut s = SurfaceState::create(1600, 900).unwrap();
    assert!(s.resize(1024, 768));
    assert_eq!((s.width, s.height), (1024, 768));
    assert_eq!(s.viewport, Viewport { x: 0, y: 0, width: 1024, height: 768 });
}

#[test]
fn degenerate_resize_is_ignored() {
    let mut s = SurfaceState::create(1600, 900).unwrap();
    let before = s;
    assert!(!s.resize(0, 600));
    assert!(!s.resize(800, 0));
    assert!(!s.resize(0, 0));
    assert_eq!(s, before);
}

#[test]
fn resize_is_idempotent() {
    let mut s = SurfaceState::create(1600, 900).unwrap();
    s.resize(640, 480);
    let once = s;
    s.resize(640, 480);
    assert_eq!(s, once);
}

#[test]
fn first_frame_delta_is_zero() {
    let mut c = FrameClock::new();
    assert_eq!(c.tick(123_456), 0);
    assert_eq!(c.last_frame, Some(123_456));
}

#[test]
fn later_frame_delta_is_the_gap() {
    let mut c = FrameClock::new();
    c.tick(1_000);
    assert_eq!(c.tick(17_667), 16_667);
    assert_eq!(c.tick(17_667), 0);
}

#[test]
fn backwards_reading_is_floored_at_zero() {
    let mut c = FrameClock::new();
    c.tick(50);
    assert_eq!(c.tick(10), 0);
    assert_eq!(c.last_frame, Some(10));
}

use sparsha::touch::{TouchListener, TouchTracker};

#[test]
fn first_touch_takes_the_pointer() {
    let mut tracker = TouchTracker::new();
    assert!(!tracker.start(None));
    assert!(tracker.start(Some(7)));
    assert_eq!(tracker.active(), Some(7));
    assert!(!tracker.start(Some(8)));
    assert_eq!(tracker.active(), Some(7));
}

#[test]
fn touch_moves_follow_only_the_driving_uncaptured_touch() {
    let mut tracker = TouchTracker::new();
    assert!(!tracker.follows_move(true, false));
    tracker.start(Some(1));
    assert!(tracker.follows_move(true, false));
    assert!(!tracker.follows_move(true, true));
    assert!(!tracker.follows_move(false, false));
}

#[test]
fn touch_end_is_handled_by_the_listener_matching_capture() {
    let mut tracker = TouchTracker::new();
    tracker.start(Some(1));
    assert!(!tracker.end(TouchListener::Root, true, true));
    assert!(!tracker.end(TouchListener::CapturedWindow, false, true));
    assert!(!tracker.end(TouchListener::Root, false, false));
    assert!(tracker.end(TouchListener::CapturedWindow, true, true));
    assert_eq!(tracker.active(), None);
    assert!(tracker.start(Some(2)));
    assert!(tracker.end(TouchListener::Root, false, true));
}

#[test]
fn cancelled_touch_releases_the_pointer() {
    let mut tracker = TouchTracker::new();
    assert!(!tracker.cancel(true));
    tracker.start(Some(3));
    assert!(!tracker.cancel(false));
    assert!(tracker.cancel(true));
    assert_eq!(tracker.active(), None);
}

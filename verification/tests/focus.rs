use tray_shell::focus::FocusTracker;
use tray_shell::window::Notification;

#[test]
fn tracker_starts_without_focus() {
    assert!(!FocusTracker::new().is_focused());
}

#[test]
fn tracker_reports_each_change() {
    let mut tracker = FocusTracker::new();
    assert_eq!(tracker.observe(true), Some(Notification::AppFocus));
    assert!(tracker.is_focused());
    assert_eq!(tracker.observe(false), Some(Notification::AppBlur));
    assert!(!tracker.is_focused());
}

#[test]
fn tracker_coalesces_repeated_reports() {
    let mut tracker = FocusTracker::new();
    assert_eq!(tracker.observe(false), None);
    assert_eq!(tracker.observe(true), Some(Notification::AppFocus));
    assert_eq!(tracker.observe(true), None);
    assert_eq!(tracker.observe(true), None);
    assert_eq!(tracker.observe(false), Some(Notification::AppBlur));
    assert_eq!(tracker.observe(false), None);
}

#[test]
fn tracker_notifications_alternate() {
    let reports = [false, true, true, false, true, false, false, true];
    let mut tracker = FocusTracker::new();
    let mut emitted = Vec::new();
    for focused in reports {
        if let Some(notification) = tracker.observe(focused) {
            emitted.push(notification);
        }
    }
    assert_eq!(emitted.len(), 5);
    for (k, notification) in emitted.iter().enumerate() {
        let expected = if k % 2 == 0 { Notification::AppFocus } else { Notification::AppBlur };
        assert_eq!(*notification, expected);
    }
    assert!(tracker.is_focused());
}

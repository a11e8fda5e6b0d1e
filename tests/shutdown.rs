use tauri_axum_app::shutdown::{ShutdownLatch, WindowEvent};

#[test]
fn fresh_latch_has_not_fired() {
    assert!(!ShutdownLatch::new().has_fired());
}

#[test]
fn fires_on_first_destroyed_only() {
    let mut l = ShutdownLatch::new();
    assert!(!l.on_window_event(WindowEvent::Other));
    assert!(!l.has_fired());
    assert!(l.on_window_event(WindowEvent::Destroyed));
    assert!(l.has_fired());
    assert!(!l.on_window_event(WindowEvent::Destroyed));
    assert!(!l.on_window_event(WindowEvent::Other));
    assert!(l.has_fired());
}

#[test]
fn many_events_fire_once() {
    let mut l = ShutdownLatch::new();
    let events = [
        WindowEvent::Other,
        WindowEvent::Destroyed,
        WindowEvent::Other,
        WindowEvent::Destroyed,
        WindowEvent::Destroyed,
    ];
    let fired = events.iter().filter(|e| l.on_window_event(**e)).count();
    assert_eq!(fired, 1);
}

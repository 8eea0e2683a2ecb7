//! Tests for the window-session state machine.

use tardy::{Act, App, Cmd, Frame, KeyEvent, KeyId, Monitor, Position, Size, WindowEventKind};

fn fresh_app() -> App {
    App::new(Cmd::from_source(None))
}

fn press(text: &str) -> KeyEvent {
    KeyEvent { pressed: true, key: KeyId::Character(text.to_string()) }
}

#[test]
fn scenario_open_spawn_exit() {
    let mut app = fresh_app();
    assert_eq!(app.window_count(), 0);
    assert!(!app.terminating());

    // First window, default attributes.
    assert_eq!(app.create_window(1, None), Ok(1));
    assert_eq!(app.window_count(), 1);
    let lenses = app.lenses().unwrap();
    assert_eq!(lenses.len(), 1);
    assert_eq!(lenses[0].attrs.title, "Tardy");
    assert!(lenses[0].attrs.transparent);
    assert!(lenses[0].attrs.frame.is_none());
    assert!(!lenses[0].refresh);

    // "n" is the fallback trigger for NewWindow.
    assert_eq!(app.keyboard_input(1, &press("n"), 2), Ok(()));
    assert_eq!(app.window_count(), 2);
    assert!(app.contains_window(2));

    // Exit empties the table and the session reports terminating.
    assert_eq!(app.act(&Act::Exit, 1, 99, None), Ok(()));
    assert_eq!(app.window_count(), 0);
    assert!(app.terminating());
    assert!(app.should_exit());
}

#[test]
fn close_window_removes_only_its_target() {
    let mut app = fresh_app();
    app.create_window(1, None).unwrap();
    app.create_window(2, None).unwrap();
    app.create_window(3, None).unwrap();
    assert_eq!(app.act(&Act::CloseWindow, 2, 0, None), Ok(()));
    assert_eq!(app.window_count(), 2);
    assert!(app.contains_window(1));
    assert!(!app.contains_window(2));
    assert!(app.contains_window(3));
}

#[test]
fn closing_an_absent_window_is_not_an_error() {
    let mut app = fresh_app();
    app.create_window(1, None).unwrap();
    assert_eq!(app.act(&Act::CloseWindow, 42, 0, None), Ok(()));
    assert_eq!(app.window_count(), 1);
    assert!(app.contains_window(1));
}

#[test]
fn be_changes_nothing() {
    let mut app = fresh_app();
    app.create_window(1, None).unwrap();
    app.create_window(2, None).unwrap();
    assert_eq!(app.act(&Act::Be, 1, 77, None), Ok(()));
    assert_eq!(app.window_count(), 2);
    assert!(app.contains_window(1));
    assert!(app.contains_window(2));
    assert!(!app.terminating());
}

#[test]
fn exit_empties_after_any_number_of_creates() {
    let mut app = fresh_app();
    for id in 0..8u64 {
        app.create_window(id, None).unwrap();
    }
    assert_eq!(app.window_count(), 8);
    assert_eq!(app.act(&Act::Exit, 0, 99, None), Ok(()));
    assert_eq!(app.window_count(), 0);
    assert!(app.terminating());
}

#[test]
fn new_window_action_uses_the_supplied_frame() {
    let mut app = fresh_app();
    app.create_window(1, None).unwrap();
    let frame = Frame {
        monitor: Monitor { width: 800, height: 600 },
        position: Position { x: 100, y: 120 },
        size: Size { width: 300, height: 200 },
    };
    assert_eq!(app.act(&Act::NewWindow, 1, 2, Some(frame)), Ok(()));
    assert_eq!(app.window_count(), 2);
    let lenses = app.lenses().unwrap();
    assert_eq!(lenses[1].attrs.frame, Some(frame));
    assert_eq!(lenses[1].attrs.title, "Tardy");
    assert!(lenses[1].attrs.transparent);
}

#[test]
fn key_release_is_ignored() {
    let mut app = fresh_app();
    app.create_window(1, None).unwrap();
    let release = KeyEvent { pressed: false, key: KeyId::Character("n".to_string()) };
    assert_eq!(app.keyboard_input(1, &release, 2), Ok(()));
    assert_eq!(app.window_count(), 1);
}

#[test]
fn unresolved_key_is_silently_ignored() {
    let mut app = fresh_app();
    app.create_window(1, None).unwrap();
    assert_eq!(app.keyboard_input(1, &press("q"), 2), Ok(()));
    assert_eq!(app.window_count(), 1);
}

#[test]
fn escape_press_exits() {
    let mut app = fresh_app();
    app.create_window(1, None).unwrap();
    let esc = KeyEvent { pressed: true, key: KeyId::Named("Escape".to_string()) };
    assert_eq!(app.keyboard_input(1, &esc, 2), Ok(()));
    assert_eq!(app.window_count(), 0);
    assert!(app.terminating());
}

#[test]
fn window_event_close_request_removes_the_window() {
    let mut app = fresh_app();
    app.create_window(1, None).unwrap();
    app.create_window(2, None).unwrap();
    assert_eq!(app.window_event(1, &WindowEventKind::CloseRequested, 9), Ok(false));
    assert_eq!(app.window_count(), 1);
    assert!(!app.contains_window(1));
}

#[test]
fn window_event_for_unknown_window_is_ignored() {
    let mut app = fresh_app();
    app.create_window(1, None).unwrap();
    assert_eq!(app.window_event(77, &WindowEventKind::CloseRequested, 9), Ok(false));
    assert_eq!(app.window_count(), 1);
}

#[test]
fn window_event_keyboard_goes_through_the_table() {
    let mut app = fresh_app();
    app.create_window(1, None).unwrap();
    let ev = WindowEventKind::Keyboard(press("n"));
    assert_eq!(app.window_event(1, &ev, 2), Ok(false));
    assert_eq!(app.window_count(), 2);
}

#[test]
fn redraw_request_reports_and_clears_the_flag() {
    let mut app = fresh_app();
    app.create_window(1, None).unwrap();
    app.windows[0].1.refresh = true;
    assert_eq!(app.window_event(1, &WindowEventKind::RedrawRequested, 9), Ok(true));
    assert_eq!(app.window_event(1, &WindowEventKind::RedrawRequested, 9), Ok(false));
    assert_eq!(app.window_count(), 1);
}

#[test]
fn other_window_events_are_ignored() {
    let mut app = fresh_app();
    app.create_window(1, None).unwrap();
    assert_eq!(app.window_event(1, &WindowEventKind::Other, 9), Ok(false));
    assert_eq!(app.window_count(), 1);
}

#[test]
fn fresh_session_is_not_terminating() {
    let app = fresh_app();
    // Zero windows before the first create: the loop would exit, but the
    // session never entered Running, so it does not report Terminating.
    assert!(app.should_exit());
    assert!(!app.terminating());
}

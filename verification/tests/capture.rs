use arbitra::capture::Capture;
use arbitra::capture::CursorAction;
use arbitra::capture::WindowChange;
use arbitra::input::Input;
use arbitra::input::KeyCode;

fn grabbed() -> Capture {
    let mut c = Capture::new();
    c.window_event(WindowChange::CursorEntered);
    assert_eq!(c.window_event(WindowChange::LeftButtonPressed), CursorAction::Grab);
    c
}

#[test]
fn capture_starts_focused_and_free() {
    let c = Capture::new();
    assert!(c.is_focused);
    assert!(!c.cursor_in_window);
    assert!(!c.cursor_grabbed);
    assert!(!c.takes_motion());
}

#[test]
fn click_grabs_only_inside_the_focused_window() {
    let mut c = Capture::new();
    assert_eq!(c.window_event(WindowChange::LeftButtonPressed), CursorAction::Keep);
    assert!(!c.cursor_grabbed);
    assert_eq!(c.window_event(WindowChange::CursorEntered), CursorAction::Keep);
    assert_eq!(c.window_event(WindowChange::Focused(false)), CursorAction::Release);
    assert_eq!(c.window_event(WindowChange::LeftButtonPressed), CursorAction::Keep);
    assert!(!c.cursor_grabbed);
    assert_eq!(c.window_event(WindowChange::Focused(true)), CursorAction::Keep);
    assert_eq!(c.window_event(WindowChange::LeftButtonPressed), CursorAction::Grab);
    assert!(c.cursor_grabbed);
    assert!(c.takes_motion());
}

#[test]
fn losing_focus_or_cursor_lets_go() {
    let mut c = grabbed();
    assert_eq!(c.window_event(WindowChange::CursorLeft), CursorAction::Release);
    assert!(!c.cursor_grabbed);
    assert!(!c.cursor_in_window);
    assert_eq!(c.window_event(WindowChange::CursorLeft), CursorAction::Keep);
    let mut c = grabbed();
    assert_eq!(c.window_event(WindowChange::Focused(false)), CursorAction::Release);
    assert!(!c.cursor_grabbed);
    assert!(!c.is_focused);
    assert!(c.cursor_in_window);
}

#[test]
fn keys_count_only_while_grabbed() {
    let mut c = Capture::new();
    let mut input = Input::new();
    assert_eq!(c.key_event(&mut input, KeyCode::KeyW, true), CursorAction::Keep);
    assert_eq!(input, Input::new());
    let mut c = grabbed();
    assert_eq!(c.key_event(&mut input, KeyCode::KeyW, true), CursorAction::Keep);
    assert!(input.is_forward_pressed);
    assert_eq!(c.key_event(&mut input, KeyCode::Other, true), CursorAction::Keep);
    assert!(c.cursor_grabbed);
}

#[test]
fn escape_lets_go_and_stays_down() {
    let mut c = grabbed();
    let mut input = Input::new();
    assert_eq!(c.key_event(&mut input, KeyCode::Escape, true), CursorAction::Release);
    assert!(!c.cursor_grabbed);
    assert!(input.is_escape_pressed);
    assert_eq!(c.key_event(&mut input, KeyCode::Escape, false), CursorAction::Keep);
    assert!(input.is_escape_pressed);
    assert_eq!(c.window_event(WindowChange::LeftButtonPressed), CursorAction::Grab);
    assert_eq!(c.key_event(&mut input, KeyCode::KeyA, true), CursorAction::Release);
    assert!(input.is_left_pressed);
    assert!(!c.cursor_grabbed);
}

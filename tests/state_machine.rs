use uhh::app::{safety_status_from, App, Pane, SafetyStatus};
use uhh::event::{Action, AppEvent, Event, KeyCode, KeyEvent};
use uhh::text::{is_white_space, TextBuffer};

fn key(code: KeyCode) -> KeyEvent {
    KeyEvent { code, control: false }
}

fn type_text(app: &mut App, s: &str) {
    for c in s.chars() {
        let a = app.handle_key_events(key(KeyCode::Char(c)));
        assert!(matches!(a, Action::Nothing));
    }
}

#[test]
fn new_app_starts_empty_on_input() {
    let app = App::new();
    assert!(app.running);
    assert_eq!(app.focused_pane, Pane::Input);
    assert_eq!(app.input.text(), "");
    assert_eq!(app.response.text(), "");
    assert_eq!(app.safety_check_text, "");
    assert!(!app.is_loading_completion);
    assert!(!app.is_loading_safety_check);
    assert_eq!(app.safety_status, SafetyStatus::Unknown);
}

#[test]
fn cursor_stays_within_text_over_edits() {
    let mut b = TextBuffer::new();
    assert_eq!(b.cursor(), 0);
    b.backspace();
    assert_eq!((b.text(), b.cursor()), (String::new(), 0));
    for c in "héllo".chars() {
        b.insert_char(c);
        assert!(b.cursor() <= b.len());
    }
    assert_eq!(b.text(), "héllo");
    assert_eq!(b.cursor(), 5);
    for _ in 0..7 {
        b.backspace();
        assert!(b.cursor() <= b.len());
    }
    assert_eq!(b.text(), "");
    assert_eq!(b.cursor(), 0);
}

#[test]
fn insert_and_backspace_act_at_cursor() {
    let mut b = TextBuffer::from_str("ac");
    assert_eq!(b.cursor(), 2);
    b.backspace();
    assert_eq!(b.text(), "a");
    b.insert_char('b');
    b.insert_char('c');
    assert_eq!(b.text(), "abc");
    assert_eq!(b.cursor(), 3);
}

#[test]
fn typing_goes_to_focused_pane() {
    let mut app = App::new();
    type_text(&mut app, "ls");
    assert_eq!(app.input.text(), "ls");
    app.handle_key_events(key(KeyCode::Down));
    type_text(&mut app, "x");
    assert_eq!(app.response.text(), "x");
    app.handle_key_events(key(KeyCode::Backspace));
    assert_eq!(app.response.text(), "");
    assert_eq!(app.input.text(), "ls");
    app.handle_key_events(key(KeyCode::Backspace));
    assert_eq!(app.response.text(), "");
}

#[test]
fn enter_on_input_posts_request_with_input_text() {
    let mut app = App::new();
    type_text(&mut app, "list files sorted by size");
    match app.handle_key_events(key(KeyCode::Enter)) {
        Action::Post(AppEvent::RequestCompletion(t)) => assert_eq!(t, "list files sorted by size"),
        other => panic!("unexpected action {:?}", other),
    }
    assert_eq!(app.input.text(), "list files sorted by size");
}

#[test]
fn enter_on_output_posts_execute_with_response_text() {
    let mut app = App::new();
    app.handle_key_events(key(KeyCode::Up));
    type_text(&mut app, "pwd");
    match app.handle_key_events(key(KeyCode::Enter)) {
        Action::Post(AppEvent::ExecuteCommand(t)) => assert_eq!(t, "pwd"),
        other => panic!("unexpected action {:?}", other),
    }
}

#[test]
fn up_down_toggle_between_two_panes() {
    let mut app = App::new();
    app.handle_key_events(key(KeyCode::Up));
    assert_eq!(app.focused_pane, Pane::Output);
    app.handle_key_events(key(KeyCode::Up));
    assert_eq!(app.focused_pane, Pane::Input);
    app.handle_key_events(key(KeyCode::Down));
    assert_eq!(app.focused_pane, Pane::Output);
    app.handle_key_events(key(KeyCode::Down));
    assert_eq!(app.focused_pane, Pane::Input);
}

#[test]
fn escape_and_control_c_post_quit() {
    let mut app = App::new();
    assert!(matches!(app.handle_key_events(key(KeyCode::Esc)), Action::Post(AppEvent::Quit)));
    let ctrl_c = KeyEvent { code: KeyCode::Char('c'), control: true };
    assert!(matches!(app.handle_key_events(ctrl_c), Action::Post(AppEvent::Quit)));
    let ctrl_shift_c = KeyEvent { code: KeyCode::Char('C'), control: true };
    assert!(matches!(app.handle_key_events(ctrl_shift_c), Action::Post(AppEvent::Quit)));
    assert_eq!(app.input.text(), "");
    assert!(matches!(app.handle_event(Event::App(AppEvent::Quit)), Action::Nothing));
    assert!(!app.running);
}

#[test]
fn tick_and_other_keys_change_nothing() {
    let mut app = App::new();
    type_text(&mut app, "a");
    assert!(matches!(app.handle_event(Event::Tick), Action::Nothing));
    assert!(matches!(app.handle_event(Event::Key(key(KeyCode::Other))), Action::Nothing));
    assert_eq!(app.input.text(), "a");
    assert!(app.running);
}

#[test]
fn request_completion_sets_loading_and_resets_safety() {
    let mut app = App::new();
    app.safety_status = SafetyStatus::Safe;
    let a = app.handle_event(Event::App(AppEvent::RequestCompletion("find big files".to_string())));
    match a {
        Action::SpawnCompletion(t) => assert_eq!(t, "find big files"),
        other => panic!("unexpected action {:?}", other),
    }
    assert!(app.is_loading_completion);
    assert_eq!(app.safety_status, SafetyStatus::Unknown);
}

#[test]
fn blank_request_is_ignored() {
    let mut app = App::new();
    app.safety_status = SafetyStatus::Unsafe;
    let a = app.handle_event(Event::App(AppEvent::RequestCompletion(" \t\n".to_string())));
    assert!(matches!(a, Action::Nothing));
    assert!(!app.is_loading_completion);
    assert_eq!(app.safety_status, SafetyStatus::Unsafe);
    let a = app.handle_event(Event::App(AppEvent::RequestCompletion(String::new())));
    assert!(matches!(a, Action::Nothing));
}

#[test]
fn completion_response_starts_one_safety_check() {
    let mut app = App::new();
    app.is_loading_completion = true;
    let a = app.handle_event(Event::App(AppEvent::CompletionResponse("ls -la -S".to_string())));
    match a {
        Action::SpawnSafetyCheck(t) => assert_eq!(t, "ls -la -S"),
        other => panic!("unexpected action {:?}", other),
    }
    assert!(!app.is_loading_completion);
    assert!(app.is_loading_safety_check);
    assert_eq!(app.response.text(), "ls -la -S");
    assert_eq!(app.response.cursor(), 9);
}

#[test]
fn completion_error_is_shown_in_output() {
    let mut app = App::new();
    app.is_loading_completion = true;
    let a = app.handle_event(Event::App(AppEvent::CompletionError("timeout".to_string())));
    assert!(matches!(a, Action::Nothing));
    assert!(!app.is_loading_completion);
    assert_eq!(app.response.text(), "Error: timeout");
    assert_eq!(app.response.cursor(), 14);
}

#[test]
fn safety_check_response_sets_verdict() {
    let mut app = App::new();
    app.is_loading_safety_check = true;
    app.handle_event(Event::App(AppEvent::SafetyCheckResponse("  Yes, safe".to_string())));
    assert!(!app.is_loading_safety_check);
    assert_eq!(app.safety_check_text, "  Yes, safe");
    assert_eq!(app.safety_status, SafetyStatus::Safe);
    app.handle_event(Event::App(AppEvent::SafetyCheckResponse("No, because...".to_string())));
    assert_eq!(app.safety_status, SafetyStatus::Unsafe);
    app.handle_event(Event::App(AppEvent::SafetyCheckResponse("Maybe".to_string())));
    assert_eq!(app.safety_status, SafetyStatus::Unknown);
}

#[test]
fn safety_check_error_clears_verdict() {
    let mut app = App::new();
    app.is_loading_safety_check = true;
    app.safety_status = SafetyStatus::Safe;
    app.handle_event(Event::App(AppEvent::SafetyCheckError("boom".to_string())));
    assert!(!app.is_loading_safety_check);
    assert_eq!(app.safety_check_text, "Safety check error: boom");
    assert_eq!(app.safety_status, SafetyStatus::Unknown);
}

#[test]
fn safety_status_examples() {
    assert_eq!(safety_status_from("Yes, safe"), SafetyStatus::Safe);
    assert_eq!(safety_status_from("No, because..."), SafetyStatus::Unsafe);
    assert_eq!(safety_status_from(""), SafetyStatus::Unknown);
    assert_eq!(safety_status_from("Maybe"), SafetyStatus::Unknown);
    assert_eq!(safety_status_from("\n  Y"), SafetyStatus::Safe);
    assert_eq!(safety_status_from("   "), SafetyStatus::Unknown);
    assert_eq!(safety_status_from("yes"), SafetyStatus::Unknown);
    assert_eq!(safety_status_from("\u{3000}N"), SafetyStatus::Unsafe);
}

#[test]
fn execute_command_only_when_not_blank() {
    let mut app = App::new();
    match app.handle_event(Event::App(AppEvent::ExecuteCommand("echo hi".to_string()))) {
        Action::Execute(t) => assert_eq!(t, "echo hi"),
        other => panic!("unexpected action {:?}", other),
    }
    assert!(matches!(
        app.handle_event(Event::App(AppEvent::ExecuteCommand("  ".to_string()))),
        Action::Nothing
    ));
}

#[test]
fn whitespace_characters() {
    for c in [' ', '\t', '\n', '\r', '\u{0b}', '\u{0c}', '\u{85}', '\u{a0}', '\u{1680}', '\u{2000}', '\u{200a}', '\u{2028}', '\u{2029}', '\u{202f}', '\u{205f}', '\u{3000}'] {
        assert!(is_white_space(c), "{:?}", c);
        assert_eq!(is_white_space(c), c.is_whitespace());
    }
    for c in ['Y', 'N', 'a', '0', '\u{200b}', '\u{1f}', '\u{feff}', '_'] {
        assert!(!is_white_space(c), "{:?}", c);
        assert_eq!(is_white_space(c), c.is_whitespace());
    }
}

#[test]
fn verdict_ignores_surrounding_whitespace() {
    assert_eq!(safety_status_from(" \tN, deletes everything \n"), SafetyStatus::Unsafe);
    assert_eq!(safety_status_from("Y\n\n"), SafetyStatus::Safe);
    assert_eq!(uhh::text::trimmed_first("  \u{2003}ab "), Some('a'));
    assert_eq!(uhh::text::trimmed_first(" \n "), None);
    assert!(uhh::text::is_blank(" \u{a0}\n"));
    assert!(!uhh::text::is_blank(" x "));
}

use uhh::app::{App, Pane, SafetyStatus};
use uhh::event::{Event, KeyCode, KeyEvent};
use uhh::ui::{
    input_highlight, input_pane_text, output_highlight, output_pane_text, pane_text,
    safety_highlight, status_color, status_line, Highlight, StatusColor, StatusLine,
};
use uhh::text::TextBuffer;

#[test]
fn cursor_mark_only_when_focused() {
    let mut b = TextBuffer::from_str("abc");
    assert_eq!(pane_text(&b, true), "abc|");
    assert_eq!(pane_text(&b, false), "abc");
    b.backspace();
    b.backspace();
    b.insert_char('x');
    assert_eq!(pane_text(&b, true), "ax|");
    assert_eq!(pane_text(&b, false), "ax");
    assert_eq!(pane_text(&TextBuffer::new(), true), "|");
}

#[test]
fn pane_texts_follow_focus() {
    let mut app = App::new();
    app.handle_event(Event::Key(KeyEvent { code: KeyCode::Char('q'), control: false }));
    assert_eq!(input_pane_text(&app), "q|");
    assert_eq!(output_pane_text(&app), "");
    app.focused_pane = Pane::Output;
    assert_eq!(input_pane_text(&app), "q");
    assert_eq!(output_pane_text(&app), "|");
}

#[test]
fn highlights() {
    let mut app = App::new();
    assert_eq!(input_highlight(&app), Highlight::Focused);
    assert_eq!(output_highlight(&app), Highlight::Plain);
    assert_eq!(safety_highlight(&app), Highlight::Plain);
    app.focused_pane = Pane::Output;
    assert_eq!(input_highlight(&app), Highlight::Plain);
    assert_eq!(output_highlight(&app), Highlight::Focused);
    app.is_loading_completion = true;
    assert_eq!(output_highlight(&app), Highlight::Busy);
    app.safety_status = SafetyStatus::Unsafe;
    assert_eq!(safety_highlight(&app), Highlight::Unsafe);
    app.safety_status = SafetyStatus::Safe;
    assert_eq!(safety_highlight(&app), Highlight::Safe);
    app.is_loading_safety_check = true;
    assert_eq!(safety_highlight(&app), Highlight::Busy);
}

#[test]
fn status_line_priority() {
    let mut app = App::new();
    assert_eq!(status_line(&app), StatusLine::Ready);
    assert_eq!(status_color(&app), StatusColor::Green);
    app.safety_status = SafetyStatus::Unsafe;
    assert_eq!(status_line(&app), StatusLine::Unsafe);
    assert_eq!(status_color(&app), StatusColor::Red);
    app.safety_status = SafetyStatus::Safe;
    assert_eq!(status_line(&app), StatusLine::Safe);
    assert_eq!(status_color(&app), StatusColor::Green);
    app.is_loading_safety_check = true;
    assert_eq!(status_line(&app), StatusLine::RunningSafetyCheck);
    assert_eq!(status_color(&app), StatusColor::Yellow);
    app.is_loading_completion = true;
    assert_eq!(status_line(&app), StatusLine::LoadingCompletion);
    assert_eq!(status_color(&app), StatusColor::Yellow);
}

#[test]
fn status_texts() {
    assert_eq!(StatusLine::Ready.text(), "Ready | Press Up/Down to navigate, Esc to quit");
    assert_eq!(
        StatusLine::LoadingCompletion.text(),
        "Loading completion... | Press Up/Down to navigate, Esc to quit"
    );
    assert_eq!(
        StatusLine::RunningSafetyCheck.text(),
        "Running safety check... | Press Up/Down to navigate, Esc to quit"
    );
    assert_eq!(StatusLine::Safe.text(), "Command appears safe | Press Up/Down to navigate, Esc to quit");
    assert_eq!(
        StatusLine::Unsafe.text(),
        "\u{26a0}\u{fe0f} Command may be unsafe | Press Up/Down to navigate, Esc to quit"
    );
}

use vstd::prelude::*;

use crate::app::{App, Pane, SafetyStatus};
use crate::text::{string_from_chars, TextBuffer};

verus! {

/// How a pane's border is drawn.
#[derive(Clone, Copy, Debug, PartialEq, Eq, Structural)]
pub enum Highlight {
    /// No emphasis.
    Plain,
    /// The pane has the focus.
    Focused,
    /// The pane waits for a background result.
    Busy,
    /// The command was judged safe.
    Safe,
    /// The command was judged unsafe.
    Unsafe,
}

/// What the status line says.
#[derive(Clone, Copy, Debug, PartialEq, Eq, Structural)]
pub enum StatusLine {
    LoadingCompletion,
    RunningSafetyCheck,
    Safe,
    Unsafe,
    Ready,
}

/// The background colour of the status line.
#[derive(Clone, Copy, Debug, PartialEq, Eq, Structural)]
pub enum StatusColor {
    Yellow,
    Green,
    Red,
}

/// The text shown in a pane: with a `|` at the cursor when it has the focus.
pub open spec fn display_text(v: (Seq<char>, nat), focused: bool) -> Seq<char> {
    if focused {
        v.0.insert(v.1 as int, '|')
    } else {
        v.0
    }
}

/// The border of the input pane.
pub open spec fn input_highlight_of(app: App) -> Highlight {
    if app.focused_pane == Pane::Input {
        Highlight::Focused
    } else {
        Highlight::Plain
    }
}

/// The border of the output pane: busy while a completion loads.
pub open spec fn output_highlight_of(app: App) -> Highlight {
    if app.is_loading_completion {
        Highlight::Busy
    } else if app.focused_pane == Pane::Output {
        Highlight::Focused
    } else {
        Highlight::Plain
    }
}

/// The border of the safety pane: busy while a check runs, else the verdict.
pub open spec fn safety_highlight_of(app: App) -> Highlight {
    if app.is_loading_safety_check {
        Highlight::Busy
    } else {
        match app.safety_status {
            SafetyStatus::Safe => Highlight::Safe,
            SafetyStatus::Unsafe => Highlight::Unsafe,
            SafetyStatus::Unknown => Highlight::Plain,
        }
    }
}

/// The status line: a loading completion first, then a running check, then
/// the verdict.
pub open spec fn status_line_of(app: App) -> StatusLine {
    if app.is_loading_completion {
        StatusLine::LoadingCompletion
    } else if app.is_loading_safety_check {
        StatusLine::RunningSafetyCheck
    } else {
        match app.safety_status {
            SafetyStatus::Safe => StatusLine::Safe,
            SafetyStatus::Unsafe => StatusLine::Unsafe,
            SafetyStatus::Unknown => StatusLine::Ready,
        }
    }
}

/// The status colour: yellow while anything loads, red for an unsafe
/// verdict, green otherwise.
pub open spec fn status_color_of(app: App) -> StatusColor {
    if app.is_loading_completion || app.is_loading_safety_check {
        StatusColor::Yellow
    } else if app.safety_status == SafetyStatus::Unsafe {
        StatusColor::Red
    } else {
        StatusColor::Green
    }
}

/// The text of a pane, with the cursor marked when it has the focus.
pub fn pane_text(buffer: &TextBuffer, focused: bool) -> (r: String)
    requires
        buffer.wf(),
    ensures
        r@ == display_text(buffer@, focused),
{
    if focused {
        let chars = buffer.chars();
        let cursor = buffer.cursor();
        let mut shown: Vec<char> = Vec::new();
        let mut i: usize = 0;
        while i < chars.len()
            invariant
                cursor <= chars@.len(),
                i <= chars@.len(),
                i <= cursor ==> shown@ == chars@.subrange(0, i as int),
                i > cursor ==> shown@ == chars@.subrange(0, cursor as int).push('|') + chars@.subrange(cursor as int, i as int),
            decreases chars@.len() - i,
        {
            if i == cursor {
                shown.push('|');
            }
            shown.push(chars[i]);
            proof {
                if i + 1 > cursor {
                    assert(shown@ =~= chars@.subrange(0, cursor as int).push('|') + chars@.subrange(cursor as int, i + 1));
                } else {
                    assert(shown@ =~= chars@.subrange(0, i + 1));
                }
            }
            i = i + 1;
        }
        if cursor == chars.len() {
            shown.push('|');
        }
        assert(shown@ =~= chars@.insert(cursor as int, '|'));
        string_from_chars(&shown)
    } else {
        buffer.text()
    }
}

/// The text of the input pane.
pub fn input_pane_text(app: &App) -> (r: String)
    requires
        app.wf(),
    ensures
        r@ == display_text(app.input@, app.focused_pane == Pane::Input),
{
    pane_text(&app.input, app.focused_pane == Pane::Input)
}

/// The text of the output pane.
pub fn output_pane_text(app: &App) -> (r: String)
    requires
        app.wf(),
    ensures
        r@ == display_text(app.response@, app.focused_pane == Pane::Output),
{
    pane_text(&app.response, app.focused_pane == Pane::Output)
}

/// The border of the input pane.
pub fn input_highlight(app: &App) -> (r: Highlight)
    ensures
        r == input_highlight_of(*app),
{
    match app.focused_pane {
        Pane::Input => Highlight::Focused,
        Pane::Output => Highlight::Plain,
    }
}

/// The border of the output pane.
pub fn output_highlight(app: &App) -> (r: Highlight)
    ensures
        r == output_highlight_of(*app),
{
    if app.is_loading_completion {
        Highlight::Busy
    } else {
        match app.focused_pane {
            Pane::Output => Highlight::Focused,
            Pane::Input => Highlight::Plain,
        }
    }
}

/// The border of the safety pane.
pub fn safety_highlight(app: &App) -> (r: Highlight)
    ensures
        r == safety_highlight_of(*app),
{
    if app.is_loading_safety_check {
        Highlight::Busy
    } else {
        match app.safety_status {
            SafetyStatus::Safe => Highlight::Safe,
            SafetyStatus::Unsafe => Highlight::Unsafe,
            SafetyStatus::Unknown => Highlight::Plain,
        }
    }
}

/// What the status line says.
pub fn status_line(app: &App) -> (r: StatusLine)
    ensures
        r == status_line_of(*app),
{
    if app.is_loading_completion {
        StatusLine::LoadingCompletion
    } else if app.is_loading_safety_check {
        StatusLine::RunningSafetyCheck
    } else {
        match app.safety_status {
            SafetyStatus::Safe => StatusLine::Safe,
            SafetyStatus::Unsafe => StatusLine::Unsafe,
            SafetyStatus::Unknown => StatusLine::Ready,
        }
    }
}

/// The background colour of the status line.
pub fn status_color(app: &App) -> (r: StatusColor)
    ensures
        r == status_color_of(*app),
{
    if app.is_loading_completion || app.is_loading_safety_check {
        StatusColor::Yellow
    } else {
        match app.safety_status {
            SafetyStatus::Unsafe => StatusColor::Red,
            _ => StatusColor::Green,
        }
    }
}

impl StatusLine {
    /// The words of the status line.
    pub fn text(&self) -> (r: &'static str)
        ensures
            *self == StatusLine::LoadingCompletion ==> r@
                == "Loading completion... | Press Up/Down to navigate, Esc to quit"@,
            *self == StatusLine::RunningSafetyCheck ==> r@
                == "Running safety check... | Press Up/Down to navigate, Esc to quit"@,
            *self == StatusLine::Safe ==> r@
                == "Command appears safe | Press Up/Down to navigate, Esc to quit"@,
            *self == StatusLine::Unsafe ==> r@
                == "\u{26a0}\u{fe0f} Command may be unsafe | Press Up/Down to navigate, Esc to quit"@,
            *self == StatusLine::Ready ==> r@ == "Ready | Press Up/Down to navigate, Esc to quit"@,
    {
        match self {
            StatusLine::LoadingCompletion => "Loading completion... | Press Up/Down to navigate, Esc to quit",
            StatusLine::RunningSafetyCheck => "Running safety check... | Press Up/Down to navigate, Esc to quit",
            StatusLine::Safe => "Command appears safe | Press Up/Down to navigate, Esc to quit",
            StatusLine::Unsafe => "\u{26a0}\u{fe0f} Command may be unsafe | Press Up/Down to navigate, Esc to quit",
            StatusLine::Ready => "Ready | Press Up/Down to navigate, Esc to quit",
        }
    }
}

} // verus!

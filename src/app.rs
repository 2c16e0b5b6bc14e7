use vstd::prelude::*;
use vstd::string::StringExecFns;

use crate::event::{Action, ActionModel, AppEvent, AppEventModel, Event, EventModel, KeyCode, KeyEvent};
use crate::text::{
    after_edit, all_white, is_blank, lemma_trimmed_head_ignores_surrounding_white, trimmed_first,
    trimmed_head, trims_to_empty, Edit, TextBuffer,
};

verus! {

/// The verdict read from a safety check.
#[derive(Clone, Copy, Debug, PartialEq, Eq, Structural)]
pub enum SafetyStatus {
    Unknown,
    Safe,
    Unsafe,
}

/// The two editable panes; exactly one has the focus.
#[derive(Clone, Copy, Debug, PartialEq, Eq, Structural)]
pub enum Pane {
    Input,
    Output,
}

/// The session state of the interactive application.
pub struct App {
    pub running: bool,
    pub focused_pane: Pane,
    pub input: TextBuffer,
    pub response: TextBuffer,
    pub safety_check_text: String,
    pub is_loading_completion: bool,
    pub is_loading_safety_check: bool,
    pub safety_status: SafetyStatus,
}

/// The session state with texts as sequences of characters.
pub struct AppModel {
    pub running: bool,
    pub focused_pane: Pane,
    pub input: (Seq<char>, nat),
    pub response: (Seq<char>, nat),
    pub safety_check_text: Seq<char>,
    pub is_loading_completion: bool,
    pub is_loading_safety_check: bool,
    pub safety_status: SafetyStatus,
}

impl View for App {
    type V = AppModel;

    open spec fn view(&self) -> AppModel {
        AppModel {
            running: self.running,
            focused_pane: self.focused_pane,
            input: self.input@,
            response: self.response@,
            safety_check_text: self.safety_check_text@,
            is_loading_completion: self.is_loading_completion,
            is_loading_safety_check: self.is_loading_safety_check,
            safety_status: self.safety_status,
        }
    }
}

/// The other pane.
pub open spec fn toggled(p: Pane) -> Pane {
    match p {
        Pane::Input => Pane::Output,
        Pane::Output => Pane::Input,
    }
}

/// Escape, or Control with `c` or `C`.
pub open spec fn is_quit_key(k: KeyEvent) -> bool {
    k.code == KeyCode::Esc || (k.control && (k.code == KeyCode::Char('c') || k.code
        == KeyCode::Char('C')))
}

/// The verdict of a safety check text: its first character once leading
/// whitespace is removed, `Y` for safe and `N` for unsafe; anything else
/// leaves it unknown.
pub open spec fn safety_status_of(t: Seq<char>) -> SafetyStatus {
    match trimmed_head(t) {
        Some(c) => if c == 'Y' {
            SafetyStatus::Safe
        } else if c == 'N' {
            SafetyStatus::Unsafe
        } else {
            SafetyStatus::Unknown
        },
        None => SafetyStatus::Unknown,
    }
}

/// The model with the focused pane's buffer edited.
pub open spec fn edit_focused(m: AppModel, e: Edit) -> AppModel {
    match m.focused_pane {
        Pane::Input => AppModel { input: after_edit(m.input, e), ..m },
        Pane::Output => AppModel { response: after_edit(m.response, e), ..m },
    }
}

/// The state and action after a key press.
pub open spec fn key_step(m: AppModel, k: KeyEvent) -> (AppModel, ActionModel) {
    if is_quit_key(k) {
        (m, ActionModel::Post(AppEventModel::Quit))
    } else {
        match k.code {
            KeyCode::Up | KeyCode::Down => (
                AppModel { focused_pane: toggled(m.focused_pane), ..m },
                ActionModel::Nothing,
            ),
            KeyCode::Enter => match m.focused_pane {
                Pane::Input => (m, ActionModel::Post(AppEventModel::RequestCompletion(m.input.0))),
                Pane::Output => (m, ActionModel::Post(AppEventModel::ExecuteCommand(m.response.0))),
            },
            KeyCode::Char(c) => (edit_focused(m, Edit::Insert(c)), ActionModel::Nothing),
            KeyCode::Backspace => (edit_focused(m, Edit::Backspace), ActionModel::Nothing),
            _ => (m, ActionModel::Nothing),
        }
    }
}

/// The state and action after an application event.
pub open spec fn app_event_step(m: AppModel, e: AppEventModel) -> (AppModel, ActionModel) {
    match e {
        AppEventModel::Quit => (AppModel { running: false, ..m }, ActionModel::Nothing),
        AppEventModel::RequestCompletion(t) => if trims_to_empty(t) {
            (m, ActionModel::Nothing)
        } else {
            (
                AppModel {
                    is_loading_completion: true,
                    safety_status: SafetyStatus::Unknown,
                    ..m
                },
                ActionModel::SpawnCompletion(t),
            )
        },
        AppEventModel::CompletionResponse(t) => (
            AppModel {
                is_loading_completion: false,
                response: (t, t.len()),
                is_loading_safety_check: true,
                ..m
            },
            ActionModel::SpawnSafetyCheck(t),
        ),
        AppEventModel::CompletionError(msg) => {
            let t = "Error: "@ + msg;
            (
                AppModel { is_loading_completion: false, response: (t, t.len()), ..m },
                ActionModel::Nothing,
            )
        },
        AppEventModel::SafetyCheckResponse(t) => (
            AppModel {
                is_loading_safety_check: false,
                safety_check_text: t,
                safety_status: safety_status_of(t),
                ..m
            },
            ActionModel::Nothing,
        ),
        AppEventModel::SafetyCheckError(msg) => (
            AppModel {
                is_loading_safety_check: false,
                safety_check_text: "Safety check error: "@ + msg,
                safety_status: SafetyStatus::Unknown,
                ..m
            },
            ActionModel::Nothing,
        ),
        AppEventModel::ExecuteCommand(t) => if trims_to_empty(t) {
            (m, ActionModel::Nothing)
        } else {
            (m, ActionModel::Execute(t))
        },
    }
}

/// The state and action after any event of the merged stream.
pub open spec fn event_step(m: AppModel, e: EventModel) -> (AppModel, ActionModel) {
    match e {
        EventModel::Tick => (m, ActionModel::Nothing),
        EventModel::Key(k) => key_step(m, k),
        EventModel::App(a) => app_event_step(m, a),
    }
}

/// Room in both buffers for one more character.
pub open spec fn has_room(m: AppModel) -> bool {
    m.input.0.len() < usize::MAX && m.response.0.len() < usize::MAX
}

/// Enter with the focus on the input pane posts exactly one event: a
/// completion request carrying the current input text, unchanged; the
/// state stays as it was.
pub proof fn lemma_enter_on_input_requests_completion(m: AppModel, control: bool)
    requires
        m.focused_pane == Pane::Input,
    ensures
        key_step(m, KeyEvent { code: KeyCode::Enter, control }) == (
            m,
            ActionModel::Post(AppEventModel::RequestCompletion(m.input.0)),
        ),
{
}

/// A completion response starts exactly one safety check, of the very text
/// that the response carried, which also becomes the output pane's text.
pub proof fn lemma_completion_response_starts_safety_check(m: AppModel, t: Seq<char>)
    ensures
        event_step(m, EventModel::App(AppEventModel::CompletionResponse(t))).1
            == ActionModel::SpawnSafetyCheck(t),
        event_step(m, EventModel::App(AppEventModel::CompletionResponse(t))).0.response.0 == t,
        event_step(m, EventModel::App(AppEventModel::CompletionResponse(t))).0.is_loading_safety_check,
{
}

/// A completion request that is not blank sets the safety status back to
/// unknown and marks the completion as loading as soon as it is handled,
/// before any response can arrive.
pub proof fn lemma_request_resets_safety_status(m: AppModel, t: Seq<char>)
    requires
        !trims_to_empty(t),
    ensures
        event_step(m, EventModel::App(AppEventModel::RequestCompletion(t))).0.safety_status
            == SafetyStatus::Unknown,
        event_step(m, EventModel::App(AppEventModel::RequestCompletion(t))).0.is_loading_completion,
        event_step(m, EventModel::App(AppEventModel::RequestCompletion(t))).1
            == ActionModel::SpawnCompletion(t),
{
}

/// Up or Down moves the focus to the other pane, whichever it was; doing
/// it twice brings it back, and no third pane is ever reached.
pub proof fn lemma_up_down_toggles_focus(m: AppModel, k: KeyEvent)
    requires
        k.code == KeyCode::Up || k.code == KeyCode::Down,
    ensures
        key_step(m, k).0.focused_pane == toggled(m.focused_pane),
        key_step(m, k).0.focused_pane != m.focused_pane,
        key_step(key_step(m, k).0, k).0.focused_pane == m.focused_pane,
        m.focused_pane == Pane::Input ==> key_step(m, k).0.focused_pane == Pane::Output,
        m.focused_pane == Pane::Output ==> key_step(m, k).0.focused_pane == Pane::Input,
{
}

/// The verdict depends on the trimmed text alone: whitespace before or
/// after the text does not change it.
pub proof fn lemma_safety_status_of_trimmed_text(w1: Seq<char>, t: Seq<char>, w2: Seq<char>)
    requires
        all_white(w1),
        all_white(w2),
    ensures
        safety_status_of(w1 + t + w2) == safety_status_of(t),
{
    lemma_trimmed_head_ignores_surrounding_white(w1, t, w2);
}

/// Reads the verdict of a safety check text.
pub fn safety_status_from(text: &str) -> (r: SafetyStatus)
    ensures
        r == safety_status_of(text@),
{
    match trimmed_first(text) {
        Some(c) => if c == 'Y' {
            SafetyStatus::Safe
        } else if c == 'N' {
            SafetyStatus::Unsafe
        } else {
            SafetyStatus::Unknown
        },
        None => SafetyStatus::Unknown,
    }
}

impl App {
    /// Both cursors lie within their texts.
    pub open spec fn wf(&self) -> bool {
        self.input.wf() && self.response.wf()
    }

    /// A running session: empty buffers, focus on the input pane, nothing
    /// loading, safety unknown.
    pub fn new() -> (r: App)
        ensures
            r.wf(),
            r@.running,
            r@.focused_pane == Pane::Input,
            r@.input == (Seq::<char>::empty(), 0nat),
            r@.response == (Seq::<char>::empty(), 0nat),
            r@.safety_check_text == Seq::<char>::empty(),
            !r@.is_loading_completion,
            !r@.is_loading_safety_check,
            r@.safety_status == SafetyStatus::Unknown,
    {
        App {
            running: true,
            focused_pane: Pane::Input,
            input: TextBuffer::new(),
            response: TextBuffer::new(),
            safety_check_text: String::new(),
            is_loading_completion: false,
            is_loading_safety_check: false,
            safety_status: SafetyStatus::Unknown,
        }
    }

    /// Periodic work: there is none.
    pub fn tick(&self) {
    }

    /// Ends the main loop.
    pub fn quit(&mut self)
        ensures
            final(self)@ == (AppModel { running: false, ..old(self)@ }),
    {
        self.running = false;
    }

    /// Applies a key press and returns what it asks of the event loop.
    pub fn handle_key_events(&mut self, key: KeyEvent) -> (r: Action)
        requires
            old(self).wf(),
            has_room(old(self)@),
        ensures
            final(self).wf(),
            (final(self)@, r@) == key_step(old(self)@, key),
    {
        let quit = match key.code {
            KeyCode::Esc => true,
            KeyCode::Char(c) => key.control && (c == 'c' || c == 'C'),
            _ => false,
        };
        if quit {
            return Action::Post(AppEvent::Quit);
        }
        match key.code {
            KeyCode::Up | KeyCode::Down => {
                self.focused_pane = match self.focused_pane {
                    Pane::Input => Pane::Output,
                    Pane::Output => Pane::Input,
                };
                Action::Nothing
            },
            KeyCode::Enter => match self.focused_pane {
                Pane::Input => Action::Post(AppEvent::RequestCompletion(self.input.text())),
                Pane::Output => Action::Post(AppEvent::ExecuteCommand(self.response.text())),
            },
            KeyCode::Char(c) => {
                match self.focused_pane {
                    Pane::Input => self.input.insert_char(c),
                    Pane::Output => self.response.insert_char(c),
                }
                Action::Nothing
            },
            KeyCode::Backspace => {
                match self.focused_pane {
                    Pane::Input => self.input.backspace(),
                    Pane::Output => self.response.backspace(),
                }
                Action::Nothing
            },
            _ => Action::Nothing,
        }
    }

    /// Starts a completion for `input`, unless it is blank.
    fn handle_completion_request(&mut self, input: String) -> (r: Action)
        ensures
            (final(self)@, r@) == app_event_step(
                old(self)@,
                AppEventModel::RequestCompletion(input@),
            ),
    {
        if is_blank(input.as_str()) {
            return Action::Nothing;
        }
        self.is_loading_completion = true;
        self.safety_status = SafetyStatus::Unknown;
        Action::SpawnCompletion(input)
    }

    /// Starts a safety check of `input`.
    fn check_completion_request(&mut self, input: String) -> (r: Action)
        ensures
            final(self)@ == (AppModel { is_loading_safety_check: true, ..old(self)@ }),
            r@ == ActionModel::SpawnSafetyCheck(input@),
    {
        self.is_loading_safety_check = true;
        Action::SpawnSafetyCheck(input)
    }

    /// Asks for `command` to be run in place of this process, unless it is blank.
    fn execute_command(&self, command: String) -> (r: Action)
        ensures
            r@ == app_event_step(self@, AppEventModel::ExecuteCommand(command@)).1,
    {
        if is_blank(command.as_str()) {
            Action::Nothing
        } else {
            Action::Execute(command)
        }
    }

    /// Applies one event of the merged stream and returns what it asks of the
    /// event loop.
    pub fn handle_event(&mut self, event: Event) -> (r: Action)
        requires
            old(self).wf(),
            has_room(old(self)@),
        ensures
            final(self).wf(),
            (final(self)@, r@) == event_step(old(self)@, event@),
    {
        match event {
            Event::Tick => {
                self.tick();
                Action::Nothing
            },
            Event::Key(k) => self.handle_key_events(k),
            Event::App(app_event) => match app_event {
                AppEvent::Quit => {
                    self.quit();
                    Action::Nothing
                },
                AppEvent::RequestCompletion(input) => self.handle_completion_request(input),
                AppEvent::CompletionResponse(response) => {
                    self.is_loading_completion = false;
                    self.response = TextBuffer::from_str(response.as_str());
                    self.check_completion_request(response)
                },
                AppEvent::CompletionError(error) => {
                    self.is_loading_completion = false;
                    let mut text = "Error: ".to_owned();
                    text.append(error.as_str());
                    self.response = TextBuffer::from_str(text.as_str());
                    Action::Nothing
                },
                AppEvent::SafetyCheckResponse(response) => {
                    self.is_loading_safety_check = false;
                    self.safety_status = safety_status_from(response.as_str());
                    self.safety_check_text = response;
                    Action::Nothing
                },
                AppEvent::SafetyCheckError(error) => {
                    self.is_loading_safety_check = false;
                    let mut text = "Safety check error: ".to_owned();
                    text.append(error.as_str());
                    self.safety_check_text = text;
                    self.safety_status = SafetyStatus::Unknown;
                    Action::Nothing
                },
                AppEvent::ExecuteCommand(command) => self.execute_command(command),
            },
        }
    }
}

} // verus!

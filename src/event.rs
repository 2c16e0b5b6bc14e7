use vstd::prelude::*;

verus! {

/// The key that was pressed, as far as the application tells keys apart.
#[derive(Clone, Copy, Debug, PartialEq, Eq, Structural)]
pub enum KeyCode {
    Esc,
    Up,
    Down,
    Enter,
    Backspace,
    Char(char),
    Other,
}

/// A key press: the key, and whether Control was its only modifier.
#[derive(Clone, Copy, Debug, PartialEq, Eq, Structural)]
pub struct KeyEvent {
    pub code: KeyCode,
    pub control: bool,
}

/// Events that the application posts to itself, or that background work
/// posts back to it.
#[derive(Clone, Debug)]
pub enum AppEvent {
    Quit,
    RequestCompletion(String),
    CompletionResponse(String),
    CompletionError(String),
    SafetyCheckResponse(String),
    SafetyCheckError(String),
    ExecuteCommand(String),
}

/// What an [`AppEvent`] carries, with its text as a sequence of characters.
pub enum AppEventModel {
    Quit,
    RequestCompletion(Seq<char>),
    CompletionResponse(Seq<char>),
    CompletionError(Seq<char>),
    SafetyCheckResponse(Seq<char>),
    SafetyCheckError(Seq<char>),
    ExecuteCommand(Seq<char>),
}

impl View for AppEvent {
    type V = AppEventModel;

    open spec fn view(&self) -> AppEventModel {
        match self {
            AppEvent::Quit => AppEventModel::Quit,
            AppEvent::RequestCompletion(s) => AppEventModel::RequestCompletion(s@),
            AppEvent::CompletionResponse(s) => AppEventModel::CompletionResponse(s@),
            AppEvent::CompletionError(s) => AppEventModel::CompletionError(s@),
            AppEvent::SafetyCheckResponse(s) => AppEventModel::SafetyCheckResponse(s@),
            AppEvent::SafetyCheckError(s) => AppEventModel::SafetyCheckError(s@),
            AppEvent::ExecuteCommand(s) => AppEventModel::ExecuteCommand(s@),
        }
    }
}

/// One item of the merged event stream: a timer tick, a key press from the
/// terminal, or an application event.
#[derive(Clone, Debug)]
pub enum Event {
    Tick,
    Key(KeyEvent),
    App(AppEvent),
}

/// What an [`Event`] carries.
pub enum EventModel {
    Tick,
    Key(KeyEvent),
    App(AppEventModel),
}

impl View for Event {
    type V = EventModel;

    open spec fn view(&self) -> EventModel {
        match self {
            Event::Tick => EventModel::Tick,
            Event::Key(k) => EventModel::Key(*k),
            Event::App(e) => EventModel::App(e@),
        }
    }
}

/// The work that handling an event asks of the surrounding program.
#[derive(Clone, Debug)]
pub enum Action {
    /// Nothing to do.
    Nothing,
    /// Post this event to the event queue.
    Post(AppEvent),
    /// Start a background completion for this instruction.
    SpawnCompletion(String),
    /// Start a background safety check of this command.
    SpawnSafetyCheck(String),
    /// Restore the terminal and replace the process with a shell running
    /// this command.
    Execute(String),
}

/// What an [`Action`] carries.
pub enum ActionModel {
    Nothing,
    Post(AppEventModel),
    SpawnCompletion(Seq<char>),
    SpawnSafetyCheck(Seq<char>),
    Execute(Seq<char>),
}

impl View for Action {
    type V = ActionModel;

    open spec fn view(&self) -> ActionModel {
        match self {
            Action::Nothing => ActionModel::Nothing,
            Action::Post(e) => ActionModel::Post(e@),
            Action::SpawnCompletion(s) => ActionModel::SpawnCompletion(s@),
            Action::SpawnSafetyCheck(s) => ActionModel::SpawnSafetyCheck(s@),
            Action::Execute(s) => ActionModel::Execute(s@),
        }
    }
}

} // verus!

//! The window's state and its two actions. The state is two read-only texts
//! loaded at startup and two buffers: what the user typed and what is shown
//! as the answer. Events come from the window and from calls that resolve;
//! the shell around this module draws, sends and waits.

use crate::reply::{result_view, ChatError, ChatErrorView};
use vstd::prelude::*;

verus! {

/// What is missing when the program cannot start.
#[derive(Clone, Copy, Debug, PartialEq, Eq, Structural)]
pub enum StartupError {
    /// No environment variable holds the API key.
    MissingApiKey,
    /// The instruction file could not be read.
    MissingInstructions,
}

impl StartupError {
    /// The message to leave the process with.
    pub open spec fn message_text(self) -> Seq<char> {
        match self {
            StartupError::MissingApiKey => "API key not found in the environment"@,
            StartupError::MissingInstructions => "unable to read the instruction file"@,
        }
    }

    /// The message to leave the process with.
    pub fn message(self) -> (text: &'static str)
        ensures
            text@ == self.message_text(),
    {
        match self {
            StartupError::MissingApiKey => "API key not found in the environment",
            StartupError::MissingInstructions => "unable to read the instruction file",
        }
    }
}

/// Everything that lives as long as the process.
#[derive(Clone, Debug, PartialEq, Eq)]
pub struct AppState {
    /// The bearer token, loaded once.
    pub api_key: String,
    /// The system instruction, loaded once.
    pub instruction_text: String,
    /// What the user has typed so far.
    pub user_input: String,
    /// What the answer field shows.
    pub last_response: String,
}

/// The state as contracts see it.
pub struct AppStateView {
    pub api_key: Seq<char>,
    pub instruction_text: Seq<char>,
    pub user_input: Seq<char>,
    pub last_response: Seq<char>,
}

impl View for AppState {
    type V = AppStateView;

    open spec fn view(&self) -> AppStateView {
        AppStateView {
            api_key: self.api_key@,
            instruction_text: self.instruction_text@,
            user_input: self.user_input@,
            last_response: self.last_response@,
        }
    }
}

/// The state right after startup: both buffers empty.
pub open spec fn initial_state(api_key: Seq<char>, instruction_text: Seq<char>) -> AppStateView {
    AppStateView {
        api_key,
        instruction_text,
        user_input: Seq::empty(),
        last_response: Seq::empty(),
    }
}

/// What startup gives for what was found: the key is looked for first, then
/// the instructions, and the state exists only where both are there.
pub open spec fn startup_outcome(
    api_key: Option<Seq<char>>,
    instruction_text: Option<Seq<char>>,
) -> Result<AppStateView, StartupError> {
    match (api_key, instruction_text) {
        (None, _) => Err(StartupError::MissingApiKey),
        (Some(_), None) => Err(StartupError::MissingInstructions),
        (Some(key), Some(text)) => Ok(initial_state(key, text)),
    }
}

/// The texts inside two optional strings.
pub open spec fn optional_text(text: Option<String>) -> Option<Seq<char>> {
    match text {
        Some(t) => Some(t@),
        None => None,
    }
}

/// What a started program holds, as contracts see it.
pub open spec fn startup_view(started: Result<AppState, StartupError>) -> Result<
    AppStateView,
    StartupError,
> {
    match started {
        Ok(state) => Ok(state@),
        Err(error) => Err(error),
    }
}

/// What one press of Send hands to the call: copies of the three texts as
/// they were at the press.
#[derive(Clone, Debug, PartialEq, Eq)]
pub struct SendJob {
    pub api_key: String,
    pub instructions: String,
    pub user_text: String,
}

/// A job as contracts see it.
pub struct SendJobView {
    pub api_key: Seq<char>,
    pub instructions: Seq<char>,
    pub user_text: Seq<char>,
}

impl View for SendJob {
    type V = SendJobView;

    open spec fn view(&self) -> SendJobView {
        SendJobView {
            api_key: self.api_key@,
            instructions: self.instructions@,
            user_text: self.user_text@,
        }
    }
}

/// What can happen to the window.
#[derive(Debug)]
pub enum UiEvent {
    /// The input field now holds this text.
    InputEdited(String),
    /// The user pressed Send.
    SendPressed,
    /// The user pressed Quit.
    QuitPressed,
    /// A call that was dispatched earlier has resolved.
    CallResolved(Result<String, ChatError>),
}

/// An event as contracts see it.
pub enum UiEventView {
    InputEdited(Seq<char>),
    SendPressed,
    QuitPressed,
    CallResolved(Result<Seq<char>, ChatErrorView>),
}

impl View for UiEvent {
    type V = UiEventView;

    open spec fn view(&self) -> UiEventView {
        match self {
            UiEvent::InputEdited(text) => UiEventView::InputEdited(text@),
            UiEvent::SendPressed => UiEventView::SendPressed,
            UiEvent::QuitPressed => UiEventView::QuitPressed,
            UiEvent::CallResolved(result) => UiEventView::CallResolved(result_view(*result)),
        }
    }
}

/// What the shell has to do after an event.
#[derive(Clone, Debug, PartialEq, Eq)]
pub enum UiAction {
    /// Nothing but to draw the next frame.
    Nothing,
    /// Start one call with this job, without waiting for any other.
    Dispatch(SendJob),
    /// Close the window.
    Close,
}

/// An action as contracts see it.
pub enum UiActionView {
    Nothing,
    Dispatch(SendJobView),
    Close,
}

impl View for UiAction {
    type V = UiActionView;

    open spec fn view(&self) -> UiActionView {
        match self {
            UiAction::Nothing => UiActionView::Nothing,
            UiAction::Dispatch(job) => UiActionView::Dispatch(job@),
            UiAction::Close => UiActionView::Close,
        }
    }
}

/// What the answer field shows for a resolved call: the answer as it is, or
/// the failure's detail behind a fixed prefix.
pub open spec fn shown_text(result: Result<Seq<char>, ChatErrorView>) -> Seq<char> {
    match result {
        Ok(text) => text,
        Err(error) => "Error: "@ + error.detail_text(),
    }
}

/// The state after an event. An edit replaces the input; a resolved call
/// replaces the shown answer as a whole; the two buttons change nothing.
pub open spec fn next_state(state: AppStateView, event: UiEventView) -> AppStateView {
    match event {
        UiEventView::InputEdited(text) => AppStateView { user_input: text, ..state },
        UiEventView::SendPressed => state,
        UiEventView::QuitPressed => state,
        UiEventView::CallResolved(result) => AppStateView {
            last_response: shown_text(result),
            ..state
        },
    }
}

/// The action an event asks for. Send copies the key, the instructions and
/// the input as they are now; Quit closes; the rest asks for nothing.
pub open spec fn action_for(state: AppStateView, event: UiEventView) -> UiActionView {
    match event {
        UiEventView::InputEdited(_) => UiActionView::Nothing,
        UiEventView::SendPressed => UiActionView::Dispatch(
            SendJobView {
                api_key: state.api_key,
                instructions: state.instruction_text,
                user_text: state.user_input,
            },
        ),
        UiEventView::QuitPressed => UiActionView::Close,
        UiEventView::CallResolved(_) => UiActionView::Nothing,
    }
}

/// The text the answer field shows for a resolved call.
pub fn display_text(result: Result<String, ChatError>) -> (text: String)
    ensures
        text@ == shown_text(result_view(result)),
{
    match result {
        Ok(answer) => answer,
        Err(error) => {
            let mut text = String::from_str("Error: ");
            let detail = error.detail();
            text.append(detail.as_str());
            text
        },
    }
}

impl AppState {
    /// The state right after startup.
    pub fn new(api_key: String, instruction_text: String) -> (state: AppState)
        ensures
            state@ == initial_state(api_key@, instruction_text@),
    {
        AppState { api_key, instruction_text, user_input: String::new(), last_response: String::new() }
    }

    /// Starts from what the key's variable and the instruction file gave. Either
    /// one missing is an error of its own, the key's first.
    pub fn startup(api_key: Option<String>, instruction_text: Option<String>) -> (started: Result<
        AppState,
        StartupError,
    >)
        ensures
            startup_view(started) == startup_outcome(
                optional_text(api_key),
                optional_text(instruction_text),
            ),
    {
        match api_key {
            None => Err(StartupError::MissingApiKey),
            Some(key) => match instruction_text {
                None => Err(StartupError::MissingInstructions),
                Some(text) => Ok(AppState::new(key, text)),
            },
        }
    }

    /// The job a press of Send would dispatch now.
    pub fn capture(&self) -> (job: SendJob)
        ensures
            action_for(self@, UiEventView::SendPressed) == UiActionView::Dispatch(job@),
    {
        SendJob {
            api_key: self.api_key.clone(),
            instructions: self.instruction_text.clone(),
            user_text: self.user_input.clone(),
        }
    }

    /// Applies one event and says what the shell has to do.
    pub fn handle(&mut self, event: UiEvent) -> (action: UiAction)
        ensures
            final(self)@ == next_state(old(self)@, event@),
            action@ == action_for(old(self)@, event@),
    {
        match event {
            UiEvent::InputEdited(text) => {
                self.user_input = text;
                UiAction::Nothing
            },
            UiEvent::SendPressed => UiAction::Dispatch(self.capture()),
            UiEvent::QuitPressed => UiAction::Close,
            UiEvent::CallResolved(result) => {
                self.last_response = display_text(result);
                UiAction::Nothing
            },
        }
    }
}

/// The state after a run of events, applied in their order.
pub open spec fn run(state: AppStateView, events: Seq<UiEventView>) -> AppStateView
    decreases events.len(),
{
    if events.len() == 0 {
        state
    } else {
        next_state(run(state, events.drop_last()), events.last())
    }
}

/// The result of the call that resolved last in a run of events, if any did.
pub open spec fn last_resolved(events: Seq<UiEventView>) -> Option<
    Result<Seq<char>, ChatErrorView>,
>
    decreases events.len(),
{
    if events.len() == 0 {
        None
    } else {
        match events.last() {
            UiEventView::CallResolved(result) => Some(result),
            _ => last_resolved(events.drop_last()),
        }
    }
}

/// Last completion wins. However presses, edits and resolved calls follow
/// one another, the answer field shows the whole text of the call that
/// resolved last and nothing of any other; before any call resolves it shows
/// what it showed at the start.
pub proof fn lemma_last_completion_wins(state: AppStateView, events: Seq<UiEventView>)
    ensures
        run(state, events).last_response == (match last_resolved(events) {
            Some(result) => shown_text(result),
            None => state.last_response,
        }),
    decreases events.len(),
{
    if events.len() > 0 {
        lemma_last_completion_wins(state, events.drop_last());
    }
}

/// The key and the instructions are read-only after startup: no run of
/// events changes them.
pub proof fn lemma_configuration_is_fixed(state: AppStateView, events: Seq<UiEventView>)
    ensures
        run(state, events).api_key == state.api_key,
        run(state, events).instruction_text == state.instruction_text,
    decreases events.len(),
{
    if events.len() > 0 {
        lemma_configuration_is_fixed(state, events.drop_last());
    }
}

/// Two calls that resolve one after the other, with nothing resolving in
/// between: the field ends with the second result, whichever was sent first
/// and whatever the first one wrote.
pub proof fn lemma_second_of_two_wins(
    state: AppStateView,
    first: Result<Seq<char>, ChatErrorView>,
    second: Result<Seq<char>, ChatErrorView>,
)
    ensures
        next_state(
            next_state(state, UiEventView::CallResolved(first)),
            UiEventView::CallResolved(second),
        ).last_response == shown_text(second),
{
}

} // verus!

//! The four-state machine that drives one entry generation: it starts on
//! the wizard's ready signal, observes the outcome, routes the wizard to
//! its follow-up state (back to name entry on a name clash, back to the
//! last picker on any other failure, on to the completion panel on
//! success), and resets itself for the next entry.

use vstd::prelude::*;
use vstd::string::*;

use crate::state::{App, InputState};
use crate::strutil::{file_name_part_of, is_substring_of, contains_str, path_file_name};

verus! {

/// Where the generation machine stands.
#[derive(Debug, Clone, Copy, PartialEq, Eq, Structural)]
pub enum FileGenState {
    Idle,
    Generating,
    Success,
    Error,
}

/// The display form of a generation state.
pub open spec fn filegen_state_name(s: FileGenState) -> Seq<char> {
    match s {
        FileGenState::Idle => "Idle"@,
        FileGenState::Generating => "Generating"@,
        FileGenState::Success => "Success"@,
        FileGenState::Error => "Error"@,
    }
}

impl FileGenState {
    pub fn name(self) -> (r: &'static str)
        ensures
            r@ == filegen_state_name(self),
    {
        match self {
            Self::Idle => "Idle",
            Self::Generating => "Generating",
            Self::Success => "Success",
            Self::Error => "Error",
        }
    }

    /// Wraps this state as the follow-up state of a transition.
    pub fn next_state(self) -> (r: NextState)
        ensures
            r.0 == self,
    {
        NextState::new(self)
    }
}

/// What happened around one generation attempt.
#[derive(Debug)]
pub enum FileGenEvent {
    StartGeneration,
    Success(String),
    Error(String),
    Reset,
}

/// The display form of a generation event, payload included.
pub open spec fn filegen_event_text(e: FileGenEvent) -> Seq<char> {
    match e {
        FileGenEvent::StartGeneration => "StartGeneration"@,
        FileGenEvent::Success(path) => "Success("@ + path@ + ")"@,
        FileGenEvent::Error(msg) => "Error("@ + msg@ + ")"@,
        FileGenEvent::Reset => "Reset"@,
    }
}

impl FileGenEvent {
    pub fn describe(&self) -> (r: String)
        ensures
            r@ == filegen_event_text(*self),
    {
        match self {
            Self::StartGeneration => String::from_str("StartGeneration"),
            Self::Success(path) => {
                let mut s = String::from_str("Success(");
                s.append(path.as_str());
                s.append(")");
                s
            },
            Self::Error(msg) => {
                let mut s = String::from_str("Error(");
                s.append(msg.as_str());
                s.append(")");
                s
            },
            Self::Reset => String::from_str("Reset"),
        }
    }

    /// Copies an event, preserving the value exactly.
    pub fn duplicate(&self) -> (r: Self)
        ensures
            r == *self,
    {
        match self {
            Self::StartGeneration => Self::StartGeneration,
            Self::Success(path) => Self::Success(path.clone()),
            Self::Error(msg) => Self::Error(msg.clone()),
            Self::Reset => Self::Reset,
        }
    }
}

/// An event arrived in a state that has no transition for it.
#[derive(Debug)]
pub struct StateTransitionError {
    pub from: FileGenState,
    pub event: FileGenEvent,
}

impl StateTransitionError {
    pub fn message(&self) -> (r: String)
        ensures
            r@ == "Invalid transition from "@ + filegen_state_name(self.from) + " with event "@
                + filegen_event_text(self.event),
    {
        let mut s = String::from_str("Invalid transition from ");
        s.append(self.from.name());
        s.append(" with event ");
        let event_text = self.event.describe();
        s.append(event_text.as_str());
        s
    }
}

/// The follow-up state of a transition.
pub struct NextState(pub FileGenState);

impl NextState {
    pub fn new(state: FileGenState) -> (r: Self)
        ensures
            r.0 == state,
    {
        NextState(state)
    }
}

/// The machine's transition table; `None` marks an invalid pair.
pub open spec fn filegen_next(s: FileGenState, e: FileGenEvent) -> Option<FileGenState> {
    match (s, e) {
        (FileGenState::Idle, FileGenEvent::StartGeneration) => Some(FileGenState::Generating),
        (FileGenState::Generating, FileGenEvent::Success(_)) => Some(FileGenState::Success),
        (FileGenState::Generating, FileGenEvent::Error(_)) => Some(FileGenState::Error),
        (FileGenState::Success, FileGenEvent::Reset) => Some(FileGenState::Idle),
        (FileGenState::Error, FileGenEvent::Reset) => Some(FileGenState::Idle),
        _ => None,
    }
}

/// The file name shown after a successful generation: the path's last
/// segment, or a placeholder when it is empty.
pub open spec fn filegen_display_name(p: Seq<char>) -> Seq<char> {
    if file_name_part_of(p).len() == 0 {
        "unknown"@
    } else {
        file_name_part_of(p)
    }
}

/// The generation state machine.
pub struct FileGenMachine {
    pub state: FileGenState,
}

impl FileGenMachine {
    pub fn new(initial_state: FileGenState) -> (r: Self)
        ensures
            r.state == initial_state,
    {
        FileGenMachine { state: initial_state }
    }

    pub fn state(&self) -> (r: FileGenState)
        ensures
            r == self.state,
    {
        self.state
    }

    /// Feeds one event through the machine.  A valid pair moves the
    /// machine and routes the application: starting shows the wait notice;
    /// success reports the written file and completes the wizard; an error
    /// reports it and sends the wizard back to name entry when the message
    /// speaks of an existing name, else back to the last selection step of
    /// the kind in progress (the status picker for an ADR draft, the ring
    /// picker otherwise); a reset
    /// only rearms the machine.  An invalid pair changes nothing and names
    /// itself.
    pub fn process_event(&mut self, event: &FileGenEvent, app: &mut App) -> (r: Result<
        (),
        StateTransitionError,
    >)
        ensures
            filegen_next(old(self).state, *event) is Some ==> {
                &&& r is Ok
                &&& final(self).state == filegen_next(old(self).state, *event).unwrap()
            },
            filegen_next(old(self).state, *event) is None ==> {
                &&& (r matches Err(err) && err.from == old(self).state && err.event == *event)
                &&& *final(self) == *old(self)
                &&& *final(app) == *old(app)
            },
            old(self).state == FileGenState::Idle && (event is StartGeneration)
                ==> {
                &&& final(app).status_message@ == "Generating file..."@
                &&& *final(app) == (App {
                    status_message: final(app).status_message,
                    ..*old(app)
                })
            },
            old(self).state == FileGenState::Generating && (event is Success) ==> {
                &&& final(app).status_message@ == "File generated: "@ + filegen_display_name(
                    (event->Success_0)@,
                )
                &&& final(app).input_state == InputState::Completed
                &&& *final(app) == (App {
                    status_message: final(app).status_message,
                    input_state: InputState::Completed,
                    ..*old(app)
                })
            },
            old(self).state == FileGenState::Generating && (event is Error) ==> {
                let msg = (event->Error_0)@;
                &&& final(app).status_message@ == "Error: "@ + msg
                &&& (is_substring_of("already exists"@, msg) ==> final(app).input_state
                    == InputState::EnteringTechnology && final(app).current_input == old(app).blip_data.name)
                &&& (!is_substring_of("already exists"@, msg) && old(app).input_mode == Some(
                    crate::state::InputMode::Adr,
                ) ==> final(app).input_state == InputState::ChoosingAdrStatus && final(app).current_input == old(app).current_input)
                &&& (!is_substring_of("already exists"@, msg) && old(app).input_mode != Some(
                    crate::state::InputMode::Adr,
                ) ==> final(app).input_state == InputState::ChoosingRing && final(app).current_input == old(app).current_input)
                &&& *final(app) == (App {
                    status_message: final(app).status_message,
                    input_state: final(app).input_state,
                    current_input: final(app).current_input,
                    ..*old(app)
                })
            },
            (old(self).state == FileGenState::Success || old(self).state == FileGenState::Error)
                && (event is Reset) ==> *final(app) == *old(app),
    {
        match (self.state, event) {
            (FileGenState::Idle, FileGenEvent::StartGeneration) => {
                app.status_message = String::from_str("Generating file...");
                let next = FileGenState::Generating.next_state();
                self.state = next.0;
                Ok(())
            },
            (FileGenState::Generating, FileGenEvent::Success(path)) => {
                let filename = path_file_name(path.as_str());
                let mut message = String::from_str("File generated: ");
                if filename.unicode_len() == 0 {
                    message.append("unknown");
                } else {
                    message.append(filename.as_str());
                }
                app.status_message = message;
                app.input_state = InputState::Completed;
                let next = FileGenState::Success.next_state();
                self.state = next.0;
                Ok(())
            },
            (FileGenState::Generating, FileGenEvent::Error(error)) => {
                let mut message = String::from_str("Error: ");
                message.append(error.as_str());
                app.status_message = message;
                if contains_str(error.as_str(), "already exists") {
                    app.input_state = InputState::EnteringTechnology;
                    app.current_input = app.blip_data.name.clone();
                } else if app.input_mode == Some(crate::state::InputMode::Adr) {
                    // Back to the last selection step of the kind in
                    // progress: the status picker for an ADR draft.
                    app.input_state = InputState::ChoosingAdrStatus;
                } else {
                    app.input_state = InputState::ChoosingRing;
                }
                let next = FileGenState::Error.next_state();
                self.state = next.0;
                Ok(())
            },
            (FileGenState::Success, FileGenEvent::Reset) => {
                let next = FileGenState::Idle.next_state();
                self.state = next.0;
                Ok(())
            },
            (FileGenState::Error, FileGenEvent::Reset) => {
                let next = FileGenState::Idle.next_state();
                self.state = next.0;
                Ok(())
            },
            _ => Err(StateTransitionError { from: self.state, event: event.duplicate() }),
        }
    }
}

} // verus!

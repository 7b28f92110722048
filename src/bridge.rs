use vstd::prelude::*;
use vstd::string::StringExecFns;
use crate::protocol::{TimeoutRequest, FileReadRequest, TIMEOUT_EVENT, READ_FILE_EVENT};

verus! {

/// Number of arguments `_send(event, message)` takes.
pub const SEND_ARITY: usize = 2;

/// Failures of the `_send` native.
#[derive(Debug, Clone, Copy, PartialEq, Eq, Structural)]
pub enum SendError {
    /// `_send` was called with other than two arguments; surfaced to script as a
    /// catchable exception.
    ArgumentCount,
    /// The message did not decode into the payload its event requires.
    MalformedPayload,
}

/// Which payload a recognised event carries; `Ignore` for any other event name.
#[derive(Debug, Clone, Copy, PartialEq, Eq, Structural)]
pub enum Dispatch {
    Timeout,
    ReadFile,
    Ignore,
}

pub open spec fn dispatch_of(event: Seq<char>) -> Dispatch {
    if event == TIMEOUT_EVENT@ {
        Dispatch::Timeout
    } else if event == READ_FILE_EVENT@ {
        Dispatch::ReadFile
    } else {
        Dispatch::Ignore
    }
}

/// Outcome of `_send` called with `argc` arguments whose first is `event`.
pub open spec fn send_outcome(argc: usize, event: Seq<char>) -> Result<Dispatch, SendError> {
    if argc != SEND_ARITY {
        Err(SendError::ArgumentCount)
    } else {
        Ok(dispatch_of(event))
    }
}

/// Classifies an event name.
pub fn dispatch_for(event: &str) -> (d: Dispatch)
    ensures
        d == dispatch_of(event@),
{
    let e = String::from_str(event);
    if e == String::from_str(TIMEOUT_EVENT) {
        Dispatch::Timeout
    } else if e == String::from_str(READ_FILE_EVENT) {
        Dispatch::ReadFile
    } else {
        Dispatch::Ignore
    }
}

} // verus!

verus! {

/// Host work that a successful `_send` asks for.
#[derive(Debug)]
pub enum Action {
    /// Register a one-shot timer of `delay_ms` milliseconds, correlated with `id`.
    ScheduleTimer { id: u64, delay_ms: u64 },
    /// Start a worker that reads `filename`, correlated with `id`.
    SpawnRead { id: u64, filename: String },
}

/// [`Action`] with its text taken as characters.
pub enum ActionView {
    ScheduleTimer { id: u64, delay_ms: u64 },
    SpawnRead { id: u64, filename: Seq<char> },
}

impl View for Action {
    type V = ActionView;

    open spec fn view(&self) -> ActionView {
        match self {
            Action::ScheduleTimer { id, delay_ms } => ActionView::ScheduleTimer {
                id: *id,
                delay_ms: *delay_ms,
            },
            Action::SpawnRead { id, filename } => ActionView::SpawnRead {
                id: *id,
                filename: filename@,
            },
        }
    }
}

pub open spec fn timer_action(req: TimeoutRequest) -> ActionView {
    ActionView::ScheduleTimer { id: req.id, delay_ms: req.timeout }
}

pub open spec fn read_action(id: u64, filename: Seq<char>) -> ActionView {
    ActionView::SpawnRead { id, filename }
}

/// The text `_print` writes: the values joined by single spaces.
pub open spec fn joined(parts: Seq<Seq<char>>) -> Seq<char>
    decreases parts.len(),
{
    if parts.len() == 0 {
        Seq::empty()
    } else if parts.len() == 1 {
        parts[0]
    } else {
        joined(parts.drop_last()) + " "@ + parts.last()
    }
}

pub open spec fn texts(values: Seq<String>) -> Seq<Seq<char>> {
    values.map_values(|s: String| s@)
}

/// Joins already-stringified values with a single space between neighbours.
pub fn join_output(values: &Vec<String>) -> (out: String)
    ensures
        out@ == joined(texts(values@)),
{
    let mut out = String::new();
    let mut i: usize = 0;
    while i < values.len()
        invariant
            i <= values.len(),
            out@ == joined(texts(values@.subrange(0, i as int))),
        decreases values.len() - i,
    {
        let ghost before = texts(values@.subrange(0, i as int));
        let ghost after = texts(values@.subrange(0, i + 1));
        assert(after.drop_last() =~= before);
        assert(after.last() == values@[i as int]@);
        if i > 0 {
            out.append(" ");
        } else {
            assert(before.len() == 0);
        }
        out.append(values[i].as_str());
        i += 1;
    }
    assert(values@.subrange(0, values.len() as int) =~= values@);
    out
}

} // verus!

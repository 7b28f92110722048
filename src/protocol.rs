use vstd::prelude::*;

verus! {

/// Name of the event that registers a one-shot timer.
pub const TIMEOUT_EVENT: &'static str = "timeout";

/// Name of the event that reads a whole file on a worker thread.
pub const READ_FILE_EVENT: &'static str = "readFile";

/// Decoded payload of a `timeout` request: fire `_recv("timeout", id)` after
/// `timeout` milliseconds.
#[derive(Debug, Clone, Copy, PartialEq, Eq, Structural)]
pub struct TimeoutRequest {
    pub id: u64,
    pub timeout: u64,
}

/// Decoded payload of a `readFile` request: read `filename` and deliver its
/// contents as `_recv("readFile", id, data)`.
#[derive(Debug)]
pub struct FileReadRequest {
    pub id: u64,
    pub filename: String,
}

/// A message handed from a worker thread to the loop that owns the global.
#[derive(Debug)]
pub struct EventMessage {
    pub id: u64,
    pub event: String,
    pub payload: String,
}

impl View for EventMessage {
    type V = (u64, Seq<char>, Seq<char>);

    open spec fn view(&self) -> (u64, Seq<char>, Seq<char>) {
        (self.id, self.event@, self.payload@)
    }
}

} // verus!

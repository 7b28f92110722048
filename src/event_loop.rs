use vstd::prelude::*;
use vstd::string::StringExecFns;
use crate::bridge::{read_action, timer_action, ActionView};
use crate::protocol::{EventMessage, TimeoutRequest, READ_FILE_EVENT, TIMEOUT_EVENT};

verus! {

/// Name of the script function every delivery calls.
pub const RECV_CALLBACK: &'static str = "_recv";

/// One positional argument of a `_recv` call.
#[derive(Debug)]
pub enum CallbackArg {
    Text(String),
    /// A correlation id; the engine receives it as a number.
    Id(u64),
}

pub enum ArgView {
    Text(Seq<char>),
    Id(u64),
}

impl View for CallbackArg {
    type V = ArgView;

    open spec fn view(&self) -> ArgView {
        match self {
            CallbackArg::Text(s) => ArgView::Text(s@),
            CallbackArg::Id(id) => ArgView::Id(*id),
        }
    }
}

/// The positional arguments of one `_recv` call, made on the thread that owns
/// the global after entering its execution context.
#[derive(Debug)]
pub struct RecvCall {
    pub args: Vec<CallbackArg>,
}

impl View for RecvCall {
    type V = Seq<ArgView>;

    open spec fn view(&self) -> Seq<ArgView> {
        self.args@.map_values(|a: CallbackArg| a@)
    }
}

/// `_recv("timeout", id)`.
pub open spec fn timer_fired(id: u64) -> Seq<ArgView> {
    seq![ArgView::Text(TIMEOUT_EVENT@), ArgView::Id(id)]
}

/// `_recv(event, id, data)`.
pub open spec fn message_delivered(message: (u64, Seq<char>, Seq<char>)) -> Seq<ArgView> {
    seq![ArgView::Text(message.1), ArgView::Id(message.0), ArgView::Text(message.2)]
}

/// The message a file-read worker sends: the whole contents under `readFile`,
/// or none where the file could not be opened or read.
pub open spec fn completion(id: u64, contents: Option<Seq<char>>) -> Option<(u64, Seq<char>, Seq<char>)> {
    match contents {
        Some(data) => Some((id, READ_FILE_EVENT@, data)),
        None => None,
    }
}

/// The call made when the timer registered under `id` expires.
pub fn timeout_callback(id: u64) -> (call: RecvCall)
    ensures
        call@ == timer_fired(id),
{
    let mut args: Vec<CallbackArg> = Vec::new();
    args.push(CallbackArg::Text(String::from_str(TIMEOUT_EVENT)));
    args.push(CallbackArg::Id(id));
    let call = RecvCall { args };
    assert(call@ =~= timer_fired(id));
    call
}

/// The call made when `message` arrives over the loop's channel.
pub fn notify_callback(message: EventMessage) -> (call: RecvCall)
    ensures
        call@ == message_delivered(message@),
{
    let ghost m = message@;
    let mut args: Vec<CallbackArg> = Vec::new();
    args.push(CallbackArg::Text(message.event));
    args.push(CallbackArg::Id(message.id));
    args.push(CallbackArg::Text(message.payload));
    let call = RecvCall { args };
    assert(call@ =~= message_delivered(m));
    call
}

/// What a file-read worker sends once it is done with the request `id`, given
/// the file's contents or `None` where it could not be opened or read.
pub fn read_completion(id: u64, contents: Option<String>) -> (m: Option<EventMessage>)
    ensures
        contents is None ==> m is None && completion(id, None) is None,
        contents matches Some(data) ==> (m matches Some(msg) && completion(id, Some(data@))
            == Some(msg@)),
{
    match contents {
        None => None,
        Some(data) => Some(EventMessage { id, event: String::from_str(READ_FILE_EVENT), payload: data }),
    }
}

} // verus!

verus! {

/// A decoded `timeout` request registers exactly one timer, keyed by its id and
/// lasting its delay, and that timer's expiry calls `_recv("timeout", id)`.
pub proof fn lemma_timeout_delivery(req: TimeoutRequest)
    ensures
        timer_action(req) == (ActionView::ScheduleTimer { id: req.id, delay_ms: req.timeout }),
        timer_fired(req.id) == seq![ArgView::Text(TIMEOUT_EVENT@), ArgView::Id(req.id)],
{
}

/// Two timers under one correlation id but with different delays are two
/// registrations, each with its own delay; each expiry makes its own call.
pub proof fn lemma_same_id_timers_independent(a: TimeoutRequest, b: TimeoutRequest)
    requires
        a.id == b.id,
        a.timeout != b.timeout,
    ensures
        timer_action(a) != timer_action(b),
        timer_action(a) matches ActionView::ScheduleTimer { delay_ms, .. } && delay_ms == a.timeout,
        timer_action(b) matches ActionView::ScheduleTimer { delay_ms, .. } && delay_ms == b.timeout,
        timer_fired(a.id) == timer_fired(b.id),
{
}

/// A `readFile` request starts one worker for its file; a worker that read
/// `data` sends the message whose delivery is `_recv("readFile", id, data)`,
/// carrying the contents unchanged. The same request again gives the same.
pub proof fn lemma_read_file_delivery(id: u64, filename: Seq<char>, data: Seq<char>)
    ensures
        read_action(id, filename) == (ActionView::SpawnRead { id, filename }),
        completion(id, Some(data)) matches Some(msg) && message_delivered(msg)
            == seq![ArgView::Text(READ_FILE_EVENT@), ArgView::Id(id), ArgView::Text(data)],
{
}

/// A worker that could not open or read its file sends nothing, so no call is
/// ever made for its id.
pub proof fn lemma_failed_read_is_silent(id: u64)
    ensures
        completion(id, None) is None,
{
}

} // verus!

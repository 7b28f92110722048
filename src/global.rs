use vstd::prelude::*;
use crate::bridge::{
    Action, Dispatch, SendError, dispatch_for, join_output, joined, read_action,
    send_outcome, texts, timer_action, SEND_ARITY,
};
use crate::protocol::{FileReadRequest, TimeoutRequest};
use crate::reflect::{ClassId, ClassSpec, Lifecycle, MethodSpec, PropertySpec, PrototypeID, Reflected};
use vstd::string::StringExecFns;

verus! {

/// Script name of the print native.
pub const PRINT_NATIVE: &'static str = "_print";

/// Script name of the send native.
pub const SEND_NATIVE: &'static str = "_send";

pub open spec fn method_is(m: MethodSpec, name: Seq<char>, nargs: u32) -> bool {
    m.name@ == name && m.nargs == nargs && m.enumerable
}

/// Native state of a script global: a reserved flag and the event loop that
/// delivers its timers and worker messages.
pub struct Global<L> {
    pub flag: u64,
    pub event_loop: L,
}

impl<L> Global<L> {
    /// Fresh state around `event_loop`, with the reserved flag cleared.
    pub fn new(event_loop: L) -> (g: Self)
        ensures
            g.flag == 0,
            g.event_loop == event_loop,
    {
        Global { flag: 0, event_loop }
    }

    /// Class of the global object that owns this state.
    pub fn class() -> (c: ClassSpec)
        ensures
            c.id == ClassId::Global,
            c.name@ == "Global"@,
            c.is_global,
            c.finalizes,
    {
        ClassSpec { id: ClassId::Global, name: String::from_str("Global"), is_global: true, finalizes: true }
    }

    /// Class of the global's prototype object, which owns no state.
    pub fn prototype_class() -> (c: ClassSpec)
        ensures
            c.id == ClassId::GlobalPrototype,
            c.name@ == "GlobalPrototype"@,
            !c.is_global,
            !c.finalizes,
    {
        ClassSpec {
            id: ClassId::GlobalPrototype,
            name: String::from_str("GlobalPrototype"),
            is_global: false,
            finalizes: false,
        }
    }

    /// The prototype carries no properties.
    pub fn attributes() -> (a: Option<Vec<PropertySpec>>)
        ensures
            a is None,
    {
        None
    }

    /// The natives on the prototype: `_print` and `_send`, each declared with
    /// one argument and enumerable.
    pub fn methods() -> (m: Vec<MethodSpec>)
        ensures
            m@.len() == 2,
            method_is(m@[0], PRINT_NATIVE@, 1),
            method_is(m@[1], SEND_NATIVE@, 1),
    {
        let mut m: Vec<MethodSpec> = Vec::new();
        m.push(MethodSpec { name: String::from_str(PRINT_NATIVE), nargs: 1, enumerable: true });
        m.push(MethodSpec { name: String::from_str(SEND_NATIVE), nargs: 1, enumerable: true });
        m
    }

    /// Slot of the global's prototype in its prototype table.
    pub fn prototype_index() -> (p: PrototypeID)
        ensures
            p == PrototypeID::Global,
    {
        PrototypeID::Global
    }

    /// The native half of creating a global: fresh state around `event_loop`,
    /// attached to a new object of the global class that has no prototype yet.
    pub fn attach<H: Copy>(event_loop: L) -> (o: Reflected<Self, H>)
        ensures
            o.wf(),
            o.class() == ClassId::Global,
            o.lifecycle() == Lifecycle::Created,
            o.state() == Some(Global { flag: 0, event_loop }),
            o.prototype() is None,
    {
        Reflected::create(ClassId::Global, Global::new(event_loop))
    }

    /// The line `_print(values...)` writes, given each value already stringified.
    pub fn print(&self, values: &Vec<String>) -> (line: String)
        ensures
            line@ == joined(texts(values@)),
    {
        join_output(values)
    }

    /// `_send` called with `argc` arguments, the first being `event`: fails when
    /// the count is not two, and otherwise says which payload to decode.
    pub fn send(&self, argc: usize, event: &str) -> (r: Result<Dispatch, SendError>)
        ensures
            r == send_outcome(argc, event@),
    {
        if argc != SEND_ARITY {
            return Err(SendError::ArgumentCount);
        }
        Ok(dispatch_for(event))
    }

    /// A `timeout` message, decoded (`None` where it was malformed), becomes one
    /// timer registration.
    pub fn set_timeout(&self, decoded: Option<TimeoutRequest>) -> (r: Result<Action, SendError>)
        ensures
            decoded is None ==> r == Err::<Action, SendError>(SendError::MalformedPayload),
            decoded matches Some(req) ==> (r matches Ok(a) && a@ == timer_action(req)),
    {
        match decoded {
            None => Err(SendError::MalformedPayload),
            Some(req) => Ok(Action::ScheduleTimer { id: req.id, delay_ms: req.timeout }),
        }
    }

    /// A `readFile` message, decoded (`None` where it was malformed), becomes one
    /// worker start.
    pub fn read_file(&self, decoded: Option<FileReadRequest>) -> (r: Result<Action, SendError>)
        ensures
            decoded is None ==> r == Err::<Action, SendError>(SendError::MalformedPayload),
            decoded matches Some(req) ==> (r matches Ok(a) && a@ == read_action(req.id, req.filename@)),
    {
        match decoded {
            None => Err(SendError::MalformedPayload),
            Some(req) => Ok(Action::SpawnRead { id: req.id, filename: req.filename }),
        }
    }
}

} // verus!

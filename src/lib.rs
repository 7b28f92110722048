//! Native side of a script host's top-level global: the decisions behind the
//! `_print` and `_send` natives, the callbacks the event loop delivers back into
//! script, and the reflected-object model that ties native state to the
//! engine's global object.

pub mod protocol;
pub mod reflect;
pub mod bridge;
pub mod global;
pub mod event_loop;

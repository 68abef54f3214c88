//! Status records reported to the invoking host tool.
//!
//! Every user-facing event is one record with a kind tag and a message; the
//! host reads them as newline-delimited structured output. Turning a record
//! into its serialized text is the caller's concern, outside this library.

use vstd::prelude::*;

verus! {

/// Kind tag of a status record. Only `Info` and `Error` are emitted today;
/// the other kinds are reserved by the host protocol.
#[derive(Clone, Copy, PartialEq, Eq, Structural, Debug)]
pub enum MessageType {
    Debug,
    Info,
    Error,
    Setenv,
}

/// One status record: a kind tag and a human-readable message.
pub struct Message {
    pub kind: MessageType,
    pub message: String,
}

impl Message {
    /// Build an informational record carrying `msg`.
    pub fn info(msg: String) -> (r: Message)
        ensures
            r.kind == MessageType::Info,
            r.message == msg,
    {
        Message { kind: MessageType::Info, message: msg }
    }

    /// Build an error record carrying `msg`.
    pub fn error(msg: String) -> (r: Message)
        ensures
            r.kind == MessageType::Error,
            r.message == msg,
    {
        Message { kind: MessageType::Error, message: msg }
    }
}

} // verus!

//! The status an RPC ends with when it does not answer with a response.

use vstd::prelude::*;

verus! {

/// The kind of an RPC status that reports a failure.
#[derive(Debug, Clone, Copy, PartialEq, Eq, Structural)]
pub enum Code {
    Cancelled,
    Unknown,
    InvalidArgument,
    DeadlineExceeded,
    NotFound,
    AlreadyExists,
    PermissionDenied,
    ResourceExhausted,
    FailedPrecondition,
    Aborted,
    OutOfRange,
    Unimplemented,
    Internal,
    Unavailable,
    DataLoss,
    Unauthenticated,
}

/// What a status says: its kind and its message.
pub struct StatusView {
    pub code: Code,
    pub message: Seq<char>,
}

/// An RPC status: a kind and a message for the client.
#[derive(Debug, Clone, PartialEq)]
pub struct Status {
    code: Code,
    message: String,
}

impl View for Status {
    type V = StatusView;

    closed spec fn view(&self) -> StatusView {
        StatusView { code: self.code, message: self.message@ }
    }
}

impl Status {
    /// A status of the given kind with the given message.
    pub fn new(code: Code, message: &str) -> (status: Status)
        ensures
            status@ == (StatusView { code, message: message@ }),
    {
        Status { code, message: message.to_owned() }
    }

    /// A status of kind `Internal` with the given message.
    pub fn internal(message: &str) -> (status: Status)
        ensures
            status@ == (StatusView { code: Code::Internal, message: message@ }),
    {
        Status::new(Code::Internal, message)
    }

    /// The kind of this status.
    pub fn code(&self) -> (code: Code)
        ensures
            code == self@.code,
    {
        self.code
    }

    /// The message of this status.
    pub fn message(&self) -> (message: &str)
        ensures
            message@ == self@.message,
    {
        self.message.as_str()
    }
}

} // verus!

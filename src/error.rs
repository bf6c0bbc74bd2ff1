//! The error taxonomy of the command server.

use vstd::prelude::*;

verus! {

/// What kind of failure a request met.
#[derive(Clone, Copy, Debug, PartialEq, Eq, Structural)]
pub enum ErrorKind {
    /// A malformed or unknown discriminant value in a request.
    InvalidRequest,
    /// Voice text that matched no rule.
    UnknownCommand,
    /// The input device or an external process failed.
    ExecutionFailure,
}

/// A failed request: its kind and a human-readable message.
#[derive(Clone, Debug)]
pub struct CommandError {
    pub kind: ErrorKind,
    pub message: String,
}

/// The HTTP status that answers an error of the given kind.
pub open spec fn status_of(kind: ErrorKind) -> u16 {
    match kind {
        ErrorKind::InvalidRequest => 400,
        ErrorKind::UnknownCommand => 400,
        ErrorKind::ExecutionFailure => 500,
    }
}

impl CommandError {
    pub fn new(kind: ErrorKind, message: String) -> (r: CommandError)
        ensures
            r.kind == kind,
            r.message@ == message@,
    {
        CommandError { kind, message }
    }

    /// The HTTP status code for this error.
    pub fn http_status(&self) -> (r: u16)
        ensures
            r == status_of(self.kind),
    {
        match self.kind {
            ErrorKind::InvalidRequest => 400,
            ErrorKind::UnknownCommand => 400,
            ErrorKind::ExecutionFailure => 500,
        }
    }
}

} // verus!

//! The errors a tool call can end in.

use vstd::prelude::*;

verus! {

/// The kinds of failure that are reported to a client.
#[derive(Clone, Copy, Debug, PartialEq, Eq, Structural)]
pub enum ErrorKind {
    /// A tool of that name is already registered.
    DuplicateTool,
    /// No tool of that name is registered.
    ToolNotFound,
    /// The parameters do not fit the tool's input schema.
    InvalidParams,
    /// No live session has that id.
    SessionNotFound,
    /// The handler itself reported a failure.
    ToolExecutionError,
    /// A session's state was found unusable; the session is torn down.
    InternalStateError,
    /// The wire input was malformed.
    TransportDecodeError,
}

/// A structured error as it is reported to the calling client.
#[derive(Clone, Debug, PartialEq, Eq)]
pub struct ToolError {
    pub kind: ErrorKind,
    pub message: String,
    pub details: Option<String>,
}

impl ErrorKind {
    /// The name under which the kind travels on the wire.
    pub open spec fn spec_name(self) -> Seq<char> {
        match self {
            ErrorKind::DuplicateTool => "DuplicateTool"@,
            ErrorKind::ToolNotFound => "ToolNotFound"@,
            ErrorKind::InvalidParams => "InvalidParams"@,
            ErrorKind::SessionNotFound => "SessionNotFound"@,
            ErrorKind::ToolExecutionError => "ToolExecutionError"@,
            ErrorKind::InternalStateError => "InternalStateError"@,
            ErrorKind::TransportDecodeError => "TransportDecodeError"@,
        }
    }

    /// The name under which the kind travels on the wire.
    pub fn name(self) -> (s: String)
        ensures
            s@ == self.spec_name(),
    {
        match self {
            ErrorKind::DuplicateTool => "DuplicateTool".to_owned(),
            ErrorKind::ToolNotFound => "ToolNotFound".to_owned(),
            ErrorKind::InvalidParams => "InvalidParams".to_owned(),
            ErrorKind::SessionNotFound => "SessionNotFound".to_owned(),
            ErrorKind::ToolExecutionError => "ToolExecutionError".to_owned(),
            ErrorKind::InternalStateError => "InternalStateError".to_owned(),
            ErrorKind::TransportDecodeError => "TransportDecodeError".to_owned(),
        }
    }
}

impl ToolError {
    /// Whether this is the error of the given kind and message, without details.
    pub open spec fn is(self, kind: ErrorKind, message: Seq<char>) -> bool {
        self.kind == kind && self.message@ == message && self.details.is_none()
    }

    /// An error of the given kind with a message and no details.
    pub fn new(kind: ErrorKind, message: &str) -> (e: ToolError)
        ensures
            e.is(kind, message@),
    {
        ToolError { kind, message: message.to_owned(), details: None }
    }
}

/// Whether a call failed with the error of the given kind and message.
pub open spec fn fails_with<T>(res: Result<T, ToolError>, kind: ErrorKind, message: Seq<char>) -> bool {
    res matches Err(e) && e.is(kind, message)
}

} // verus!

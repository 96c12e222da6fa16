use vstd::prelude::*;

verus! {

/// The closed set of ways a backend command can fail.
#[derive(Clone, Copy, Debug, PartialEq, Eq, Structural)]
pub enum FailureKind {
    /// The underlying filesystem operation failed.
    IoFailure,
    /// The input text was not well-formed structured data.
    ParseFailure,
    /// The command exists to exercise the failure path and always fails.
    DeliberateTestFailure,
}

/// A command failure: a kind a caller can branch on, and the human-readable
/// message the command surfaces verbatim.
#[derive(Clone, Debug, PartialEq, Eq)]
pub struct CommandFailure {
    pub kind: FailureKind,
    pub message: String,
}

impl CommandFailure {
    /// Builds a failure of the given kind carrying the given message.
    pub fn new(kind: FailureKind, message: String) -> (r: CommandFailure)
        ensures
            r.kind == kind,
            r.message == message,
    {
        CommandFailure { kind, message }
    }
}

} // verus!

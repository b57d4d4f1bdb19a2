//! Failures of operations that the operating system performs.

use vstd::prelude::*;

verus! {

/// The kinds of failure that change what the library does next.
#[derive(Clone, Copy, Debug, PartialEq, Eq, Structural)]
pub enum IoErrorKind {
    /// A non-blocking operation found nothing to do right now.
    WouldBlock,
    /// The reading end of a pipe has gone away.
    BrokenPipe,
    /// A blocking call was cut short by the delivery of a signal.
    Interrupted,
    /// The named file does not exist.
    NotFound,
    /// Any other failure.
    Other,
}

/// A failed operation: its kind, and the system's description of it.
#[derive(Debug)]
pub struct IoError {
    pub kind: IoErrorKind,
    pub message: String,
}

impl IoError {
    /// Pairs a kind with a description.
    pub fn new(kind: IoErrorKind, message: String) -> (error: IoError)
        ensures
            error.kind == kind,
            error.message == message,
    {
        IoError { kind, message }
    }
}

} // verus!

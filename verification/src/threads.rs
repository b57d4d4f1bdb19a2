//! Reporting how the worker threads ended.
//!
//! Every worker hands its outcome back, also when it panics, so that none is
//! lost. A worker that failed or panicked is reported by name; the others are
//! not disturbed by it.

use vstd::prelude::*;
use vstd::string::StringExecFns;

verus! {

/// How a worker thread ended.
#[derive(Debug)]
pub enum ThreadOutcome {
    /// It returned, and its work was done.
    Succeeded,
    /// It returned with a failure, described here.
    Failed(String),
    /// It panicked; what it panicked with is described here.
    Panicked(String),
}

/// What is said of a worker that ended in this way.
pub open spec fn spec_thread_report(thread_name: Seq<char>, outcome: ThreadOutcome) -> Option<
    Seq<char>,
> {
    match outcome {
        ThreadOutcome::Succeeded => None,
        ThreadOutcome::Failed(error) => Some(
            "Error in thread "@ + thread_name + ": "@ + error@,
        ),
        ThreadOutcome::Panicked(payload) => Some("Error joining thread: "@ + payload@),
    }
}

/// What is said of a worker that ended in this way: nothing if its work was
/// done.
pub fn thread_report(thread_name: &str, outcome: &ThreadOutcome) -> (report: Option<String>)
    ensures
        report is Some <==> spec_thread_report(thread_name@, *outcome) is Some,
        report matches Some(text) ==> Some(text@) == spec_thread_report(thread_name@, *outcome),
{
    match outcome {
        ThreadOutcome::Succeeded => None,
        ThreadOutcome::Failed(error) => Some(
            String::from_str("Error in thread ").concat(thread_name).concat(": ").concat(
                error.as_str(),
            ),
        ),
        ThreadOutcome::Panicked(payload) => Some(
            String::from_str("Error joining thread: ").concat(payload.as_str()),
        ),
    }
}

} // verus!

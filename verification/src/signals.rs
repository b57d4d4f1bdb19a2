//! Answering a termination signal.
//!
//! One thread waits for the next signal. A signal that asks for termination
//! has the child terminated with that very signal; any other, such as the
//! notice that the child has ended by itself, does not. Either way the stream
//! that may wait for input for ever is then told to stop, by one byte written
//! to the pipe it watches. Whether that byte arrives is of no interest: a
//! stream that has ended already has nothing left to be told.

use crate::process::{
    kill_child_process_with_grace_period, termination_step, ChildStatus, Operation, Report,
    Termination, TerminationError, TerminationPolicy, SIGHUP, SIGINT, SIGTERM,
};
use vstd::prelude::*;

verus! {

/// The byte that tells a stream to stop.
pub const SHUTDOWN_SENTINEL: u8 = 1;

/// Whether a signal asks for the child's termination.
pub open spec fn is_termination_signal(signum: i32) -> bool {
    signum == SIGHUP || signum == SIGINT || signum == SIGTERM
}

/// Whether a signal asks for the child's termination.
pub fn asks_for_termination(signum: i32) -> (asks: bool)
    ensures
        asks == is_termination_signal(signum),
{
    signum == SIGHUP || signum == SIGINT || signum == SIGTERM
}

/// Where the answering of a signal stands.
#[derive(Debug)]
pub enum SignalWatch {
    /// The next signal is waited for.
    Waiting,
    /// The child is being terminated.
    Terminating { policy: TerminationPolicy, termination: Termination },
    /// The sentinel is written to the pipe.
    Notifying,
    /// All is done, or the child's termination failed.
    Finished(Result<(), TerminationError>),
}

/// What happened while a `SignalWatch` waited.
#[derive(Debug)]
pub enum SignalEvent {
    /// The signal of this number arrived.
    Received(i32),
    /// An operation on the child completed.
    Reported(Report),
    /// The write of the sentinel returned, well or not.
    Notified,
}

/// What a `SignalWatch` waits for.
#[derive(Clone, Copy, Debug, PartialEq, Eq, Structural)]
pub enum SignalRequest {
    /// The arrival of the next signal.
    AwaitSignal,
    /// An operation on the child.
    Child(Operation),
    /// The write of this byte to the shutdown pipe.
    Notify(u8),
    /// Nothing.
    Nothing,
}

/// The watch after one more thing has happened.
///
/// A termination signal starts the child's termination, with that signal and
/// the usual periods; any other signal leads to the notification at once. A
/// termination that ends with the child's status leads to the notification;
/// one that fails ends the watch with its failure, and nothing is notified.
/// The notification ends the watch well. An event that the watch does not
/// wait for changes nothing.
pub open spec fn watch_step(watch: SignalWatch, event: SignalEvent) -> SignalWatch {
    match (watch, event) {
        (SignalWatch::Waiting, SignalEvent::Received(signum)) => if is_termination_signal(signum) {
            SignalWatch::Terminating {
                policy: TerminationPolicy::usual(signum),
                termination: Termination::Checking,
            }
        } else {
            SignalWatch::Notifying
        },
        (SignalWatch::Terminating { policy, termination }, SignalEvent::Reported(report)) => {
            match termination_step(termination, report) {
                Termination::Finished(Ok(_)) => SignalWatch::Notifying,
                Termination::Finished(Err(e)) => SignalWatch::Finished(Err(e)),
                next => SignalWatch::Terminating { policy, termination: next },
            }
        },
        (SignalWatch::Notifying, SignalEvent::Notified) => SignalWatch::Finished(Ok(())),
        _ => watch,
    }
}

/// Answers signals, one event at a time.
///
/// A watch starts as `SignalWatch::Waiting`. The caller waits for or performs
/// what the watch names (see `SignalWatch::request`), hands in what happened,
/// and goes on with the watch returned, until that is `SignalWatch::Finished`.
pub fn process_signals(watch: SignalWatch, event: SignalEvent) -> (next: SignalWatch)
    ensures
        next == watch_step(watch, event),
{
    match (watch, event) {
        (SignalWatch::Waiting, SignalEvent::Received(signum)) => {
            if asks_for_termination(signum) {
                SignalWatch::Terminating {
                    policy: TerminationPolicy::with_signal(signum),
                    termination: Termination::Checking,
                }
            } else {
                SignalWatch::Notifying
            }
        },
        (SignalWatch::Terminating { policy, termination }, SignalEvent::Reported(report)) => {
            match kill_child_process_with_grace_period(termination, report) {
                Termination::Finished(Ok(_)) => SignalWatch::Notifying,
                Termination::Finished(Err(e)) => SignalWatch::Finished(Err(e)),
                next => SignalWatch::Terminating { policy, termination: next },
            }
        },
        (SignalWatch::Notifying, SignalEvent::Notified) => SignalWatch::Finished(Ok(())),
        (watch, _) => watch,
    }
}

impl SignalWatch {
    /// What the watch waits for.
    pub open spec fn spec_request(self) -> SignalRequest {
        match self {
            SignalWatch::Waiting => SignalRequest::AwaitSignal,
            SignalWatch::Terminating { policy, termination } => SignalRequest::Child(
                termination.spec_operation(policy),
            ),
            SignalWatch::Notifying => SignalRequest::Notify(SHUTDOWN_SENTINEL),
            SignalWatch::Finished(_) => SignalRequest::Nothing,
        }
    }

    /// What the watch waits for.
    pub fn request(&self) -> (request: SignalRequest)
        ensures
            request == self.spec_request(),
    {
        match self {
            SignalWatch::Waiting => SignalRequest::AwaitSignal,
            SignalWatch::Terminating { policy, termination } => SignalRequest::Child(
                termination.operation(policy),
            ),
            SignalWatch::Notifying => SignalRequest::Notify(SHUTDOWN_SENTINEL),
            SignalWatch::Finished(_) => SignalRequest::Nothing,
        }
    }
}

/// A signal that asks for termination reaches the child unchanged: the first
/// signal that the child is sent, if it runs, is the one that arrived. Once
/// the child has exited, with whatever status, the stream is notified, and
/// the watch ends well after that.
pub proof fn lemma_signal_is_passed_on(signum: i32, status: ChildStatus)
    requires
        is_termination_signal(signum),
    ensures
        ({
            let started = watch_step(SignalWatch::Waiting, SignalEvent::Received(signum));
            let running = watch_step(started, SignalEvent::Reported(Report::Waited(Ok(None))));
            let sent = watch_step(running, SignalEvent::Reported(Report::Signalled(Ok(()))));
            let gone = watch_step(sent, SignalEvent::Reported(Report::Waited(Ok(Some(status)))));
            &&& started.spec_request() == SignalRequest::Child(Operation::CheckExit)
            &&& running.spec_request() == SignalRequest::Child(Operation::SendSignal(signum))
            &&& gone.spec_request() == SignalRequest::Notify(SHUTDOWN_SENTINEL)
            &&& watch_step(gone, SignalEvent::Notified) == SignalWatch::Finished(Ok(()))
        }),
{
}

} // verus!

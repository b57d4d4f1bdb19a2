//! Bringing a child process down: first asked, then forced.
//!
//! Termination escalates. A child that has exited already is left alone. One
//! that runs gets a signal and a grace period; one that outlives the grace
//! period is killed and given a last deadline; one that outlives that as well
//! is reported, for it hangs beyond reach. The decisions live here as a
//! function from a state and the result of one operation to the next state;
//! the caller performs the operations on the process.

use crate::error::IoError;
use vstd::prelude::*;
use vstd::string::StringExecFns;

verus! {

/// The signal that reports a closed terminal.
pub const SIGHUP: i32 = 1;

/// The signal that interrupts from the keyboard.
pub const SIGINT: i32 = 2;

/// The signal that kills and cannot be caught.
pub const SIGKILL: i32 = 9;

/// The signal that asks a process to terminate.
pub const SIGTERM: i32 = 15;

/// How long a child is given after the first signal, unless told otherwise.
pub const GRACE_PERIOD_MILLIS: u64 = 15000;

/// How long a child is given after it was killed, unless told otherwise.
pub const KILL_DEADLINE_MILLIS: u64 = 5000;

/// What is added to the number of a signal to make an exit code of it.
pub const SIGNAL_EXIT_BASE: i32 = 128;

/// The exit code for a child whose end cannot be told.
pub const UNDETERMINED_EXIT_CODE: i32 = 1;

/// How a child process ended.
#[derive(Clone, Copy, Debug, PartialEq, Eq, Structural)]
pub enum ChildStatus {
    /// It exited by itself, with this code.
    Exited(i32),
    /// The signal of this number terminated it.
    Signaled(i32),
    /// It ended, and neither a code nor a signal is known of it.
    Unknown,
}

/// The parameters of one attempt to terminate a child.
#[derive(Clone, Copy, Debug, PartialEq, Eq, Structural)]
pub struct TerminationPolicy {
    /// The signal sent first.
    pub signal: i32,
    /// How long to wait for the child after that signal.
    pub grace_period_millis: u64,
    /// How long to wait for the child after it was killed.
    pub kill_deadline_millis: u64,
}

impl TerminationPolicy {
    /// The policy that sends `signal` first and waits the usual periods.
    pub open spec fn usual(signal: i32) -> TerminationPolicy {
        TerminationPolicy {
            signal,
            grace_period_millis: GRACE_PERIOD_MILLIS,
            kill_deadline_millis: KILL_DEADLINE_MILLIS,
        }
    }

    /// The policy that sends `signal` first and waits the usual periods.
    pub fn with_signal(signal: i32) -> (policy: TerminationPolicy)
        ensures
            policy == TerminationPolicy::usual(signal),
    {
        TerminationPolicy {
            signal,
            grace_period_millis: GRACE_PERIOD_MILLIS,
            kill_deadline_millis: KILL_DEADLINE_MILLIS,
        }
    }
}

impl Default for TerminationPolicy {
    /// The policy of a clean-up that nobody asked for: the terminate signal
    /// and the usual periods.
    fn default() -> (policy: TerminationPolicy)
        ensures
            policy == TerminationPolicy::usual(SIGTERM),
    {
        TerminationPolicy::with_signal(SIGTERM)
    }
}

/// Why a child could not be terminated.
#[derive(Debug)]
pub enum TerminationError {
    /// Asking after the child failed.
    Wait(IoError),
    /// Sending a signal to the child failed.
    Signal(IoError),
    /// The child was killed and is still there after the deadline.
    StillAlive,
}

impl TerminationError {
    /// The failure in words.
    pub open spec fn spec_message(self) -> Seq<char> {
        match self {
            TerminationError::Wait(_) => "Error waiting for child process"@,
            TerminationError::Signal(_) => "Error sending signal to child process"@,
            TerminationError::StillAlive => "Sent SIGKILL, child still alive"@,
        }
    }

    /// The failure in words.
    pub fn message(&self) -> (text: String)
        ensures
            text@ == self.spec_message(),
    {
        match self {
            TerminationError::Wait(_) => String::from_str("Error waiting for child process"),
            TerminationError::Signal(_) => String::from_str(
                "Error sending signal to child process",
            ),
            TerminationError::StillAlive => String::from_str("Sent SIGKILL, child still alive"),
        }
    }
}

/// What is said when the clean-up that runs as a child's owner goes away
/// fails. The failure is said and goes no further.
pub fn cleanup_failure_message(error: &TerminationError) -> (text: String)
    ensures
        text@ == "Error cleaning up child process: "@ + error.spec_message(),
{
    String::from_str("Error cleaning up child process: ").concat(error.message().as_str())
}

/// Where an attempt to terminate a child stands: the operation it waits for,
/// or how it ended.
#[derive(Debug)]
pub enum Termination {
    /// Whether the child has exited is asked, without waiting.
    Checking,
    /// The policy's signal is sent to the child.
    Signalling,
    /// The child's exit is waited for, for the grace period at most.
    Grace,
    /// The child is killed.
    Killing,
    /// The child's exit is waited for, for the kill deadline at most.
    Deadline,
    /// The attempt is over: the child's status, or why there is none.
    Finished(Result<ChildStatus, TerminationError>),
}

/// The result of the operation that a `Termination` waited for.
#[derive(Debug)]
pub enum Report {
    /// The child was asked after or waited for: its status if it has exited.
    Waited(Result<Option<ChildStatus>, IoError>),
    /// A signal was sent, or the child was killed.
    Signalled(Result<(), IoError>),
}

/// An operation on the child process.
#[derive(Clone, Copy, Debug, PartialEq, Eq, Structural)]
pub enum Operation {
    /// Ask whether the child has exited, without waiting.
    CheckExit,
    /// Send the child the signal of this number.
    SendSignal(i32),
    /// Wait for the child's exit, for so many milliseconds at most.
    WaitFor(u64),
    /// Kill the child.
    ForceKill,
    /// Nothing: the attempt is over.
    Nothing,
}

/// The attempt after one more operation has completed.
///
/// A child found exited ends the attempt with its status, whenever it is
/// found. A child that runs is signalled, waited for during the grace period,
/// killed, and waited for until the kill deadline; if it is still there, the
/// attempt fails. An operation that fails ends the attempt with its failure.
/// A report that the attempt does not wait for changes nothing.
pub open spec fn termination_step(state: Termination, report: Report) -> Termination {
    match (state, report) {
        (Termination::Checking, Report::Waited(Ok(Some(status)))) => Termination::Finished(
            Ok(status),
        ),
        (Termination::Checking, Report::Waited(Ok(None))) => Termination::Signalling,
        (Termination::Signalling, Report::Signalled(Ok(_))) => Termination::Grace,
        (Termination::Grace, Report::Waited(Ok(Some(status)))) => Termination::Finished(Ok(status)),
        (Termination::Grace, Report::Waited(Ok(None))) => Termination::Killing,
        (Termination::Killing, Report::Signalled(Ok(_))) => Termination::Deadline,
        (Termination::Deadline, Report::Waited(Ok(Some(status)))) => Termination::Finished(
            Ok(status),
        ),
        (Termination::Deadline, Report::Waited(Ok(None))) => Termination::Finished(
            Err(TerminationError::StillAlive),
        ),
        (Termination::Checking, Report::Waited(Err(e))) => Termination::Finished(
            Err(TerminationError::Wait(e)),
        ),
        (Termination::Grace, Report::Waited(Err(e))) => Termination::Finished(
            Err(TerminationError::Wait(e)),
        ),
        (Termination::Deadline, Report::Waited(Err(e))) => Termination::Finished(
            Err(TerminationError::Wait(e)),
        ),
        (Termination::Signalling, Report::Signalled(Err(e))) => Termination::Finished(
            Err(TerminationError::Signal(e)),
        ),
        (Termination::Killing, Report::Signalled(Err(e))) => Termination::Finished(
            Err(TerminationError::Signal(e)),
        ),
        _ => state,
    }
}

/// Terminates a child with a grace period, one completed operation at a time.
///
/// An attempt starts as `Termination::Checking`. The caller performs the
/// operation the attempt names (see `Termination::operation`), hands its
/// result in, and goes on with the attempt returned, until that is
/// `Termination::Finished`.
pub fn kill_child_process_with_grace_period(state: Termination, report: Report) -> (next:
    Termination)
    ensures
        next == termination_step(state, report),
{
    match (state, report) {
        (Termination::Checking, Report::Waited(Ok(Some(status)))) => Termination::Finished(
            Ok(status),
        ),
        (Termination::Checking, Report::Waited(Ok(None))) => Termination::Signalling,
        (Termination::Signalling, Report::Signalled(Ok(_))) => Termination::Grace,
        (Termination::Grace, Report::Waited(Ok(Some(status)))) => Termination::Finished(Ok(status)),
        (Termination::Grace, Report::Waited(Ok(None))) => Termination::Killing,
        (Termination::Killing, Report::Signalled(Ok(_))) => Termination::Deadline,
        (Termination::Deadline, Report::Waited(Ok(Some(status)))) => Termination::Finished(
            Ok(status),
        ),
        (Termination::Deadline, Report::Waited(Ok(None))) => Termination::Finished(
            Err(TerminationError::StillAlive),
        ),
        (Termination::Checking, Report::Waited(Err(e))) => Termination::Finished(
            Err(TerminationError::Wait(e)),
        ),
        (Termination::Grace, Report::Waited(Err(e))) => Termination::Finished(
            Err(TerminationError::Wait(e)),
        ),
        (Termination::Deadline, Report::Waited(Err(e))) => Termination::Finished(
            Err(TerminationError::Wait(e)),
        ),
        (Termination::Signalling, Report::Signalled(Err(e))) => Termination::Finished(
            Err(TerminationError::Signal(e)),
        ),
        (Termination::Killing, Report::Signalled(Err(e))) => Termination::Finished(
            Err(TerminationError::Signal(e)),
        ),
        (state, _) => state,
    }
}

impl Termination {
    /// The operation that the attempt waits for, under a policy.
    pub open spec fn spec_operation(self, policy: TerminationPolicy) -> Operation {
        match self {
            Termination::Checking => Operation::CheckExit,
            Termination::Signalling => Operation::SendSignal(policy.signal),
            Termination::Grace => Operation::WaitFor(policy.grace_period_millis),
            Termination::Killing => Operation::ForceKill,
            Termination::Deadline => Operation::WaitFor(policy.kill_deadline_millis),
            Termination::Finished(_) => Operation::Nothing,
        }
    }

    /// The operation that the attempt waits for, under a policy.
    pub fn operation(&self, policy: &TerminationPolicy) -> (operation: Operation)
        ensures
            operation == self.spec_operation(*policy),
    {
        match self {
            Termination::Checking => Operation::CheckExit,
            Termination::Signalling => Operation::SendSignal(policy.signal),
            Termination::Grace => Operation::WaitFor(policy.grace_period_millis),
            Termination::Killing => Operation::ForceKill,
            Termination::Deadline => Operation::WaitFor(policy.kill_deadline_millis),
            Termination::Finished(_) => Operation::Nothing,
        }
    }
}

/// The attempt after it has taken the reports one after the other.
pub open spec fn attempt(state: Termination, reports: Seq<Report>) -> Termination
    decreases reports.len(),
{
    if reports.len() == 0 {
        state
    } else {
        termination_step(attempt(state, reports.drop_last()), reports.last())
    }
}

/// The operations that an attempt asks for while it takes the reports: the
/// one it starts with, then one after each report.
pub open spec fn operations(
    state: Termination,
    policy: TerminationPolicy,
    reports: Seq<Report>,
) -> Seq<Operation> {
    Seq::new(
        reports.len() + 1,
        |i: int| attempt(state, reports.subrange(0, i)).spec_operation(policy),
    )
}

/// An attempt that is over stays as it is.
proof fn lemma_finished_stays(state: Termination, reports: Seq<Report>)
    requires
        state is Finished,
    ensures
        attempt(state, reports) == state,
    decreases reports.len(),
{
    if reports.len() > 0 {
        lemma_finished_stays(state, reports.drop_last());
    }
}

/// Taking reports in a row is taking the first of them, then the rest.
proof fn lemma_attempt_in_two(state: Termination, first: Seq<Report>, second: Seq<Report>)
    ensures
        attempt(state, first + second) == attempt(attempt(state, first), second),
    decreases second.len(),
{
    if second.len() == 0 {
        assert(first + second =~= first);
    } else {
        assert((first + second).drop_last() =~= first + second.drop_last());
        assert((first + second).last() == second.last());
        lemma_attempt_in_two(state, first, second.drop_last());
    }
}

/// What an attempt has come to after the first `n` of its reports, where
/// `opening` is how the reports begin.
proof fn lemma_attempt_prefix(
    state: Termination,
    opening: Seq<Report>,
    later: Seq<Report>,
    n: int,
)
    requires
        0 <= n <= opening.len() + later.len(),
    ensures
        n <= opening.len() ==> attempt(state, (opening + later).subrange(0, n)) == attempt(
            state,
            opening.subrange(0, n),
        ),
        n > opening.len() ==> attempt(state, (opening + later).subrange(0, n)) == attempt(
            attempt(state, opening),
            later.subrange(0, n - opening.len()),
        ),
{
    if n <= opening.len() {
        assert((opening + later).subrange(0, n) =~= opening.subrange(0, n));
    } else {
        assert((opening + later).subrange(0, n) =~= opening + later.subrange(
            0,
            n - opening.len(),
        ));
        lemma_attempt_in_two(state, opening, later.subrange(0, n - opening.len()));
    }
}

/// What an attempt has come to after each of up to five reports.
proof fn lemma_attempt_unfolds(state: Termination, reports: Seq<Report>)
    requires
        reports.len() <= 5,
    ensures
        reports.len() == 0 ==> attempt(state, reports) == state,
        reports.len() == 1 ==> attempt(state, reports) == termination_step(state, reports[0]),
        reports.len() == 2 ==> attempt(state, reports) == termination_step(
            termination_step(state, reports[0]),
            reports[1],
        ),
        reports.len() == 3 ==> attempt(state, reports) == termination_step(
            termination_step(termination_step(state, reports[0]), reports[1]),
            reports[2],
        ),
        reports.len() == 4 ==> attempt(state, reports) == termination_step(
            termination_step(
                termination_step(termination_step(state, reports[0]), reports[1]),
                reports[2],
            ),
            reports[3],
        ),
        reports.len() == 5 ==> attempt(state, reports) == termination_step(
            termination_step(
                termination_step(
                    termination_step(termination_step(state, reports[0]), reports[1]),
                    reports[2],
                ),
                reports[3],
            ),
            reports[4],
        ),
    decreases reports.len(),
{
    if reports.len() > 0 {
        lemma_attempt_unfolds(state, reports.drop_last());
    }
}

/// Termination of a child that has exited already. Its status is returned at
/// once, and no signal is ever sent: the attempt asks after the child, and
/// after that for nothing, whatever is handed in.
pub proof fn lemma_already_exited(
    status: ChildStatus,
    policy: TerminationPolicy,
    later: Seq<Report>,
)
    ensures
        ({
            let reports = seq![Report::Waited(Ok(Some(status)))] + later;
            let asked = operations(Termination::Checking, policy, reports);
            &&& attempt(Termination::Checking, reports) == Termination::Finished(Ok(status))
            &&& asked[0] == Operation::CheckExit
            &&& forall|i: int| 1 <= i < asked.len() ==> asked[i] == Operation::Nothing
        }),
{
    let opening = seq![Report::Waited(Ok(Some(status)))];
    let reports = opening + later;
    let found = Termination::Finished(Ok(status));
    let asked = operations(Termination::Checking, policy, reports);
    lemma_attempt_unfolds(Termination::Checking, opening);
    lemma_attempt_in_two(Termination::Checking, opening, later);
    lemma_finished_stays(found, later);
    assert(reports.subrange(0, 0) =~= Seq::<Report>::empty());
    assert forall|i: int| 1 <= i < asked.len() implies asked[i] == Operation::Nothing by {
        lemma_attempt_prefix(Termination::Checking, opening, later, i);
        assert(opening.subrange(0, 1) =~= opening);
        lemma_finished_stays(found, later.subrange(0, i - 1));
    }
}

/// Termination of a child that cooperates. A child that runs, takes the
/// signal and exits within the grace period ends the attempt with the status
/// it exited with. It was sent the policy's signal and waited for during the
/// grace period; it was never killed.
pub proof fn lemma_cooperative(status: ChildStatus, policy: TerminationPolicy, later: Seq<Report>)
    ensures
        ({
            let reports = seq![
                Report::Waited(Ok(None)),
                Report::Signalled(Ok(())),
                Report::Waited(Ok(Some(status))),
            ] + later;
            let asked = operations(Termination::Checking, policy, reports);
            &&& attempt(Termination::Checking, reports) == Termination::Finished(Ok(status))
            &&& asked[0] == Operation::CheckExit
            &&& asked[1] == Operation::SendSignal(policy.signal)
            &&& asked[2] == Operation::WaitFor(policy.grace_period_millis)
            &&& forall|i: int| 3 <= i < asked.len() ==> asked[i] == Operation::Nothing
            &&& forall|i: int| 0 <= i < asked.len() ==> asked[i] != Operation::ForceKill
        }),
{
    let opening = seq![
        Report::Waited(Ok(None)),
        Report::Signalled(Ok(())),
        Report::Waited(Ok(Some(status))),
    ];
    let reports = opening + later;
    let found = Termination::Finished(Ok(status));
    let asked = operations(Termination::Checking, policy, reports);
    lemma_attempt_unfolds(Termination::Checking, opening);
    lemma_attempt_in_two(Termination::Checking, opening, later);
    lemma_finished_stays(found, later);
    assert forall|i: int| 0 <= i < asked.len() implies (if i == 0 {
        asked[i] == Operation::CheckExit
    } else if i == 1 {
        asked[i] == Operation::SendSignal(policy.signal)
    } else if i == 2 {
        asked[i] == Operation::WaitFor(policy.grace_period_millis)
    } else {
        asked[i] == Operation::Nothing
    }) by {
        lemma_attempt_prefix(Termination::Checking, opening, later, i);
        if i <= 3 {
            lemma_attempt_unfolds(Termination::Checking, opening.subrange(0, i));
        }
        if i >= 3 {
            assert(opening.subrange(0, 3) =~= opening);
            lemma_finished_stays(found, later.subrange(0, i - 3));
        }
    }
}

/// Termination of a child that does not cooperate. A child that runs, takes
/// the signal and is still there after the grace period is killed and waited
/// for until the kill deadline. If it has exited by then, the attempt ends
/// with the status it exited with.
pub proof fn lemma_uncooperative(
    status: ChildStatus,
    policy: TerminationPolicy,
    later: Seq<Report>,
)
    ensures
        ({
            let reports = seq![
                Report::Waited(Ok(None)),
                Report::Signalled(Ok(())),
                Report::Waited(Ok(None)),
                Report::Signalled(Ok(())),
                Report::Waited(Ok(Some(status))),
            ] + later;
            let asked = operations(Termination::Checking, policy, reports);
            &&& attempt(Termination::Checking, reports) == Termination::Finished(Ok(status))
            &&& asked[0] == Operation::CheckExit
            &&& asked[1] == Operation::SendSignal(policy.signal)
            &&& asked[2] == Operation::WaitFor(policy.grace_period_millis)
            &&& asked[3] == Operation::ForceKill
            &&& asked[4] == Operation::WaitFor(policy.kill_deadline_millis)
            &&& forall|i: int| 5 <= i < asked.len() ==> asked[i] == Operation::Nothing
        }),
{
    let opening = seq![
        Report::Waited(Ok(None)),
        Report::Signalled(Ok(())),
        Report::Waited(Ok(None)),
        Report::Signalled(Ok(())),
        Report::Waited(Ok(Some(status))),
    ];
    let reports = opening + later;
    let found = Termination::Finished(Ok(status));
    let asked = operations(Termination::Checking, policy, reports);
    lemma_attempt_unfolds(Termination::Checking, opening);
    lemma_attempt_in_two(Termination::Checking, opening, later);
    lemma_finished_stays(found, later);
    assert forall|i: int| 0 <= i < asked.len() implies (if i == 0 {
        asked[i] == Operation::CheckExit
    } else if i == 1 {
        asked[i] == Operation::SendSignal(policy.signal)
    } else if i == 2 {
        asked[i] == Operation::WaitFor(policy.grace_period_millis)
    } else if i == 3 {
        asked[i] == Operation::ForceKill
    } else if i == 4 {
        asked[i] == Operation::WaitFor(policy.kill_deadline_millis)
    } else {
        asked[i] == Operation::Nothing
    }) by {
        lemma_attempt_prefix(Termination::Checking, opening, later, i);
        if i <= 5 {
            lemma_attempt_unfolds(Termination::Checking, opening.subrange(0, i));
        }
        if i >= 5 {
            assert(opening.subrange(0, 5) =~= opening);
            lemma_finished_stays(found, later.subrange(0, i - 5));
        }
    }
}

/// A child that outlives the kill. A child that is still there when the kill
/// deadline has passed makes the attempt fail, and the failure says so; it is
/// never taken for an exit.
pub proof fn lemma_unkillable(later: Seq<Report>)
    ensures
        attempt(
            Termination::Checking,
            seq![
                Report::Waited(Ok(None)),
                Report::Signalled(Ok(())),
                Report::Waited(Ok(None)),
                Report::Signalled(Ok(())),
                Report::Waited(Ok(None)),
            ] + later,
        ) == Termination::Finished(Err(TerminationError::StillAlive)),
{
    let opening = seq![
        Report::Waited(Ok(None)),
        Report::Signalled(Ok(())),
        Report::Waited(Ok(None)),
        Report::Signalled(Ok(())),
        Report::Waited(Ok(None)),
    ];
    lemma_attempt_unfolds(Termination::Checking, opening);
    lemma_attempt_in_two(Termination::Checking, opening, later);
    lemma_finished_stays(Termination::Finished(Err(TerminationError::StillAlive)), later);
}

/// The exit code that stands for a child's end: its own code if it exited by
/// itself; the signal's number on top of the base if a signal terminated it;
/// the code for an end that cannot be told otherwise, and for none.
pub open spec fn spec_exit_code(status: Option<ChildStatus>) -> int {
    match status {
        Some(ChildStatus::Exited(code)) => code as int,
        Some(ChildStatus::Signaled(signum)) => SIGNAL_EXIT_BASE + signum,
        _ => UNDETERMINED_EXIT_CODE as int,
    }
}

/// The exit code for a process that a signal of this number ends.
pub fn signal_exit_code(signum: i32) -> (code: i32)
    requires
        SIGNAL_EXIT_BASE + signum <= i32::MAX,
    ensures
        code == SIGNAL_EXIT_BASE + signum,
        code == spec_exit_code(Some(ChildStatus::Signaled(signum))),
{
    SIGNAL_EXIT_BASE + signum
}

/// The exit code that stands for a child's end, as last reaped.
pub fn exit_code(status: Option<ChildStatus>) -> (code: i32)
    requires
        status matches Some(ChildStatus::Signaled(signum)) ==> SIGNAL_EXIT_BASE + signum
            <= i32::MAX,
    ensures
        code == spec_exit_code(status),
{
    match status {
        Some(ChildStatus::Exited(code)) => code,
        Some(ChildStatus::Signaled(signum)) => signal_exit_code(signum),
        _ => UNDETERMINED_EXIT_CODE,
    }
}

/// What is said of a child that ended and of which neither a code nor a
/// signal is known; nothing is said of any other.
pub fn exit_diagnostic(status: Option<ChildStatus>) -> (text: Option<String>)
    ensures
        text is Some <==> status == Some(ChildStatus::Unknown),
        text matches Some(t) ==> t@ == "Error getting child process status"@,
{
    match status {
        Some(ChildStatus::Unknown) => Some(String::from_str("Error getting child process status")),
        _ => None,
    }
}

} // verus!

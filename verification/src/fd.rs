//! Copying one stream: a readable source, a writable sink, an optional log.
//!
//! A stream is served by a loop that waits until its source is readable,
//! drains the source into the sink and the log, and stops when the source
//! ends, the sink's peer goes away, or shutdown is requested. The loop's
//! decisions live here as functions from a state and the result of one
//! operation to the next state; the caller performs the operations.

use crate::error::{IoError, IoErrorKind};
use vstd::prelude::*;
use vstd::string::StringExecFns;

verus! {

/// The identifier under which a stream's source is registered for readiness.
pub const SRC_TOKEN: usize = 0;

/// The identifier under which the shutdown notification is registered.
pub const SIGNAL_TOKEN: usize = 1;

/// The longest a single wait for readiness may last, in milliseconds.
pub const POLL_INTERVAL_MILLIS: u64 = 100;

/// The most events that a single wait can report.
pub const EVENT_CAPACITY: usize = 2;

/// How a log file that exists already is opened.
#[derive(Clone, Copy, Debug, PartialEq, Eq, Structural)]
pub enum LogMode {
    /// Its contents are thrown away.
    Truncate,
    /// New bytes go after its contents.
    Append,
}

/// A log file to open for writing, after creating it and the directories
/// above it where they are missing.
#[derive(Debug)]
pub struct LogFile {
    pub path: String,
    pub mode: LogMode,
}

/// Why a log file could not be had.
#[derive(Debug)]
pub enum LogFileError {
    /// The directories above it could not be created.
    Parents(IoError),
    /// The file could not be created or opened.
    Open(IoError),
}

impl LogFileError {
    /// The failure in words, for the log file at `path`.
    pub open spec fn spec_message(self, path: Seq<char>) -> Seq<char> {
        match self {
            LogFileError::Parents(_) => "Failed to create parent directories to log file "@ + path,
            LogFileError::Open(_) => "Failed to create/open log file: "@ + path,
        }
    }

    /// The failure in words, for the log file at `path`.
    pub fn message(&self, path: &str) -> (text: String)
        ensures
            text@ == self.spec_message(path@),
    {
        match self {
            LogFileError::Parents(_) => String::from_str(
                "Failed to create parent directories to log file ",
            ).concat(path),
            LogFileError::Open(_) => String::from_str("Failed to create/open log file: ").concat(
                path,
            ),
        }
    }
}

/// Says which log file a stream gets: none without a path; else the file at
/// that path, emptied first if logs are recreated, appended to if not.
pub fn create_log_file(maybe_path: Option<&String>, recreate_logs: bool) -> (file: Option<LogFile>)
    ensures
        maybe_path is None <==> file is None,
        file matches Some(log) ==> {
            &&& log.path == *maybe_path->0
            &&& log.mode == if recreate_logs {
                LogMode::Truncate
            } else {
                LogMode::Append
            }
        },
{
    match maybe_path {
        None => None,
        Some(path) => Some(
            LogFile {
                path: path.clone(),
                mode: if recreate_logs {
                    LogMode::Truncate
                } else {
                    LogMode::Append
                },
            },
        ),
    }
}

/// What a wait for readiness can report.
#[derive(Clone, Copy, Debug, PartialEq, Eq, Structural)]
pub enum Event {
    /// The source has data to read.
    FdReady,
    /// Shutdown was requested.
    SignalReady,
}

impl Event {
    /// Names the event that a registration identifier stands for.
    pub fn from_mio_token(token: usize) -> (event: Event)
        requires
            token == SRC_TOKEN || token == SIGNAL_TOKEN,
        ensures
            token == SRC_TOKEN ==> event == Event::FdReady,
            token == SIGNAL_TOKEN ==> event == Event::SignalReady,
    {
        if token == SRC_TOKEN {
            Event::FdReady
        } else {
            Event::SignalReady
        }
    }
}

/// How the handling of one event can end well.
#[derive(Clone, Copy, Debug, PartialEq, Eq, Structural)]
pub enum ProcessEventsForFdSuccess {
    /// Everything the source had was forwarded; the source is still open.
    DataLogged,
    /// The source ended, or the sink's peer went away.
    Eof,
    /// Shutdown was requested.
    Signal,
}

/// How the handling of one event can fail.
#[derive(Debug)]
pub enum ProcessEventsForFdError {
    /// Reading from the source failed.
    Read(IoError),
    /// Writing to the sink failed.
    Write(IoError),
    /// Writing to the log failed.
    Log(IoError),
}

impl ProcessEventsForFdError {
    /// The failure in words.
    pub open spec fn spec_message(self) -> Seq<char> {
        match self {
            ProcessEventsForFdError::Read(e) => "Failed to read data: "@ + e.message@,
            ProcessEventsForFdError::Write(e) => "Failed to write data: "@ + e.message@,
            ProcessEventsForFdError::Log(e) => "Failed to log data: "@ + e.message@,
        }
    }

    /// The failure in words.
    pub fn message(&self) -> (text: String)
        ensures
            text@ == self.spec_message(),
    {
        match self {
            ProcessEventsForFdError::Read(e) => String::from_str("Failed to read data: ").concat(
                e.message.as_str(),
            ),
            ProcessEventsForFdError::Write(e) => String::from_str("Failed to write data: ").concat(
                e.message.as_str(),
            ),
            ProcessEventsForFdError::Log(e) => String::from_str("Failed to log data: ").concat(
                e.message.as_str(),
            ),
        }
    }
}

/// The outcome of handling one event.
pub type EventOutcome = Result<ProcessEventsForFdSuccess, ProcessEventsForFdError>;

/// Where the draining of a readable source stands: the operation it waits
/// for, or how it ended.
#[derive(Debug)]
pub enum Drain {
    /// The source is to be read, without blocking.
    Reading,
    /// These bytes were read and are to be written to the sink, all of them.
    Writing(Vec<u8>),
    /// These bytes reached the sink and are to be written to the log.
    Logging(Vec<u8>),
    /// The draining is over.
    Finished(EventOutcome),
}

/// The result of the operation that a `Drain` waited for.
#[derive(Debug)]
pub enum Completion {
    /// A read: the bytes it delivered (none at the end of the source).
    Read(Result<Vec<u8>, IoError>),
    /// A write, to the sink or to the log.
    Written(Result<(), IoError>),
}

/// The draining after one more operation has completed.
///
/// Reading goes on until the source would block, ends, or fails. Each chunk
/// read goes to the sink at once; a sink whose peer is gone ends the stream
/// like the end of the source. With a log attached the chunk then goes to the
/// log, whose failure ends this draining but is told apart from the others. A
/// completion that the draining does not wait for changes nothing.
pub open spec fn drain_step(drain: Drain, completion: Completion, log_attached: bool) -> Drain {
    match (drain, completion) {
        (Drain::Reading, Completion::Read(Ok(chunk))) => if chunk@.len() == 0 {
            Drain::Finished(Ok(ProcessEventsForFdSuccess::Eof))
        } else {
            Drain::Writing(chunk)
        },
        (Drain::Reading, Completion::Read(Err(e))) => if e.kind == IoErrorKind::WouldBlock {
            Drain::Finished(Ok(ProcessEventsForFdSuccess::DataLogged))
        } else {
            Drain::Finished(Err(ProcessEventsForFdError::Read(e)))
        },
        (Drain::Writing(chunk), Completion::Written(Ok(_))) => if log_attached {
            Drain::Logging(chunk)
        } else {
            Drain::Reading
        },
        (Drain::Writing(_), Completion::Written(Err(e))) => if e.kind == IoErrorKind::BrokenPipe {
            Drain::Finished(Ok(ProcessEventsForFdSuccess::Eof))
        } else {
            Drain::Finished(Err(ProcessEventsForFdError::Write(e)))
        },
        (Drain::Logging(_), Completion::Written(Ok(_))) => Drain::Reading,
        (Drain::Logging(_), Completion::Written(Err(e))) => Drain::Finished(
            Err(ProcessEventsForFdError::Log(e)),
        ),
        _ => drain,
    }
}

/// Handles a readable source, one completed operation at a time.
///
/// A drain starts as `Drain::Reading`. The caller performs the operation the
/// drain names, hands its result in, and goes on with the drain returned,
/// until that is `Drain::Finished`.
pub fn inner_fd_event_readable(drain: Drain, completion: Completion, log_attached: bool) -> (next:
    Drain)
    ensures
        next == drain_step(drain, completion, log_attached),
{
    match (drain, completion) {
        (Drain::Reading, Completion::Read(Ok(chunk))) => {
            if chunk.len() == 0 {
                Drain::Finished(Ok(ProcessEventsForFdSuccess::Eof))
            } else {
                Drain::Writing(chunk)
            }
        },
        (Drain::Reading, Completion::Read(Err(e))) => {
            if e.kind == IoErrorKind::WouldBlock {
                Drain::Finished(Ok(ProcessEventsForFdSuccess::DataLogged))
            } else {
                Drain::Finished(Err(ProcessEventsForFdError::Read(e)))
            }
        },
        (Drain::Writing(chunk), Completion::Written(Ok(_))) => {
            if log_attached {
                Drain::Logging(chunk)
            } else {
                Drain::Reading
            }
        },
        (Drain::Writing(_), Completion::Written(Err(e))) => {
            if e.kind == IoErrorKind::BrokenPipe {
                Drain::Finished(Ok(ProcessEventsForFdSuccess::Eof))
            } else {
                Drain::Finished(Err(ProcessEventsForFdError::Write(e)))
            }
        },
        (Drain::Logging(_), Completion::Written(Ok(_))) => Drain::Reading,
        (Drain::Logging(_), Completion::Written(Err(e))) => Drain::Finished(
            Err(ProcessEventsForFdError::Log(e)),
        ),
        (drain, _) => drain,
    }
}

/// Whether a wake-up that reported these events calls for draining the
/// source: always, unless shutdown is the only thing it reported.
pub open spec fn needs_drain(events: Seq<Event>) -> bool {
    !(events.len() == 1 && events[0] == Event::SignalReady)
}

/// Whether a wake-up that reported these events calls for draining the source.
pub fn drains_source(events: &Vec<Event>) -> (drains: bool)
    ensures
        drains == needs_drain(events@),
{
    !(events.len() == 1 && events[0] == Event::SignalReady)
}

/// The outcomes of one wake-up, in the order in which they are acted on.
///
/// The source is served first whenever it is served at all, so that a
/// shutdown reported in the same wake-up never overtakes data that is ready.
pub open spec fn event_outcomes(events: Seq<Event>, drained: Option<EventOutcome>) -> Seq<
    EventOutcome,
> {
    if !needs_drain(events) {
        seq![Ok(ProcessEventsForFdSuccess::Signal)]
    } else if events.len() == 2 {
        seq![drained->0, Ok(ProcessEventsForFdSuccess::Signal)]
    } else {
        seq![drained->0]
    }
}

/// Processes the events of one wake-up.
///
/// `drained` is how the draining of the source ended, for a wake-up that
/// calls for one (see `drains_source`).
pub fn process_events_for_fd(events: &Vec<Event>, drained: Option<EventOutcome>) -> (outcomes: Vec<
    EventOutcome,
>)
    requires
        events@.len() <= EVENT_CAPACITY,
        needs_drain(events@) ==> drained is Some,
    ensures
        outcomes@ == event_outcomes(events@, drained),
{
    let mut outcomes: Vec<EventOutcome> = Vec::new();
    if drains_source(events) {
        match drained {
            Some(outcome) => outcomes.push(outcome),
            None => {},
        }
    }
    if events.len() == 2 || !drains_source(events) {
        outcomes.push(Ok(ProcessEventsForFdSuccess::Signal));
    }
    outcomes
}

/// Why the serving of a stream was given up.
#[derive(Debug)]
pub enum ProcessFdError {
    /// Waiting for readiness failed.
    Poll(IoError),
    /// Handling an event failed.
    Event(ProcessEventsForFdError),
}

impl ProcessFdError {
    /// The failure in words, for the stream of the given name.
    pub open spec fn spec_message(self, log_descriptor: Seq<char>) -> Seq<char> {
        match self {
            ProcessFdError::Poll(_) => "Error polling for events"@,
            ProcessFdError::Event(_) => "Error processing event for stream "@ + log_descriptor,
        }
    }

    /// The failure in words, for the stream of the given name.
    pub fn message(&self, log_descriptor: &str) -> (text: String)
        ensures
            text@ == self.spec_message(log_descriptor@),
    {
        match self {
            ProcessFdError::Poll(_) => String::from_str("Error polling for events"),
            ProcessFdError::Event(_) => String::from_str(
                "Error processing event for stream ",
            ).concat(log_descriptor),
        }
    }
}

/// What is said, once, when a stream's log stops taking bytes.
pub open spec fn spec_log_failure_message(log_descriptor: Seq<char>, error: IoError) -> Seq<char> {
    "Error writing to "@ + log_descriptor + " log, disabling logging: "@ + error.message@
}

/// What is said, once, when a stream's log stops taking bytes.
pub fn log_failure_message(log_descriptor: &str, error: &IoError) -> (text: String)
    ensures
        text@ == spec_log_failure_message(log_descriptor@, *error),
{
    String::from_str("Error writing to ").concat(log_descriptor).concat(
        " log, disabling logging: ",
    ).concat(error.message.as_str())
}

/// What the loop that serves a stream is doing.
#[derive(Debug)]
pub enum Stage {
    /// Waiting, for at most the poll interval, until something is ready.
    Polling,
    /// Draining the source after a wake-up that reported `events`.
    Draining { events: Vec<Event>, drain: Drain },
    /// The loop is over, with this result.
    Exited(Result<(), ProcessFdError>),
}

/// The loop that serves one stream.
#[derive(Debug)]
pub struct Copier {
    /// Whether bytes still go to a log.
    pub log_attached: bool,
    pub stage: Stage,
}

/// The result of the operation that a `Copier` waited for.
#[derive(Debug)]
pub enum Input {
    /// A wait for readiness returned, and these events were found after it.
    Polled { result: Result<(), IoError>, events: Vec<Event> },
    /// An operation of the drain completed.
    Completed(Completion),
}

/// The operation that a `Copier` waits for.
#[derive(Clone, Copy, Debug, PartialEq, Eq, Structural)]
pub enum Request {
    /// Wait until the source or the shutdown notification is readable.
    Poll,
    /// Read from the source, without blocking.
    Read,
    /// Write the pending chunk to the sink.
    WriteSink,
    /// Write the pending chunk to the log.
    WriteLog,
    /// Nothing: the loop is over.
    Exit,
}

impl Copier {
    /// A draining copier holds the events of a wake-up that calls for
    /// draining, and a drain that is not over.
    pub open spec fn wf(self) -> bool {
        match self.stage {
            Stage::Draining { events, drain } => {
                &&& events@.len() <= EVENT_CAPACITY
                &&& needs_drain(events@)
                &&& !(drain is Finished)
            },
            _ => true,
        }
    }

    /// The copier of a stream that has served nothing yet.
    pub open spec fn fresh(log_attached: bool) -> Copier {
        Copier { log_attached, stage: Stage::Polling }
    }

    /// The copier of a stream that has served nothing yet.
    pub fn new(log_attached: bool) -> (copier: Copier)
        ensures
            copier == Copier::fresh(log_attached),
            copier.wf(),
    {
        Copier { log_attached, stage: Stage::Polling }
    }

    /// The operation that the copier waits for.
    pub open spec fn spec_request(self) -> Request {
        match self.stage {
            Stage::Polling => Request::Poll,
            Stage::Draining { drain: Drain::Writing(_), .. } => Request::WriteSink,
            Stage::Draining { drain: Drain::Logging(_), .. } => Request::WriteLog,
            Stage::Draining { .. } => Request::Read,
            Stage::Exited(_) => Request::Exit,
        }
    }

    /// The operation that the copier waits for.
    pub fn request(&self) -> (request: Request)
        ensures
            request == self.spec_request(),
    {
        match &self.stage {
            Stage::Polling => Request::Poll,
            Stage::Draining { drain: Drain::Writing(_), .. } => Request::WriteSink,
            Stage::Draining { drain: Drain::Logging(_), .. } => Request::WriteLog,
            Stage::Draining { .. } => Request::Read,
            Stage::Exited(_) => Request::Exit,
        }
    }

    /// The chunk that is on its way to the sink or to the log.
    pub open spec fn spec_pending(self) -> Option<Vec<u8>> {
        match self.stage {
            Stage::Draining { drain: Drain::Writing(chunk), .. } => Some(chunk),
            Stage::Draining { drain: Drain::Logging(chunk), .. } => Some(chunk),
            _ => None,
        }
    }

    /// The chunk that is on its way to the sink or to the log.
    pub fn pending(&self) -> (chunk: Option<&Vec<u8>>)
        ensures
            chunk matches Some(bytes) ==> self.spec_pending() == Some(*bytes),
            chunk is None ==> self.spec_pending() is None,
    {
        match &self.stage {
            Stage::Draining { drain: Drain::Writing(chunk), .. } => Some(chunk),
            Stage::Draining { drain: Drain::Logging(chunk), .. } => Some(chunk),
            _ => None,
        }
    }
}

/// Whether a wait for readiness failed for good. A wait that a signal cut
/// short has not: the loop goes on with whatever events it found.
pub open spec fn poll_failed(result: Result<(), IoError>) -> bool {
    result matches Err(e) && e.kind != IoErrorKind::Interrupted
}

impl Input {
    /// A wait that did not fail for good reports no more events than it has
    /// room for.
    pub open spec fn admissible(self) -> bool {
        self matches Input::Polled { result, events } ==> poll_failed(result) || events@.len()
            <= EVENT_CAPACITY
    }
}

/// The copier after the outcomes of one wake-up have been acted on, and the
/// log failure to report, if there is one.
///
/// The first outcome decides. Data forwarded: the loop goes on, unless a
/// second outcome follows; that one is the shutdown, and the loop ends well.
/// The stream closed, or shutdown: the loop ends well. The log failed: the
/// failure is reported, the log is detached, and the loop goes on whatever
/// follows, for a failed log never ends the copying, and what the source
/// still holds comes before any shutdown. Any other failure ends the loop
/// with it.
pub open spec fn cycle_end(log_attached: bool, outcomes: Seq<EventOutcome>) -> (
    Copier,
    Option<IoError>,
) {
    let onward = if outcomes.len() == 2 {
        Stage::Exited(Ok(()))
    } else {
        Stage::Polling
    };
    match outcomes[0] {
        Ok(ProcessEventsForFdSuccess::DataLogged) => (Copier { log_attached, stage: onward }, None),
        Ok(_) => (Copier { log_attached, stage: Stage::Exited(Ok(())) }, None),
        Err(ProcessEventsForFdError::Log(e)) => (
            Copier { log_attached: false, stage: Stage::Polling },
            Some(e),
        ),
        Err(e) => (
            Copier { log_attached, stage: Stage::Exited(Err(ProcessFdError::Event(e))) },
            None,
        ),
    }
}

/// Acts on the outcomes of one wake-up.
pub fn conclude_cycle(log_attached: bool, outcomes: Vec<EventOutcome>) -> (end: (
    Copier,
    Option<IoError>,
))
    requires
        outcomes@.len() > 0,
    ensures
        end == cycle_end(log_attached, outcomes@),
        end.0.wf(),
{
    let mut rest = outcomes;
    let first = rest.remove(0);
    let onward = if rest.len() == 1 {
        Stage::Exited(Ok(()))
    } else {
        Stage::Polling
    };
    match first {
        Ok(ProcessEventsForFdSuccess::DataLogged) => (Copier { log_attached, stage: onward }, None),
        Ok(_) => (Copier { log_attached, stage: Stage::Exited(Ok(())) }, None),
        Err(ProcessEventsForFdError::Log(e)) => (
            Copier { log_attached: false, stage: Stage::Polling },
            Some(e),
        ),
        Err(e) => (
            Copier { log_attached, stage: Stage::Exited(Err(ProcessFdError::Event(e))) },
            None,
        ),
    }
}

/// The copier after one more operation has completed, and the log failure to
/// report, if there is one.
///
/// After a wait: a wait that failed for good ends the loop; otherwise the
/// source is drained, unless shutdown is all that was reported. During a
/// drain: the drain takes the completion. A drain that the log's failure
/// ended is taken up again at once, with the failure reported and the log
/// detached: the wake-up goes on as if there had been no log. Once a drain
/// is over for any other reason, the outcomes of the wake-up are acted on. An
/// input that the copier does not wait for changes nothing.
pub open spec fn copier_step(copier: Copier, input: Input) -> (Copier, Option<IoError>) {
    match (copier.stage, input) {
        (Stage::Polling, Input::Polled { result, events }) => if poll_failed(result) {
            (
                Copier {
                    log_attached: copier.log_attached,
                    stage: Stage::Exited(Err(ProcessFdError::Poll(result->Err_0))),
                },
                None,
            )
        } else if needs_drain(events@) {
            (
                Copier {
                    log_attached: copier.log_attached,
                    stage: Stage::Draining { events, drain: Drain::Reading },
                },
                None,
            )
        } else {
            cycle_end(copier.log_attached, event_outcomes(events@, None))
        },
        (Stage::Draining { events, drain }, Input::Completed(completion)) => {
            let next = drain_step(drain, completion, copier.log_attached);
            match next {
                Drain::Finished(Err(ProcessEventsForFdError::Log(e))) => (
                    Copier {
                        log_attached: false,
                        stage: Stage::Draining { events, drain: Drain::Reading },
                    },
                    Some(e),
                ),
                Drain::Finished(outcome) => cycle_end(
                    copier.log_attached,
                    event_outcomes(events@, Some(outcome)),
                ),
                _ => (
                    Copier {
                        log_attached: copier.log_attached,
                        stage: Stage::Draining { events, drain: next },
                    },
                    None,
                ),
            }
        },
        _ => (copier, None),
    }
}

/// Serves a stream, one completed operation at a time.
///
/// The caller performs the operation that the copier waits for (see
/// `Copier::request`), hands its result in, reports the log failure that
/// comes back, if any, and drops the log then; it goes on with the copier
/// returned until that has exited.
pub fn process_fd(copier: Copier, input: Input) -> (advance: (Copier, Option<IoError>))
    requires
        copier.wf(),
        input.admissible(),
    ensures
        advance == copier_step(copier, input),
        advance.0.wf(),
{
    let Copier { log_attached, stage } = copier;
    match (stage, input) {
        (Stage::Polling, Input::Polled { result, events }) => {
            match result {
                Err(e) if e.kind != IoErrorKind::Interrupted => {
                    (Copier { log_attached, stage: Stage::Exited(Err(ProcessFdError::Poll(e))) }, None)
                },
                _ => {
                    if drains_source(&events) {
                        (
                            Copier {
                                log_attached,
                                stage: Stage::Draining { events, drain: Drain::Reading },
                            },
                            None,
                        )
                    } else {
                        conclude_cycle(log_attached, process_events_for_fd(&events, None))
                    }
                },
            }
        },
        (Stage::Draining { events, drain }, Input::Completed(completion)) => {
            match inner_fd_event_readable(drain, completion, log_attached) {
                Drain::Finished(Err(ProcessEventsForFdError::Log(e))) => (
                    Copier {
                        log_attached: false,
                        stage: Stage::Draining { events, drain: Drain::Reading },
                    },
                    Some(e),
                ),
                Drain::Finished(outcome) => conclude_cycle(
                    log_attached,
                    process_events_for_fd(&events, Some(outcome)),
                ),
                next => (
                    Copier { log_attached, stage: Stage::Draining { events, drain: next } },
                    None,
                ),
            }
        },
        (stage, _) => (Copier { log_attached, stage }, None),
    }
}

/// The bytes that have passed through a stream: those read from the source,
/// those that the sink and the log took in writes that completed, and those
/// of the write that the sink refused.
pub struct Traffic {
    pub source: Seq<u8>,
    pub sink: Seq<u8>,
    pub log: Seq<u8>,
    pub refused: Seq<u8>,
}

impl Traffic {
    /// No bytes anywhere.
    pub open spec fn none() -> Traffic {
        Traffic { source: Seq::empty(), sink: Seq::empty(), log: Seq::empty(), refused: Seq::empty() }
    }
}

/// The traffic after the copier has taken one more input.
pub open spec fn traffic_step(copier: Copier, input: Input, before: Traffic) -> Traffic {
    match (copier.stage, input) {
        (Stage::Draining { drain: Drain::Reading, .. }, Input::Completed(Completion::Read(Ok(chunk)))) => Traffic {
            source: before.source + chunk@,
            ..before
        },
        (Stage::Draining { drain: Drain::Writing(chunk), .. }, Input::Completed(Completion::Written(Ok(_)))) => Traffic {
            sink: before.sink + chunk@,
            ..before
        },
        (Stage::Draining { drain: Drain::Writing(chunk), .. }, Input::Completed(Completion::Written(Err(_)))) => Traffic {
            refused: before.refused + chunk@,
            ..before
        },
        (Stage::Draining { drain: Drain::Logging(chunk), .. }, Input::Completed(Completion::Written(Ok(_)))) => Traffic {
            log: before.log + chunk@,
            ..before
        },
        _ => before,
    }
}

/// The copier after it has taken the inputs one after the other.
pub open spec fn run(copier: Copier, inputs: Seq<Input>) -> Copier
    decreases inputs.len(),
{
    if inputs.len() == 0 {
        copier
    } else {
        copier_step(run(copier, inputs.drop_last()), inputs.last()).0
    }
}

/// The traffic of a stream on top of `before`, after its copier has taken the
/// inputs one after the other.
pub open spec fn traffic(copier: Copier, inputs: Seq<Input>, before: Traffic) -> Traffic
    decreases inputs.len(),
{
    if inputs.len() == 0 {
        before
    } else {
        traffic_step(
            run(copier, inputs.drop_last()),
            inputs.last(),
            traffic(copier, inputs.drop_last(), before),
        )
    }
}

/// The chunk that is on its way to the sink.
pub open spec fn awaiting_sink(copier: Copier) -> Seq<u8> {
    match copier.stage {
        Stage::Draining { drain: Drain::Writing(chunk), .. } => chunk@,
        _ => Seq::empty(),
    }
}

/// The chunk that is on its way to the log.
pub open spec fn awaiting_log(copier: Copier) -> Seq<u8> {
    match copier.stage {
        Stage::Draining { drain: Drain::Logging(chunk), .. } => chunk@,
        _ => Seq::empty(),
    }
}

/// What holds of a copier and the traffic of its stream at every moment.
pub open spec fn faithful(copier: Copier, bytes: Traffic) -> bool {
    &&& bytes.source == bytes.sink + awaiting_sink(copier) + bytes.refused
    &&& copier.log_attached ==> bytes.log + awaiting_log(copier) == bytes.sink
    &&& bytes.log.is_prefix_of(bytes.sink)
    &&& bytes.refused.len() > 0 ==> copier.stage is Exited
    &&& awaiting_log(copier).len() > 0 ==> copier.log_attached
    &&& copier.stage matches Stage::Draining { events, drain } ==> needs_drain(events@) && !(drain
        is Finished)
}

/// One input keeps a faithful copier faithful.
proof fn lemma_step_faithful(copier: Copier, input: Input, bytes: Traffic)
    requires
        faithful(copier, bytes),
    ensures
        faithful(copier_step(copier, input).0, traffic_step(copier, input, bytes)),
{
    let next = copier_step(copier, input).0;
    let after = traffic_step(copier, input, bytes);
    match (copier.stage, input) {
        (Stage::Draining { events, drain }, Input::Completed(completion)) => {
            let stepped = drain_step(drain, completion, copier.log_attached);
            if let Drain::Finished(outcome) = stepped {
                let outcomes = event_outcomes(events@, Some(outcome));
                assert(outcomes[0] == outcome);
            }
            assert(after.source == after.sink + awaiting_sink(next) + after.refused);
            assert(after.log.is_prefix_of(after.sink));
        },
        (Stage::Polling, Input::Polled { result, events }) => {
            if !poll_failed(result) && !needs_drain(events@) {
                let outcomes = event_outcomes(events@, None);
                assert(outcomes[0] == Ok::<ProcessEventsForFdSuccess, ProcessEventsForFdError>(ProcessEventsForFdSuccess::Signal));
            }
        },
        _ => {},
    }
}

/// Whatever a faithful copier takes, it stays faithful.
proof fn lemma_run_faithful(copier: Copier, inputs: Seq<Input>, bytes: Traffic)
    requires
        faithful(copier, bytes),
    ensures
        faithful(run(copier, inputs), traffic(copier, inputs, bytes)),
    decreases inputs.len(),
{
    if inputs.len() > 0 {
        lemma_run_faithful(copier, inputs.drop_last(), bytes);
        lemma_step_faithful(
            run(copier, inputs.drop_last()),
            inputs.last(),
            traffic(copier, inputs.drop_last(), bytes),
        );
    }
}

/// Copy fidelity. Whatever happens to a stream from its start, the bytes read
/// from its source are, in order, the bytes that its sink has taken, then the
/// chunk on its way to the sink, then the chunk that the sink refused; only a
/// stream that is over has a refused chunk. While the log is attached, the
/// bytes it has taken, followed by the chunk on its way to it, are the bytes
/// that the sink has taken.
pub proof fn lemma_copy_fidelity(log_attached: bool, inputs: Seq<Input>)
    ensures
        ({
            let copier = run(Copier::fresh(log_attached), inputs);
            let bytes = traffic(Copier::fresh(log_attached), inputs, Traffic::none());
            &&& bytes.source == bytes.sink + awaiting_sink(copier) + bytes.refused
            &&& bytes.refused.len() > 0 ==> copier.stage is Exited
            &&& copier.log_attached ==> bytes.log + awaiting_log(copier) == bytes.sink
            &&& bytes.log.is_prefix_of(bytes.sink)
        }),
{
    let start = Copier::fresh(log_attached);
    assert(Traffic::none().source == Traffic::none().sink + awaiting_sink(start)
        + Traffic::none().refused);
    assert(Traffic::none().log + awaiting_log(start) == Traffic::none().sink);
    lemma_run_faithful(start, inputs, Traffic::none());
}

/// Taking two runs of inputs in a row is taking the first, then the second.
proof fn lemma_run_in_two(copier: Copier, first: Seq<Input>, second: Seq<Input>, bytes: Traffic)
    ensures
        run(copier, first + second) == run(run(copier, first), second),
        traffic(copier, first + second, bytes) == traffic(
            run(copier, first),
            second,
            traffic(copier, first, bytes),
        ),
    decreases second.len(),
{
    if second.len() == 0 {
        assert(first + second =~= first);
    } else {
        assert((first + second).drop_last() =~= first + second.drop_last());
        assert((first + second).last() == second.last());
        lemma_run_in_two(copier, first, second.drop_last(), bytes);
    }
}

/// A stream that is over stays over: whatever is handed in, its copier does
/// not change, asks for nothing, and no byte moves.
pub proof fn lemma_exit_is_final(copier: Copier, inputs: Seq<Input>, bytes: Traffic)
    requires
        copier.stage is Exited,
    ensures
        run(copier, inputs) == copier,
        traffic(copier, inputs, bytes) == bytes,
        copier.spec_request() == Request::Exit,
    decreases inputs.len(),
{
    if inputs.len() > 0 {
        lemma_exit_is_final(copier, inputs.drop_last(), bytes);
    }
}

/// Peer-closed tolerance. When the sink reports, in the middle of a write,
/// that its peer is gone, the stream ends well, nothing is reported, and
/// nothing is written afterwards, whatever is handed in.
pub proof fn lemma_peer_closed_ends_cleanly(
    copier: Copier,
    error: IoError,
    later: Seq<Input>,
    bytes: Traffic,
)
    requires
        copier.wf(),
        copier.spec_request() == Request::WriteSink,
        error.kind == IoErrorKind::BrokenPipe,
    ensures
        ({
            let (ended, report) = copier_step(copier, Input::Completed(Completion::Written(Err(error))));
            &&& ended.stage == Stage::Exited(Ok(()))
            &&& ended.log_attached == copier.log_attached
            &&& report is None
            &&& run(ended, later) == ended
            &&& traffic(ended, later, bytes) == bytes
            &&& ended.spec_request() == Request::Exit
        }),
{
    let ended = copier_step(copier, Input::Completed(Completion::Written(Err(error)))).0;
    lemma_exit_is_final(ended, later, bytes);
}

/// A stream without a log never gets one: no byte goes to the log.
proof fn lemma_detached_log_is_still(copier: Copier, inputs: Seq<Input>, bytes: Traffic)
    requires
        !copier.log_attached,
        awaiting_log(copier).len() == 0,
    ensures
        !run(copier, inputs).log_attached,
        awaiting_log(run(copier, inputs)).len() == 0,
        traffic(copier, inputs, bytes).log == bytes.log,
    decreases inputs.len(),
{
    if inputs.len() > 0 {
        lemma_detached_log_is_still(copier, inputs.drop_last(), bytes);
        let before = run(copier, inputs.drop_last());
        match (before.stage, inputs.last()) {
            (Stage::Draining { events, drain }, Input::Completed(completion)) => {
                match drain {
                    Drain::Logging(chunk) => {
                        assert(awaiting_log(before) == chunk@);
                    },
                    _ => {},
                }
            },
            _ => {},
        }
    }
}

/// Log-failure isolation. Take a stream from its start to a moment at which
/// its log is being written, and let that write fail. The failure is reported
/// and the log detached, and the stream goes on at once with the next read of
/// its source, in the same wake-up and whether or not shutdown is due in it.
/// Whatever happens later, the log holds the bytes it held before the
/// failure and no others, while the sink goes on taking every byte that is
/// read.
pub proof fn lemma_log_failure_isolated(
    log_attached: bool,
    before: Seq<Input>,
    error: IoError,
    later: Seq<Input>,
)
    requires
        run(Copier::fresh(log_attached), before).spec_request() == Request::WriteLog,
    ensures
        ({
            let start = Copier::fresh(log_attached);
            let reached = run(start, before);
            let failure = Input::Completed(Completion::Written(Err(error)));
            let (next, report) = copier_step(reached, failure);
            let all = before.push(failure) + later;
            let bytes = traffic(start, all, Traffic::none());
            &&& report == Some(error)
            &&& !next.log_attached
            &&& next.spec_request() == Request::Read
            &&& reached.stage matches Stage::Draining { events, .. } && next.stage
                == Stage::Draining { events, drain: Drain::Reading }
            &&& !run(start, all).log_attached
            &&& bytes.log == traffic(start, before, Traffic::none()).log
            &&& bytes.source == bytes.sink + awaiting_sink(run(start, all)) + bytes.refused
        }),
{
    let start = Copier::fresh(log_attached);
    let failure = Input::Completed(Completion::Written(Err(error)));
    let failed = before.push(failure);
    let all = failed + later;
    let reached = run(start, before);
    let bytes_before = traffic(start, before, Traffic::none());
    assert(failed.drop_last() =~= before);
    assert(failed.last() == failure);
    let next = copier_step(reached, failure).0;
    assert(run(start, failed) == next);
    assert(traffic(start, failed, Traffic::none()) == bytes_before);
    lemma_run_in_two(start, failed, later, Traffic::none());
    lemma_detached_log_is_still(next, later, bytes_before);
    lemma_copy_fidelity(log_attached, all);
}

/// Ordering under simultaneous readiness. A wake-up that reports data and
/// shutdown together starts with reading the source. From then on the stream
/// stays in the drain, also when the log fails, and never waits again. It
/// ends only when the source would block or has ended, when the sink's peer
/// is gone, or when reading or writing to the sink fails: shutdown is
/// honoured after the data, not before.
pub proof fn lemma_data_before_shutdown(
    copier: Copier,
    result: Result<(), IoError>,
    events: Vec<Event>,
    drain: Drain,
    completion: Completion,
)
    requires
        copier.stage is Polling,
        !poll_failed(result),
        events@.len() == 2,
        !(drain is Finished),
    ensures
        ({
            let (woken, report) = copier_step(copier, Input::Polled { result, events });
            let draining = Copier {
                log_attached: copier.log_attached,
                stage: Stage::Draining { events, drain },
            };
            let stepped = drain_step(drain, completion, copier.log_attached);
            let next = copier_step(draining, Input::Completed(completion)).0;
            &&& woken.stage == Stage::Draining { events, drain: Drain::Reading }
            &&& woken.spec_request() == Request::Read
            &&& report is None
            &&& !(next.stage is Polling)
            &&& !(stepped is Finished) ==> next.stage == Stage::Draining { events, drain: stepped }
            &&& stepped matches Drain::Finished(Err(ProcessEventsForFdError::Log(_)))
                ==> next.stage == Stage::Draining { events, drain: Drain::Reading }
            &&& stepped matches Drain::Finished(Ok(_)) ==> next.stage == Stage::Exited(Ok(()))
            &&& stepped matches Drain::Finished(Err(ProcessEventsForFdError::Read(e)))
                ==> next.stage == Stage::Exited(
                Err(ProcessFdError::Event(ProcessEventsForFdError::Read(e))),
            )
            &&& stepped matches Drain::Finished(Err(ProcessEventsForFdError::Write(e)))
                ==> next.stage == Stage::Exited(
                Err(ProcessFdError::Event(ProcessEventsForFdError::Write(e))),
            )
            &&& next.stage is Exited ==> {
                ||| completion matches Completion::Read(Ok(chunk)) && chunk@.len() == 0
                ||| completion matches Completion::Read(Err(_))
                ||| drain is Writing && completion matches Completion::Written(Err(_))
            }
        }),
{
    let stepped = drain_step(drain, completion, copier.log_attached);
    if let Drain::Finished(outcome) = stepped {
        assert(event_outcomes(events@, Some(outcome)).len() == 2);
        assert(event_outcomes(events@, Some(outcome))[0] == outcome);
    }
}

} // verus!

use fdintercept::error::{IoError, IoErrorKind};
use fdintercept::fd;
use fdintercept::fd::{
    Completion, Copier, Drain, Event, Input, LogFileError, LogMode, ProcessEventsForFdError,
    ProcessEventsForFdSuccess, ProcessFdError, Request, Stage,
};
use std::cell::RefCell;
use std::io::{self, Error, ErrorKind, Read, Write};
use std::rc::Rc;

struct MockRead {
    responses: Vec<io::Result<usize>>,
    current: usize,
}

impl Read for MockRead {
    fn read(&mut self, _buf: &mut [u8]) -> io::Result<usize> {
        match self.responses.get(self.current) {
            Some(Ok(n)) => {
                self.current += 1;
                Ok(*n)
            }
            Some(Err(e)) => {
                self.current += 1;
                Err(io::Error::new(e.kind(), e.to_string()))
            }
            None => Ok(0), // EOF when no more responses.
        }
    }
}

struct MockWrite {
    responses: Vec<io::Result<()>>,
    current: usize,
    written_data: Vec<Vec<u8>>,
}

impl Write for MockWrite {
    fn write(&mut self, _buf: &[u8]) -> io::Result<usize> {
        Ok(0)
    }

    fn flush(&mut self) -> io::Result<()> {
        Ok(())
    }

    fn write_all(&mut self, buf: &[u8]) -> io::Result<()> {
        self.written_data.push(buf.to_vec());
        match self.responses.get(self.current) {
            Some(Ok(())) => {
                self.current += 1;
                Ok(())
            }
            Some(Err(e)) => {
                self.current += 1;
                Err(io::Error::new(e.kind(), e.to_string()))
            }
            None => Ok(()),
        }
    }
}

struct RefCellWriter(Rc<RefCell<MockWrite>>);

impl Write for RefCellWriter {
    fn write(&mut self, buf: &[u8]) -> io::Result<usize> {
        self.0.borrow_mut().write(buf)
    }

    fn flush(&mut self) -> io::Result<()> {
        self.0.borrow_mut().flush()
    }

    fn write_all(&mut self, buf: &[u8]) -> io::Result<()> {
        self.0.borrow_mut().write_all(buf)
    }
}

/// A source that hands out its bytes in pieces, says that it would block
/// after each piece where told to, and ends when it has no more.
struct PiecewiseRead {
    data: Vec<u8>,
    position: usize,
    block_between: bool,
    blocked_last: bool,
}

impl Read for PiecewiseRead {
    fn read(&mut self, buf: &mut [u8]) -> io::Result<usize> {
        if self.block_between && !self.blocked_last && self.position > 0 {
            self.blocked_last = true;
            return Err(Error::new(ErrorKind::WouldBlock, "would block"));
        }
        self.blocked_last = false;
        let n = buf.len().min(self.data.len() - self.position);
        buf[..n].copy_from_slice(&self.data[self.position..self.position + n]);
        self.position += n;
        Ok(n)
    }
}

/// A log that takes a number of writes and fails from then on.
struct FailingLog {
    good_writes: usize,
    written: Vec<u8>,
    attempts: usize,
}

impl Write for FailingLog {
    fn write(&mut self, buf: &[u8]) -> io::Result<usize> {
        self.write_all(buf).map(|()| buf.len())
    }

    fn flush(&mut self) -> io::Result<()> {
        Ok(())
    }

    fn write_all(&mut self, buf: &[u8]) -> io::Result<()> {
        self.attempts += 1;
        if self.attempts > self.good_writes {
            return Err(Error::other("log is full"));
        }
        self.written.extend_from_slice(buf);
        Ok(())
    }
}

struct SharedLog(Rc<RefCell<FailingLog>>);

impl Write for SharedLog {
    fn write(&mut self, buf: &[u8]) -> io::Result<usize> {
        self.0.borrow_mut().write(buf)
    }

    fn flush(&mut self) -> io::Result<()> {
        Ok(())
    }

    fn write_all(&mut self, buf: &[u8]) -> io::Result<()> {
        self.0.borrow_mut().write_all(buf)
    }
}

fn to_io_error(e: io::Error) -> IoError {
    let kind = match e.kind() {
        ErrorKind::WouldBlock => IoErrorKind::WouldBlock,
        ErrorKind::BrokenPipe => IoErrorKind::BrokenPipe,
        ErrorKind::Interrupted => IoErrorKind::Interrupted,
        ErrorKind::NotFound => IoErrorKind::NotFound,
        _ => IoErrorKind::Other,
    };
    IoError::new(kind, e.to_string())
}

fn read_chunk(src: &mut impl Read, buffer: &mut [u8]) -> Completion {
    Completion::Read(
        src.read(buffer)
            .map(|n| buffer[..n].to_vec())
            .map_err(to_io_error),
    )
}

/// Drains a source as a caller of the library does: it performs the
/// operation that the drain names and hands the result in.
fn inner_fd_event_readable(
    src_fd: &mut impl Read,
    dst_fd: &mut impl Write,
    buffer: &mut [u8],
    maybe_log: &mut Option<impl Write>,
) -> Result<ProcessEventsForFdSuccess, ProcessEventsForFdError> {
    let mut drain = Drain::Reading;
    loop {
        let completion = match &drain {
            Drain::Reading => read_chunk(src_fd, buffer),
            Drain::Writing(chunk) => {
                Completion::Written(dst_fd.write_all(chunk).map_err(to_io_error))
            }
            Drain::Logging(chunk) => Completion::Written(
                maybe_log
                    .as_mut()
                    .unwrap()
                    .write_all(chunk)
                    .map_err(to_io_error),
            ),
            Drain::Finished(_) => break,
        };
        drain = fd::inner_fd_event_readable(drain, completion, maybe_log.is_some());
    }
    match drain {
        Drain::Finished(outcome) => outcome,
        _ => unreachable!(),
    }
}

/// Processes the events of one wake-up as a caller of the library does.
fn process_events_for_fd(
    events: Vec<Event>,
    src_fd: &mut impl Read,
    dst_fd: &mut impl Write,
    buffer: &mut [u8],
    maybe_log: &mut Option<impl Write>,
) -> Vec<Result<ProcessEventsForFdSuccess, ProcessEventsForFdError>> {
    assert!(events.len() <= fd::EVENT_CAPACITY);
    let drained = if fd::drains_source(&events) {
        Some(inner_fd_event_readable(src_fd, dst_fd, buffer, maybe_log))
    } else {
        None
    };
    fd::process_events_for_fd(&events, drained)
}

/// Serves a stream as a caller of the library does. Each wait for readiness
/// reports what `wake_ups` holds for it, and nothing once that is used up.
fn process_fd(
    mut src_fd: impl Read,
    mut dst_fd: impl Write,
    buffer_size: usize,
    mut maybe_log: Option<impl Write>,
    log_descriptor: &'static str,
    wake_ups: Vec<Vec<Event>>,
) -> Result<(), String> {
    let mut buffer = vec![0; buffer_size];
    let mut wake_ups = wake_ups.into_iter();
    let mut copier = Copier::new(maybe_log.is_some());
    loop {
        let input = match copier.request() {
            Request::Poll => Input::Polled {
                result: Ok(()),
                events: wake_ups.next().unwrap_or_default(),
            },
            Request::Read => Input::Completed(read_chunk(&mut src_fd, &mut buffer)),
            Request::WriteSink => Input::Completed(Completion::Written(
                dst_fd
                    .write_all(copier.pending().unwrap())
                    .map_err(to_io_error),
            )),
            Request::WriteLog => Input::Completed(Completion::Written(
                maybe_log
                    .as_mut()
                    .unwrap()
                    .write_all(copier.pending().unwrap())
                    .map_err(to_io_error),
            )),
            Request::Exit => break,
        };
        let (next, log_failure) = fd::process_fd(copier, input);
        if let Some(e) = log_failure {
            println!("{}", fd::log_failure_message(log_descriptor, &e));
            maybe_log.take();
        }
        copier = next;
    }
    match copier.stage {
        Stage::Exited(result) => result.map_err(|e| e.message(log_descriptor)),
        _ => unreachable!(),
    }
}

#[test]
fn fd_success() {
    let src = MockRead {
        responses: vec![Ok(5), Ok(3), Ok(0)], // Some data then EOF.
        current: 0,
    };
    let dst = MockWrite {
        responses: vec![Ok(()), Ok(())],
        current: 0,
        written_data: vec![],
    };
    let log_file = MockWrite {
        responses: vec![Ok(()), Ok(())],
        current: 0,
        written_data: vec![],
    };

    let dst = Rc::new(RefCell::new(dst));
    let log_file = Rc::new(RefCell::new(log_file));

    process_fd(
        src,
        RefCellWriter(dst.clone()),
        1024,
        Some(RefCellWriter(log_file.clone())),
        "test",
        vec![],
    )
    .unwrap();

    assert_eq!(dst.borrow().written_data.len(), 2);
    assert_eq!(dst.borrow().written_data[0].len(), 5);
    assert_eq!(dst.borrow().written_data[1].len(), 3);
    assert_eq!(log_file.borrow().written_data.len(), 2);
    assert_eq!(log_file.borrow().written_data[0].len(), 5);
    assert_eq!(log_file.borrow().written_data[1].len(), 3);
}

#[test]
fn no_events() {
    // These cases are probably EOF or WouldBlock.
    let mut src = MockRead {
        responses: vec![Ok(0)],
        current: 0,
    };
    let mut dst = MockWrite {
        responses: vec![Ok(())],
        current: 0,
        written_data: vec![],
    };

    let mut buffer = vec![0; 1024];
    let mut log_file: Option<MockWrite> = None;

    let events: Vec<Event> = vec![];
    let results = process_events_for_fd(events, &mut src, &mut dst, &mut buffer, &mut log_file);

    assert_eq!(results.len(), 1);
    assert!(matches!(results[0], Ok(ProcessEventsForFdSuccess::Eof)));
}

#[test]
fn single_event_fd_ready() {
    let mut src = MockRead {
        responses: vec![Ok(5), Err(Error::new(ErrorKind::WouldBlock, "would block"))],
        current: 0,
    };
    let mut dst = MockWrite {
        responses: vec![Ok(())],
        current: 0,
        written_data: vec![],
    };

    let mut buffer = vec![0; 1024];
    let mut log_file: Option<MockWrite> = None;

    let events = vec![Event::FdReady];
    let results = process_events_for_fd(events, &mut src, &mut dst, &mut buffer, &mut log_file);

    assert_eq!(results.len(), 1);
    assert!(matches!(
        results[0],
        Ok(ProcessEventsForFdSuccess::DataLogged)
    ));
}

#[test]
fn single_event_signal_ready() {
    let mut src = MockRead {
        responses: vec![],
        current: 0,
    };
    let mut dst = MockWrite {
        responses: vec![],
        current: 0,
        written_data: vec![],
    };
    let mut buffer = vec![0; 1024];
    let mut log_file: Option<MockWrite> = None;

    let events = vec![Event::SignalReady];
    let results = process_events_for_fd(events, &mut src, &mut dst, &mut buffer, &mut log_file);

    assert_eq!(results.len(), 1);
    assert!(matches!(results[0], Ok(ProcessEventsForFdSuccess::Signal)));
}

#[test]
fn both_events_fd_first() {
    let mut src = MockRead {
        responses: vec![Ok(5), Err(Error::new(ErrorKind::WouldBlock, "would block"))],
        current: 0,
    };
    let mut dst = MockWrite {
        responses: vec![Ok(())],
        current: 0,
        written_data: vec![],
    };

    let mut buffer = vec![0; 1024];
    let mut log_file: Option<MockWrite> = None;

    let events = vec![Event::FdReady, Event::SignalReady];
    let results = process_events_for_fd(events, &mut src, &mut dst, &mut buffer, &mut log_file);

    assert_eq!(results.len(), 2);
    assert!(matches!(
        results[0],
        Ok(ProcessEventsForFdSuccess::DataLogged)
    ));
    assert!(matches!(results[1], Ok(ProcessEventsForFdSuccess::Signal)));
}

#[test]
fn both_events_signal_first() {
    let mut src = MockRead {
        responses: vec![Ok(5), Err(Error::new(ErrorKind::WouldBlock, "would block"))],
        current: 0,
    };
    let mut dst = MockWrite {
        responses: vec![Ok(())],
        current: 0,
        written_data: vec![],
    };

    let mut buffer = vec![0; 1024];
    let mut log_file: Option<MockWrite> = None;

    let events = vec![Event::SignalReady, Event::FdReady];
    let results = process_events_for_fd(events, &mut src, &mut dst, &mut buffer, &mut log_file);

    assert_eq!(results.len(), 2);
    assert!(matches!(
        results[0],
        Ok(ProcessEventsForFdSuccess::DataLogged)
    ));
    assert!(matches!(results[1], Ok(ProcessEventsForFdSuccess::Signal)));
}

#[test]
fn success_with_log() {
    let mut src = MockRead {
        responses: vec![Ok(5), Err(Error::new(ErrorKind::WouldBlock, "would block"))],
        current: 0,
    };
    let mut dst = MockWrite {
        responses: vec![Ok(())],
        current: 0,
        written_data: vec![],
    };

    let mut buffer = vec![0; 1024];
    let mut log_file = Some(MockWrite {
        responses: vec![Ok(())],
        current: 0,
        written_data: vec![],
    });

    assert!(matches!(
        inner_fd_event_readable(&mut src, &mut dst, &mut buffer, &mut log_file),
        Ok(ProcessEventsForFdSuccess::DataLogged)
    ));
    assert_eq!(dst.written_data.len(), 1);
    assert_eq!(dst.written_data[0].len(), 5);
    assert_eq!(log_file.as_ref().unwrap().written_data.len(), 1);
    assert_eq!(log_file.as_ref().unwrap().written_data[0].len(), 5);
}

#[test]
fn success_without_log() {
    let mut src = MockRead {
        responses: vec![Ok(5), Err(Error::new(ErrorKind::WouldBlock, "would block"))],
        current: 0,
    };
    let mut dst = MockWrite {
        responses: vec![Ok(())],
        current: 0,
        written_data: vec![],
    };

    let mut buffer = vec![0; 1024];
    let mut log_file: Option<MockWrite> = None;

    assert!(matches!(
        inner_fd_event_readable(&mut src, &mut dst, &mut buffer, &mut log_file),
        Ok(ProcessEventsForFdSuccess::DataLogged)
    ));
    assert_eq!(dst.written_data.len(), 1);
    assert_eq!(dst.written_data[0].len(), 5);
}

#[test]
fn eof_on_read() {
    let mut src = MockRead {
        responses: vec![Ok(0)],
        current: 0,
    };
    let mut dst = MockWrite {
        responses: vec![],
        current: 0,
        written_data: vec![],
    };

    let mut buffer = vec![0; 1024];
    let mut log_file: Option<MockWrite> = None;

    assert!(matches!(
        inner_fd_event_readable(&mut src, &mut dst, &mut buffer, &mut log_file),
        Ok(ProcessEventsForFdSuccess::Eof)
    ));
}

#[test]
fn error_on_read() {
    let mut src = MockRead {
        responses: vec![Err(Error::other("read error"))],
        current: 0,
    };
    let mut dst = MockWrite {
        responses: vec![],
        current: 0,
        written_data: vec![],
    };

    let mut buffer = vec![0; 1024];
    let mut log_file: Option<MockWrite> = None;

    assert!(matches!(
        inner_fd_event_readable(&mut src, &mut dst, &mut buffer, &mut log_file),
        Err(ProcessEventsForFdError::Read(_))
    ));
}

#[test]
fn broken_pipe_on_write() {
    let mut src = MockRead {
        responses: vec![Ok(5)],
        current: 0,
    };
    let mut dst = MockWrite {
        responses: vec![Err(Error::new(ErrorKind::BrokenPipe, "broken pipe"))],
        current: 0,
        written_data: vec![],
    };

    let mut buffer = vec![0; 1024];
    let mut log_file: Option<MockWrite> = None;

    assert!(matches!(
        inner_fd_event_readable(&mut src, &mut dst, &mut buffer, &mut log_file),
        Ok(ProcessEventsForFdSuccess::Eof)
    ));
}

#[test]
fn error_on_write() {
    let mut src = MockRead {
        responses: vec![Ok(5)],
        current: 0,
    };
    let mut dst = MockWrite {
        responses: vec![Err(Error::other("write error"))],
        current: 0,
        written_data: vec![],
    };

    let mut buffer = vec![0; 1024];
    let mut log_file: Option<MockWrite> = None;

    assert!(matches!(
        inner_fd_event_readable(&mut src, &mut dst, &mut buffer, &mut log_file),
        Err(ProcessEventsForFdError::Write(_))
    ));
}

#[test]
fn error_on_log_write() {
    let mut src = MockRead {
        responses: vec![Ok(5)],
        current: 0,
    };
    let mut dst = MockWrite {
        responses: vec![Ok(())],
        current: 0,
        written_data: vec![],
    };

    let mut buffer = vec![0; 1024];
    let mut log_file = Some(MockWrite {
        responses: vec![Err(Error::other("log write error"))],
        current: 0,
        written_data: vec![],
    });

    assert!(matches!(
        inner_fd_event_readable(&mut src, &mut dst, &mut buffer, &mut log_file),
        Err(ProcessEventsForFdError::Log(_))
    ));
}

#[test]
fn none() {
    assert!(fd::create_log_file(None, false).is_none());
}

#[test]
fn log_file_is_appended_to_unless_recreated() {
    let path = String::from("nested/dirs/test.log");

    let kept = fd::create_log_file(Some(&path), false).unwrap();
    assert_eq!(kept.path, "nested/dirs/test.log");
    assert_eq!(kept.mode, LogMode::Append);

    let emptied = fd::create_log_file(Some(&path), true).unwrap();
    assert_eq!(emptied.path, "nested/dirs/test.log");
    assert_eq!(emptied.mode, LogMode::Truncate);
}

#[test]
fn log_file_errors_name_the_path() {
    let denied = IoError::new(IoErrorKind::Other, String::from("permission denied"));
    assert_eq!(
        LogFileError::Open(denied).message("test.log"),
        "Failed to create/open log file: test.log"
    );
    let denied = IoError::new(IoErrorKind::Other, String::from("permission denied"));
    assert_eq!(
        LogFileError::Parents(denied).message("a/test.log"),
        "Failed to create parent directories to log file a/test.log"
    );
}

#[test]
fn tokens_name_their_events() {
    assert_eq!(fd::SRC_TOKEN, 0);
    assert_eq!(fd::SIGNAL_TOKEN, 1);
    assert_eq!(Event::from_mio_token(fd::SRC_TOKEN), Event::FdReady);
    assert_eq!(Event::from_mio_token(fd::SIGNAL_TOKEN), Event::SignalReady);
    assert_eq!(fd::POLL_INTERVAL_MILLIS, 100);
    assert_eq!(fd::EVENT_CAPACITY, 2);
}

#[test]
fn event_errors_say_what_failed() {
    let failure = || IoError::new(IoErrorKind::Other, String::from("disk on fire"));
    assert_eq!(
        ProcessEventsForFdError::Read(failure()).message(),
        "Failed to read data: disk on fire"
    );
    assert_eq!(
        ProcessEventsForFdError::Write(failure()).message(),
        "Failed to write data: disk on fire"
    );
    assert_eq!(
        ProcessEventsForFdError::Log(failure()).message(),
        "Failed to log data: disk on fire"
    );
    assert_eq!(
        ProcessFdError::Poll(failure()).message("stdin"),
        "Error polling for events"
    );
    assert_eq!(
        ProcessFdError::Event(ProcessEventsForFdError::Read(failure())).message("stdout"),
        "Error processing event for stream stdout"
    );
    assert_eq!(
        fd::log_failure_message("stderr", &failure()),
        "Error writing to stderr log, disabling logging: disk on fire"
    );
}

#[test]
fn unexpected_completion_changes_nothing() {
    let written = Completion::Written(Ok(()));
    assert!(matches!(
        fd::inner_fd_event_readable(Drain::Reading, written, true),
        Drain::Reading
    ));
    let read = Completion::Read(Ok(vec![1, 2, 3]));
    match fd::inner_fd_event_readable(Drain::Writing(vec![9]), read, true) {
        Drain::Writing(chunk) => assert_eq!(chunk, vec![9]),
        other => panic!("unexpected drain {other:?}"),
    }
    let finished = Drain::Finished(Ok(ProcessEventsForFdSuccess::Eof));
    assert!(matches!(
        fd::inner_fd_event_readable(finished, Completion::Written(Ok(())), false),
        Drain::Finished(Ok(ProcessEventsForFdSuccess::Eof))
    ));
}

#[test]
fn small_buffer_keeps_the_log_whole() {
    let test_data = "hello world this is a longer string\n";
    let src = PiecewiseRead {
        data: test_data.as_bytes().to_vec(),
        position: 0,
        block_between: false,
        blocked_last: false,
    };
    let dst = Rc::new(RefCell::new(MockWrite {
        responses: vec![],
        current: 0,
        written_data: vec![],
    }));
    let log_file = Rc::new(RefCell::new(MockWrite {
        responses: vec![],
        current: 0,
        written_data: vec![],
    }));

    process_fd(
        src,
        RefCellWriter(dst.clone()),
        16,
        Some(RefCellWriter(log_file.clone())),
        "stdin",
        vec![vec![Event::FdReady]],
    )
    .unwrap();

    assert_eq!(
        String::from_utf8(log_file.borrow().written_data.concat()).unwrap(),
        test_data
    );
    assert_eq!(
        String::from_utf8(dst.borrow().written_data.concat()).unwrap(),
        test_data
    );
    // 36 bytes through a buffer of 16 make three chunks.
    let chunks: Vec<usize> = dst.borrow().written_data.iter().map(Vec::len).collect();
    assert_eq!(chunks, vec![16, 16, 4]);
}

#[test]
fn chunks_reach_the_sink_in_order_across_wake_ups() {
    let data: Vec<u8> = (0..100).collect();
    let src = PiecewiseRead {
        data: data.clone(),
        position: 0,
        block_between: true,
        blocked_last: false,
    };
    let dst = Rc::new(RefCell::new(MockWrite {
        responses: vec![],
        current: 0,
        written_data: vec![],
    }));
    let log_file = Rc::new(RefCell::new(MockWrite {
        responses: vec![],
        current: 0,
        written_data: vec![],
    }));

    process_fd(
        src,
        RefCellWriter(dst.clone()),
        7,
        Some(RefCellWriter(log_file.clone())),
        "stdout",
        vec![vec![Event::FdReady], vec![], vec![Event::FdReady]],
    )
    .unwrap();

    assert_eq!(dst.borrow().written_data.concat(), data);
    assert_eq!(log_file.borrow().written_data.concat(), data);
}

#[test]
fn peer_closed_ends_the_stream_without_further_writes() {
    let src = MockRead {
        responses: vec![Ok(5), Ok(3), Ok(4)],
        current: 0,
    };
    let dst = Rc::new(RefCell::new(MockWrite {
        responses: vec![
            Ok(()),
            Err(Error::new(ErrorKind::BrokenPipe, "broken pipe")),
        ],
        current: 0,
        written_data: vec![],
    }));
    let log_file = Rc::new(RefCell::new(MockWrite {
        responses: vec![],
        current: 0,
        written_data: vec![],
    }));

    let result = process_fd(
        src,
        RefCellWriter(dst.clone()),
        1024,
        Some(RefCellWriter(log_file.clone())),
        "stdout",
        vec![vec![Event::FdReady]],
    );

    assert_eq!(result, Ok(()));
    // The second write was refused; no third was attempted.
    assert_eq!(dst.borrow().written_data.len(), 2);
    // The refused chunk did not go to the log.
    assert_eq!(log_file.borrow().written_data.len(), 1);
    assert_eq!(log_file.borrow().written_data[0].len(), 5);
}

#[test]
fn log_failure_does_not_interrupt_forwarding() {
    let data: Vec<u8> = (0..40).collect();
    let src = PiecewiseRead {
        data: data.clone(),
        position: 0,
        block_between: false,
        blocked_last: false,
    };
    let dst = Rc::new(RefCell::new(MockWrite {
        responses: vec![],
        current: 0,
        written_data: vec![],
    }));
    let log_file = Rc::new(RefCell::new(FailingLog {
        good_writes: 2,
        written: vec![],
        attempts: 0,
    }));

    let result = process_fd(
        src,
        RefCellWriter(dst.clone()),
        8,
        Some(SharedLog(log_file.clone())),
        "stdin",
        vec![vec![Event::FdReady]],
    );

    assert_eq!(result, Ok(()));
    // The sink got everything.
    assert_eq!(dst.borrow().written_data.concat(), data);
    // The log got what it took before its third write failed, and was left
    // alone afterwards.
    assert_eq!(log_file.borrow().written, data[..16].to_vec());
    assert_eq!(log_file.borrow().attempts, 3);
}

#[test]
fn data_is_forwarded_before_shutdown() {
    let src = MockRead {
        responses: vec![
            Ok(5),
            Ok(3),
            Err(Error::new(ErrorKind::WouldBlock, "would block")),
            Ok(7),
        ],
        current: 0,
    };
    let dst = Rc::new(RefCell::new(MockWrite {
        responses: vec![],
        current: 0,
        written_data: vec![],
    }));
    let log_file: Option<MockWrite> = None;

    let result = process_fd(
        src,
        RefCellWriter(dst.clone()),
        1024,
        log_file,
        "stdin",
        vec![vec![Event::SignalReady, Event::FdReady]],
    );

    assert_eq!(result, Ok(()));
    // What was ready was forwarded; the loop then stopped for shutdown and
    // did not come back for the rest.
    assert_eq!(dst.borrow().written_data.len(), 2);
    assert_eq!(dst.borrow().written_data[0].len(), 5);
    assert_eq!(dst.borrow().written_data[1].len(), 3);
}

#[test]
fn lone_shutdown_stops_without_reading() {
    let src = MockRead {
        responses: vec![Ok(5)],
        current: 0,
    };
    let dst = Rc::new(RefCell::new(MockWrite {
        responses: vec![],
        current: 0,
        written_data: vec![],
    }));
    let log_file: Option<MockWrite> = None;

    let result = process_fd(
        src,
        RefCellWriter(dst.clone()),
        1024,
        log_file,
        "stdin",
        vec![vec![Event::SignalReady]],
    );

    assert_eq!(result, Ok(()));
    assert_eq!(dst.borrow().written_data.len(), 0);
}

#[test]
fn failures_of_source_and_sink_end_the_stream_with_an_error() {
    let src = MockRead {
        responses: vec![Err(Error::other("read error"))],
        current: 0,
    };
    let dst = MockWrite {
        responses: vec![],
        current: 0,
        written_data: vec![],
    };
    let log_file: Option<MockWrite> = None;
    assert_eq!(
        process_fd(src, dst, 1024, log_file, "stdout", vec![]),
        Err(String::from("Error processing event for stream stdout"))
    );

    let src = MockRead {
        responses: vec![Ok(5)],
        current: 0,
    };
    let dst = MockWrite {
        responses: vec![Err(Error::other("write error"))],
        current: 0,
        written_data: vec![],
    };
    let log_file: Option<MockWrite> = None;
    assert_eq!(
        process_fd(src, dst, 1024, log_file, "stderr", vec![]),
        Err(String::from("Error processing event for stream stderr"))
    );
}

#[test]
fn interrupted_wait_goes_on_and_failed_wait_gives_up() {
    let interrupted = IoError::new(IoErrorKind::Interrupted, String::from("interrupted"));
    let (copier, report) = fd::process_fd(
        Copier::new(false),
        Input::Polled {
            result: Err(interrupted),
            events: vec![],
        },
    );
    assert!(report.is_none());
    assert_eq!(copier.request(), Request::Read);

    let failed = IoError::new(IoErrorKind::Other, String::from("bad descriptor"));
    let (copier, report) = fd::process_fd(
        Copier::new(false),
        Input::Polled {
            result: Err(failed),
            events: vec![],
        },
    );
    assert!(report.is_none());
    assert_eq!(copier.request(), Request::Exit);
    match copier.stage {
        Stage::Exited(Err(e)) => assert_eq!(e.message("stdin"), "Error polling for events"),
        other => panic!("unexpected stage {other:?}"),
    }
}

#[test]
fn zero_sized_buffer_reads_as_the_end_of_the_source() {
    let src = PiecewiseRead {
        data: vec![1, 2, 3],
        position: 0,
        block_between: false,
        blocked_last: false,
    };
    let dst = Rc::new(RefCell::new(MockWrite {
        responses: vec![],
        current: 0,
        written_data: vec![],
    }));
    let log_file: Option<MockWrite> = None;

    let result = process_fd(src, RefCellWriter(dst.clone()), 0, log_file, "stdin", vec![]);

    assert_eq!(result, Ok(()));
    assert_eq!(dst.borrow().written_data.len(), 0);
}

#[test]
fn log_failure_with_shutdown_due_still_forwards_what_is_readable() {
    let src = MockRead {
        responses: vec![
            Ok(5),
            Ok(3),
            Err(Error::new(ErrorKind::WouldBlock, "would block")),
            Ok(7),
        ],
        current: 0,
    };
    let dst = Rc::new(RefCell::new(MockWrite {
        responses: vec![],
        current: 0,
        written_data: vec![],
    }));
    let log_file = Rc::new(RefCell::new(FailingLog {
        good_writes: 0,
        written: vec![],
        attempts: 0,
    }));

    let result = process_fd(
        src,
        RefCellWriter(dst.clone()),
        1024,
        Some(SharedLog(log_file.clone())),
        "stdin",
        vec![vec![Event::FdReady, Event::SignalReady]],
    );

    assert_eq!(result, Ok(()));
    // Both chunks that were readable reached the sink before the stream
    // stopped for shutdown; what came later was not asked for.
    assert_eq!(dst.borrow().written_data.len(), 2);
    assert_eq!(dst.borrow().written_data[0].len(), 5);
    assert_eq!(dst.borrow().written_data[1].len(), 3);
    // The log was tried once, took nothing, and was left alone.
    assert_eq!(log_file.borrow().attempts, 1);
    assert!(log_file.borrow().written.is_empty());
}

#[test]
fn log_failure_is_answered_by_the_next_read() {
    let copier = Copier::new(true);
    let (copier, _) = fd::process_fd(
        copier,
        Input::Polled {
            result: Ok(()),
            events: vec![Event::SignalReady, Event::FdReady],
        },
    );
    let (copier, _) = fd::process_fd(copier, Input::Completed(Completion::Read(Ok(vec![1, 2]))));
    let (copier, _) = fd::process_fd(copier, Input::Completed(Completion::Written(Ok(()))));
    assert_eq!(copier.request(), Request::WriteLog);
    let failure = IoError::new(IoErrorKind::Other, String::from("log is full"));
    let (copier, report) =
        fd::process_fd(copier, Input::Completed(Completion::Written(Err(failure))));
    assert_eq!(report.unwrap().message, "log is full");
    assert!(!copier.log_attached);
    assert_eq!(copier.request(), Request::Read);

    // Acting on the outcomes of a wake-up by hand: a failed log never ends
    // the loop, also with a shutdown behind it.
    let failure = IoError::new(IoErrorKind::Other, String::from("log is full"));
    let (copier, report) = fd::conclude_cycle(
        true,
        vec![
            Err(ProcessEventsForFdError::Log(failure)),
            Ok(ProcessEventsForFdSuccess::Signal),
        ],
    );
    assert!(report.is_some());
    assert!(!copier.log_attached);
    assert_eq!(copier.request(), Request::Poll);
}

use pwrite_stream::destination::{Appendable, IoError, MemoryBuffer, WriteSeek};
use pwrite_stream::outcome::SessionOutcome;
use pwrite_stream::session::StreamSession;

/// A file-like destination that counts the calls it gets and refuses the
/// n-th write (counted from 1), the first flush, or the position query.
struct Faulty {
    data: Vec<u8>,
    pos: u64,
    calls: usize,
    writes: usize,
    fail_write: Option<usize>,
    fail_flush: bool,
    seekable: bool,
}

impl Faulty {
    fn new() -> Self {
        Faulty {
            data: Vec::new(),
            pos: 0,
            calls: 0,
            writes: 0,
            fail_write: None,
            fail_flush: false,
            seekable: true,
        }
    }
}

impl Appendable for Faulty {
    fn write_all(&mut self, buf: &[u8]) -> Result<(), IoError> {
        self.calls += 1;
        self.writes += 1;
        if self.fail_write == Some(self.writes) {
            return Err(IoError { message: "disk full".to_string() });
        }
        let start = self.pos as usize;
        if self.data.len() < start + buf.len() {
            self.data.resize(start + buf.len(), 0);
        }
        self.data[start..start + buf.len()].copy_from_slice(buf);
        self.pos += buf.len() as u64;
        Ok(())
    }

    fn flush(&mut self) -> Result<(), IoError> {
        self.calls += 1;
        if self.fail_flush {
            return Err(IoError { message: "flush refused".to_string() });
        }
        Ok(())
    }
}

impl WriteSeek for Faulty {
    fn stream_position(&mut self) -> Result<u64, IoError> {
        self.calls += 1;
        if !self.seekable {
            return Err(IoError { message: "illegal seek".to_string() });
        }
        Ok(self.pos)
    }

    fn seek_to(&mut self, offset: u64) -> Result<(), IoError> {
        self.calls += 1;
        if !self.seekable {
            return Err(IoError { message: "illegal seek".to_string() });
        }
        self.pos = offset;
        Ok(())
    }
}

fn begin<W: WriteSeek>(destination: W) -> StreamSession<W> {
    match StreamSession::begin(destination) {
        Ok(session) => session,
        Err((outcome, _)) => panic!("the session did not begin: {:?}", outcome),
    }
}

#[test]
fn session_emits_object_with_a_backpatch() {
    let mut session = begin(MemoryBuffer::new());
    assert!(!session.has_failed());
    assert_eq!(session.cursor(), 0);
    assert_eq!(session.write(b"ABCD"), 0);
    assert_eq!(session.cursor(), 4);
    assert_eq!(session.write_at(b"XY", 1), 0);
    assert_eq!(session.cursor(), 4);
    assert_eq!(session.write(b"E"), 0);
    assert_eq!(session.cursor(), 5);
    assert_eq!(session.flush(), 0);
    let (outcome, buffer) = session.finish(0, None);
    assert_eq!(outcome, SessionOutcome::Success);
    assert!(outcome.is_success());
    assert_eq!(buffer.into_bytes(), b"AXYDE".to_vec());
}

#[test]
fn session_follows_a_prefix_already_written() {
    let mut buffer = MemoryBuffer::from_vec(b"CONTAINER".to_vec());
    buffer.seek_to(9).unwrap();
    let mut session = begin(buffer);
    assert_eq!(session.cursor(), 9);
    assert_eq!(session.write(b"-section"), 0);
    let (outcome, buffer) = session.finish(0, None);
    assert_eq!(outcome, SessionOutcome::Success);
    assert_eq!(buffer.into_bytes(), b"CONTAINER-section".to_vec());
}

#[test]
fn session_with_no_callbacks_succeeds_and_writes_nothing() {
    let session = begin(MemoryBuffer::new());
    let (outcome, buffer) = session.finish(0, None);
    assert_eq!(outcome, SessionOutcome::Success);
    assert!(buffer.into_bytes().is_empty());
}

#[test]
fn session_seek_moves_the_cursor() {
    let mut session = begin(MemoryBuffer::new());
    assert_eq!(session.write(b"ABCDEF"), 0);
    assert_eq!(session.seek(2), 0);
    assert_eq!(session.cursor(), 2);
    assert_eq!(session.write(b"xy"), 0);
    let (outcome, buffer) = session.finish(0, None);
    assert_eq!(outcome, SessionOutcome::Success);
    assert_eq!(buffer.into_bytes(), b"ABxyEF".to_vec());
}

#[test]
fn unseekable_destination_is_rejected_before_the_backend_runs() {
    let mut destination = Faulty::new();
    destination.seekable = false;
    match StreamSession::begin(destination) {
        Ok(_) => panic!("an unseekable destination was accepted"),
        Err((outcome, destination)) => {
            assert_eq!(outcome, SessionOutcome::ProtocolMisuse("illegal seek".to_string()));
            assert_eq!(outcome.into_result(), Err("illegal seek".to_string()));
            assert_eq!(destination.calls, 1);
            assert_eq!(destination.writes, 0);
        },
    }
}

#[test]
fn failed_write_fails_the_session_and_stops_the_callbacks() {
    let mut destination = Faulty::new();
    destination.fail_write = Some(3);
    let mut session = begin(destination);
    assert_eq!(session.write(b"aa"), 0);
    assert_eq!(session.write(b"bb"), 0);
    assert!(!session.has_failed());
    assert_eq!(session.write(b"cc"), 1);
    assert!(session.has_failed());
    assert_eq!(session.cursor(), 4);
    assert_eq!(session.write(b"dd"), 1);
    assert_eq!(session.write_at(b"ee", 0), 1);
    assert_eq!(session.seek(0), 1);
    assert_eq!(session.flush(), 1);
    assert_eq!(session.cursor(), 4);
    let (outcome, destination) = session.finish(1, None);
    assert_eq!(outcome, SessionOutcome::IoFailure);
    assert_eq!(destination.writes, 3);
    // the position query, then a seek and a write for each of the three appends
    assert_eq!(destination.calls, 7);
    assert_eq!(destination.data, b"aabb".to_vec());
}

#[test]
fn failed_callback_is_not_a_success_whatever_the_backend_returns() {
    let mut destination = Faulty::new();
    destination.fail_write = Some(1);
    let mut session = begin(destination);
    assert_eq!(session.write(b"aa"), 1);
    let (outcome, _) = session.finish(0, None);
    assert_eq!(outcome, SessionOutcome::IoFailure);
    assert!(!outcome.is_success());
}

#[test]
fn failed_flush_fails_the_session() {
    let mut destination = Faulty::new();
    destination.fail_flush = true;
    let mut session = begin(destination);
    assert_eq!(session.write(b"aa"), 0);
    assert_eq!(session.flush(), 1);
    assert!(session.has_failed());
    let (outcome, destination) = session.finish(1, None);
    assert_eq!(outcome, SessionOutcome::IoFailure);
    assert_eq!(destination.data, b"aa".to_vec());
}

#[test]
fn backend_diagnostic_is_handed_to_the_caller() {
    let mut session = begin(MemoryBuffer::new());
    assert_eq!(session.write(b"partial"), 0);
    let mut diagnostic = b"TargetMachine can't emit a file of this type".to_vec();
    let (outcome, _) = session.finish(1, Some(&diagnostic));
    // the outcome owns its copy: what the backend does with its memory no longer matters
    diagnostic.iter_mut().for_each(|b| *b = b'#');
    drop(diagnostic);
    assert_eq!(
        outcome,
        SessionOutcome::BackendFailure("TargetMachine can't emit a file of this type".to_string())
    );
    assert_eq!(
        outcome.into_result(),
        Err("TargetMachine can't emit a file of this type".to_string())
    );
}

#[test]
fn backend_failure_without_diagnostic_is_an_io_failure() {
    let session = begin(MemoryBuffer::new());
    let (outcome, _) = session.finish(-3, None);
    assert_eq!(outcome, SessionOutcome::IoFailure);
    assert_eq!(outcome.into_result(), Err("error while writing to pwrite stream".to_string()));
}

#[test]
fn backend_diagnostic_wins_over_a_failed_callback() {
    let mut destination = Faulty::new();
    destination.fail_write = Some(1);
    let mut session = begin(destination);
    assert_eq!(session.write(b"aa"), 1);
    let (outcome, _) = session.finish(1, Some(b"IO failure on output stream"));
    assert_eq!(outcome, SessionOutcome::BackendFailure("IO failure on output stream".to_string()));
}

#[test]
fn diagnostic_of_a_successful_backend_is_ignored() {
    let session = begin(MemoryBuffer::new());
    let (outcome, _) = session.finish(0, Some(b"a warning"));
    assert_eq!(outcome, SessionOutcome::Success);
}

#[test]
fn diagnostic_that_is_not_utf8_is_copied_with_replacements() {
    let session = begin(MemoryBuffer::new());
    let (outcome, _) = session.finish(2, Some(b"caf\xC3\xA9 \xFF!"));
    assert_eq!(outcome, SessionOutcome::BackendFailure("caf\u{e9} \u{fffd}!".to_string()));
}

#[test]
fn empty_diagnostic_is_still_a_backend_failure() {
    let session = begin(MemoryBuffer::new());
    let (outcome, _) = session.finish(1, Some(b""));
    assert_eq!(outcome, SessionOutcome::BackendFailure(String::new()));
    assert_eq!(outcome.into_result(), Err(String::new()));
}

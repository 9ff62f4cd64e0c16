//! One emission on the random-access path.
//!
//! Before it begins there is only a destination. [`StreamSession::begin`]
//! makes the session, which is then active: it answers the backend's
//! callbacks while the backend runs. [`StreamSession::finish`] ends it when
//! the backend has returned, and gives the outcome, a success or a failure.
//! Ending consumes the session, so it reports once, and the next emission
//! needs a new one.

use crate::destination::WriteSeek;
use crate::model::{answered, follows, Request, SessionModel, StreamOp};
use crate::outcome::{lossy_text, settle, SessionOutcome};
use crate::sink::{
    rust_shim_flush_cb, rust_shim_pwrite_cb, rust_shim_seek_cb, rust_shim_write_cb, PwriteSink,
};
use vstd::prelude::*;

verus! {

/// The state of one emission of object code or assembly.
pub struct StreamSession<W: WriteSeek> {
    sink: PwriteSink<W>,
    failed: bool,
}

impl<W: WriteSeek> View for StreamSession<W> {
    type V = SessionModel;

    closed spec fn view(&self) -> SessionModel {
        SessionModel { sink: self.sink@, failed: self.failed }
    }
}

impl<W: WriteSeek> StreamSession<W> {
    /// Begins a session around `destination`, with the append cursor at the
    /// destination's current position.
    ///
    /// A destination that does not report its position cannot serve this
    /// path: the session then does not begin, the backend is never started,
    /// and the destination comes back with the outcome.
    pub fn begin(destination: W) -> (r: Result<Self, (SessionOutcome, W)>)
        ensures
            r is Ok ==> !r->Ok_0@.failed,
            r is Ok ==> follows(
                destination.model(),
                r->Ok_0@.sink.destination,
                Request::Position,
                true,
            ),
            r is Ok ==> r->Ok_0@.sink.aligned(),
            r is Err ==> r->Err_0.0 is ProtocolMisuse,
            r is Err ==> follows(destination.model(), r->Err_0.1.model(), Request::Position, false),
    {
        match PwriteSink::new(destination) {
            Ok(sink) => Ok(StreamSession { sink, failed: false }),
            Err((e, destination)) => Err((SessionOutcome::ProtocolMisuse(e.message), destination)),
        }
    }

    /// Whether a callback of this session has failed.
    pub fn has_failed(&self) -> (b: bool)
        ensures
            b == self@.failed,
    {
        self.failed
    }

    /// Where the backend's next sequential write lands.
    pub fn cursor(&self) -> (pos: u64)
        ensures
            pos == self@.sink.cursor,
    {
        self.sink.pos
    }

    /// The backend's sequential write of `bytes`.
    pub fn write(&mut self, bytes: &[u8]) -> (status: i32)
        ensures
            answered(old(self)@, final(self)@, (StreamOp::Write { bytes: bytes@ }), status),
            old(self)@.failed ==> *final(self) == *old(self),
    {
        if self.failed {
            return 1;
        }
        let status = rust_shim_write_cb(bytes, &mut self.sink);
        self.failed = status != 0;
        status
    }

    /// The backend's random-access write of `bytes` at `offset`.
    pub fn write_at(&mut self, bytes: &[u8], offset: u64) -> (status: i32)
        ensures
            answered(
                old(self)@,
                final(self)@,
                (StreamOp::WriteAt { bytes: bytes@, offset }),
                status,
            ),
            old(self)@.failed ==> *final(self) == *old(self),
    {
        if self.failed {
            return 1;
        }
        let status = rust_shim_pwrite_cb(bytes, offset, &mut self.sink);
        self.failed = status != 0;
        status
    }

    /// The backend's move of its write pointer to `offset`.
    pub fn seek(&mut self, offset: u64) -> (status: i32)
        ensures
            answered(old(self)@, final(self)@, (StreamOp::Seek { offset }), status),
            old(self)@.failed ==> *final(self) == *old(self),
    {
        if self.failed {
            return 1;
        }
        let status = rust_shim_seek_cb(offset, &mut self.sink);
        self.failed = status != 0;
        status
    }

    /// The backend's flush.
    pub fn flush(&mut self) -> (status: i32)
        ensures
            answered(old(self)@, final(self)@, StreamOp::Flush, status),
            old(self)@.failed ==> *final(self) == *old(self),
    {
        if self.failed {
            return 1;
        }
        let status = rust_shim_flush_cb(&mut self.sink);
        self.failed = status != 0;
        status
    }

    /// Ends the session once the backend has returned `status`, with the
    /// bytes of the diagnostic it left, if any. Gives the outcome and the
    /// destination back.
    ///
    /// The diagnostic is copied into the outcome, so the backend's memory
    /// can be released as soon as this returns.
    pub fn finish(self, status: i32, diagnostic: Option<&[u8]>) -> (r: (SessionOutcome, W))
        ensures
            status == 0 || diagnostic is None ==> r.0 == settle(self@.failed, status, None),
            status != 0 && diagnostic is Some ==> r.0 is BackendFailure && r.0->BackendFailure_0@
                == lossy_text(diagnostic->0@),
            r.0 is Success <==> status == 0 && !self@.failed,
            r.1.model() == self@.sink.destination,
    {
        let outcome = SessionOutcome::from_raw(self.failed, status, diagnostic);
        (outcome, self.sink.into_inner())
    }
}

} // verus!

//! One emission on the forward-only path.
//!
//! Bitcode and textual IR are written strictly in order, so the destination
//! needs no seek and there is no cursor to keep: every chunk the backend
//! offers is passed on as it comes. A session is made by
//! [`ForwardSession::begin`], answers the backend's callbacks, and is
//! consumed by [`ForwardSession::finish`], which gives the outcome.

use crate::destination::Appendable;
use crate::model::{forwarded, ForwardModel, Request};
use crate::outcome::{settle_forward, SessionOutcome};
use vstd::prelude::*;

verus! {

/// The encodings the forward-only path emits.
#[derive(Debug, Clone, Copy, PartialEq, Eq)]
pub enum Encoding {
    /// The compact binary form of the intermediate representation.
    Bitcode,
    /// The textual form of the intermediate representation.
    TextIr,
}

impl Encoding {
    /// The message for a failed emission in this encoding.
    pub fn failure_message(&self) -> (message: String)
        ensures
            *self == Encoding::Bitcode ==> message@ == "bitcode streaming failed"@,
            *self == Encoding::TextIr ==> message@ == "IR streaming failed"@,
    {
        match self {
            Encoding::Bitcode => "bitcode streaming failed".to_owned(),
            Encoding::TextIr => "IR streaming failed".to_owned(),
        }
    }
}

/// The state of one emission of bitcode or textual IR.
pub struct ForwardSession<W: Appendable> {
    writer: W,
    failed: bool,
    encoding: Encoding,
}

impl<W: Appendable> View for ForwardSession<W> {
    type V = ForwardModel;

    closed spec fn view(&self) -> ForwardModel {
        ForwardModel { destination: self.writer.model(), failed: self.failed }
    }
}

impl<W: Appendable> ForwardSession<W> {
    /// What the session emits.
    pub closed spec fn spec_encoding(&self) -> Encoding {
        self.encoding
    }

    /// Begins a session that emits `encoding` into `destination`. The
    /// destination is not touched before the backend's first callback.
    pub fn begin(encoding: Encoding, destination: W) -> (session: Self)
        ensures
            session@ == (ForwardModel { destination: destination.model(), failed: false }),
            session.spec_encoding() == encoding,
    {
        ForwardSession { writer: destination, failed: false, encoding }
    }

    /// What the session emits.
    pub fn encoding(&self) -> (encoding: Encoding)
        ensures
            encoding == self.spec_encoding(),
    {
        self.encoding
    }

    /// Whether a callback of this session has failed.
    pub fn has_failed(&self) -> (b: bool)
        ensures
            b == self@.failed,
    {
        self.failed
    }

    /// The backend's write of `bytes`.
    pub fn write(&mut self, bytes: &[u8]) -> (status: i32)
        ensures
            forwarded(old(self)@, final(self)@, (Request::Write { bytes: bytes@ }), status),
            final(self).spec_encoding() == old(self).spec_encoding(),
            old(self)@.failed ==> *final(self) == *old(self),
    {
        if self.failed {
            return 1;
        }
        match self.writer.write_all(bytes) {
            Ok(_) => 0,
            Err(_) => {
                self.failed = true;
                1
            },
        }
    }

    /// The backend's flush.
    pub fn flush(&mut self) -> (status: i32)
        ensures
            forwarded(old(self)@, final(self)@, Request::Flush, status),
            final(self).spec_encoding() == old(self).spec_encoding(),
            old(self)@.failed ==> *final(self) == *old(self),
    {
        if self.failed {
            return 1;
        }
        match self.writer.flush() {
            Ok(_) => 0,
            Err(_) => {
                self.failed = true;
                1
            },
        }
    }

    /// Ends the session once the backend has returned `status`. Gives the
    /// outcome and the destination back.
    pub fn finish(self, status: i32) -> (r: (SessionOutcome, W))
        ensures
            r.0 == settle_forward(self@.failed, status),
            r.0 is Success <==> status == 0 && !self@.failed,
            r.1.model() == self@.destination,
    {
        let outcome = if status != 0 || self.failed {
            SessionOutcome::IoFailure
        } else {
            SessionOutcome::Success
        };
        (outcome, self.writer)
    }
}

} // verus!

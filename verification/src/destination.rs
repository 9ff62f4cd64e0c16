//! Destinations: what a stream can be emitted into.
//!
//! Two capabilities are distinguished: [`Appendable`] (sequential write and
//! flush) and [`WriteSeek`] (in addition, position query and seek).

use crate::model::{follows, overlay, DestinationModel, Exchange, Request};
use vstd::prelude::*;

verus! {

/// A failed destination operation, with the destination's own description of it.
#[derive(Debug)]
pub struct IoError {
    pub message: String,
}

/// A destination that accepts sequential writes and can be flushed.
///
/// A destination written in verified code says what it holds and which
/// requests it accepts through [`Appendable::model`], and every method then
/// answers for whether it succeeds and for how the destination changes. One
/// written elsewhere keeps the default, says nothing of itself, and nothing
/// is assumed of it.
pub trait Appendable {
    /// What the destination says of itself; `None` where it says nothing.
    open spec fn model(&self) -> Option<DestinationModel> {
        None
    }

    /// Writes all of `buf` at the current position and moves the position
    /// past it. A write that is only partly accepted is a failure.
    fn write_all(&mut self, buf: &[u8]) -> (r: Result<(), IoError>)
        ensures
            follows(
                old(self).model(),
                final(self).model(),
                (Request::Write { bytes: buf@ }),
                r is Ok,
            ),
    ;

    /// Pushes buffered bytes out.
    fn flush(&mut self) -> (r: Result<(), IoError>)
        ensures
            follows(old(self).model(), final(self).model(), Request::Flush, r is Ok),
    ;
}

/// A destination that, besides sequential writes, can report and move its position.
pub trait WriteSeek: Appendable {
    /// Reports the current position without moving it.
    fn stream_position(&mut self) -> (r: Result<u64, IoError>)
        ensures
            follows(old(self).model(), final(self).model(), Request::Position, r is Ok),
            r is Ok && old(self).model() is Some ==> r->Ok_0 == old(self).model()->0.position,
    ;

    /// Moves the position to `offset` bytes from the start. The contents do
    /// not change, also when `offset` lies beyond their end.
    fn seek_to(&mut self, offset: u64) -> (r: Result<(), IoError>)
        ensures
            follows(
                old(self).model(),
                final(self).model(),
                (Request::Seek { offset }),
                r is Ok,
            ),
    ;
}

/// An in-memory destination: a growable byte buffer with a cursor.
///
/// Seeking, flushing and asking for the position never fail. A write fails
/// only where it would end beyond the largest offset the buffer can address,
/// and then leaves the buffer as it was.
pub struct MemoryBuffer {
    data: Vec<u8>,
    pos: u64,
    history: Ghost<Seq<Exchange>>,
}

impl MemoryBuffer {
    /// The bytes held.
    pub closed spec fn contents(&self) -> Seq<u8> {
        self.data@
    }

    /// The offset at which the next write lands.
    pub closed spec fn position(&self) -> nat {
        self.pos as nat
    }

    /// Every request made of the buffer so far.
    pub closed spec fn history(&self) -> Seq<Exchange> {
        self.history@
    }

    /// Whether a write of `len` bytes at the current position is accepted.
    pub open spec fn accepts(&self, len: nat) -> bool {
        len == 0 || self.position() + len <= usize::MAX
    }

    /// What a buffer accepts: everything but a write that would end beyond
    /// the largest offset it can address.
    pub open spec fn policy() -> spec_fn(Seq<u8>, nat, Seq<Exchange>, Request) -> bool {
        |contents: Seq<u8>, position: nat, history: Seq<Exchange>, request: Request|
            match request {
                Request::Write { bytes } => bytes.len() == 0 || position + bytes.len()
                    <= usize::MAX,
                _ => true,
            }
    }

    /// An empty buffer with its cursor at offset 0.
    pub fn new() -> (buffer: MemoryBuffer)
        ensures
            buffer.contents() == Seq::<u8>::empty(),
            buffer.position() == 0,
            buffer.history() == Seq::<Exchange>::empty(),
    {
        MemoryBuffer { data: Vec::new(), pos: 0, history: Ghost(Seq::empty()) }
    }

    /// A buffer that already holds `data`, with its cursor at offset 0.
    pub fn from_vec(data: Vec<u8>) -> (buffer: MemoryBuffer)
        ensures
            buffer.contents() == data@,
            buffer.position() == 0,
            buffer.history() == Seq::<Exchange>::empty(),
    {
        MemoryBuffer { data, pos: 0, history: Ghost(Seq::empty()) }
    }

    /// The bytes held so far.
    pub fn as_slice(&self) -> (bytes: &[u8])
        ensures
            bytes@ == self.contents(),
    {
        self.data.as_slice()
    }

    /// Gives up the buffer for the bytes it holds.
    pub fn into_bytes(self) -> (bytes: Vec<u8>)
        ensures
            bytes@ == self.contents(),
    {
        self.data
    }
}

impl Appendable for MemoryBuffer {
    open spec fn model(&self) -> Option<DestinationModel> {
        Some(
            DestinationModel {
                contents: self.contents(),
                position: self.position(),
                history: self.history(),
                policy: MemoryBuffer::policy(),
            },
        )
    }

    fn write_all(&mut self, buf: &[u8]) -> (r: Result<(), IoError>)
        ensures
            r is Ok <==> old(self).accepts(buf@.len()),
            r is Err ==> final(self).contents() == old(self).contents() && final(self).position()
                == old(self).position(),
            r is Err ==> r->Err_0.message@ == "write ends beyond the addressable range"@,
    {
        let n: usize = buf.len();
        let ghost request = Request::Write { bytes: buf@ };
        if n == 0 {
            proof {
                self.history@ = self.history@.push(Exchange { request, accepted: true });
            }
            return Ok(());
        }
        if self.pos > (usize::MAX - n) as u64 {
            proof {
                self.history@ = self.history@.push(Exchange { request, accepted: false });
            }
            return Err(IoError { message: "write ends beyond the addressable range".to_owned() });
        }
        let start: usize = self.pos as usize;
        let ghost before = self.data@;
        while self.data.len() < start
            invariant
                self.pos == start,
                self.history == old(self).history,
                self.data@.len() <= start || self.data@ == before,
                self.data@.len() >= before.len(),
                forall|i: int| 0 <= i < before.len() ==> self.data@[i] == before[i],
                forall|i: int| before.len() <= i < self.data@.len() ==> self.data@[i] == 0u8,
            decreases start - self.data.len(),
        {
            self.data.push(0u8);
        }
        let mut i: usize = 0;
        while i < n
            invariant
                i <= n,
                n == buf@.len(),
                self.pos == start,
                self.history == old(self).history,
                start + n <= usize::MAX,
                self.data@.len() >= start + i,
                self.data@.len() >= before.len(),
                self.data@.len() == before.len() || self.data@.len() == start + i,
                forall|j: int| 0 <= j < start && j < before.len() ==> self.data@[j] == before[j],
                forall|j: int| before.len() <= j < start ==> self.data@[j] == 0u8,
                forall|j: int| start <= j < start + i ==> self.data@[j] == buf@[j - start],
                forall|j: int|
                    start + i <= j < self.data@.len() ==> j < before.len() && self.data@[j]
                        == before[j],
            decreases n - i,
        {
            if start + i < self.data.len() {
                self.data.set(start + i, buf[i]);
            } else {
                self.data.push(buf[i]);
            }
            i = i + 1;
        }
        self.pos = self.pos + n as u64;
        proof {
            self.history@ = self.history@.push(Exchange { request, accepted: true });
            assert(self.data@ =~= overlay(before, start as nat, buf@));
        }
        Ok(())
    }

    fn flush(&mut self) -> (r: Result<(), IoError>)
        ensures
            r is Ok,
    {
        proof {
            self.history@ = self.history@.push(
                Exchange { request: Request::Flush, accepted: true },
            );
        }
        Ok(())
    }
}

impl WriteSeek for MemoryBuffer {
    fn stream_position(&mut self) -> (r: Result<u64, IoError>)
        ensures
            r is Ok,
    {
        proof {
            self.history@ = self.history@.push(
                Exchange { request: Request::Position, accepted: true },
            );
        }
        Ok(self.pos)
    }

    fn seek_to(&mut self, offset: u64) -> (r: Result<(), IoError>)
        ensures
            r is Ok,
    {
        self.pos = offset;
        proof {
            self.history@ = self.history@.push(
                Exchange { request: Request::Seek { offset }, accepted: true },
            );
        }
        Ok(())
    }
}

} // verus!

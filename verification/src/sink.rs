//! The destination adapter and the callbacks through which a backend drives it.

use crate::destination::{IoError, WriteSeek};
use crate::model::{appended, flushed, follows, repositioned, written_at, Request, SinkModel};
use vstd::prelude::*;

verus! {

/// A destination together with the append cursor of the stream emitted into it.
///
/// The cursor is where the backend believes its next sequential write lands.
/// It parts from the destination's own position whenever bytes are written at
/// an explicit offset, so every operation moves the destination itself to
/// where it has to be.
pub struct PwriteSink<W: WriteSeek> {
    pub writer: W,
    pub pos: u64,
}

impl<W: WriteSeek> View for PwriteSink<W> {
    type V = SinkModel;

    open spec fn view(&self) -> SinkModel {
        SinkModel { cursor: self.pos, destination: self.writer.model() }
    }
}

impl<W: WriteSeek> PwriteSink<W> {
    /// Wraps `writer`, with the append cursor at the writer's current
    /// position, so that a stream can follow a prefix already written.
    ///
    /// Fails where the writer does not report its position, and then hands
    /// the writer back with the error.
    pub fn new(writer: W) -> (r: Result<Self, (IoError, W)>)
        ensures
            r is Ok ==> follows(writer.model(), r->Ok_0@.destination, Request::Position, true),
            r is Ok ==> r->Ok_0@.aligned(),
            r is Err ==> follows(writer.model(), r->Err_0.1.model(), Request::Position, false),
    {
        let mut writer = writer;
        match writer.stream_position() {
            Ok(pos) => Ok(PwriteSink { writer, pos }),
            Err(e) => Err((e, writer)),
        }
    }

    /// Gives the destination back.
    pub fn into_inner(self) -> (writer: W)
        ensures
            writer == self.writer,
    {
        self.writer
    }

    /// Appends `bytes` at the cursor and moves the cursor past them. The
    /// destination is moved to the cursor first, wherever it stood.
    pub fn append(&mut self, bytes: &[u8]) -> (r: Result<(), IoError>)
        ensures
            appended(old(self)@, final(self)@, bytes@, r is Ok),
    {
        match self.writer.seek_to(self.pos) {
            Ok(_) => {},
            Err(e) => {
                return Err(e);
            },
        }
        match self.writer.write_all(bytes) {
            Ok(_) => {},
            Err(e) => {
                return Err(e);
            },
        }
        self.pos = self.pos.saturating_add(bytes.len() as u64);
        Ok(())
    }

    /// Writes `bytes` at `offset` and moves the destination back to the
    /// cursor, which does not change.
    ///
    /// An offset beyond what has been written is passed on as it is: what
    /// becomes of the gap is the destination's to decide, and one that
    /// follows the model fills it with zeros.
    pub fn write_at(&mut self, bytes: &[u8], offset: u64) -> (r: Result<(), IoError>)
        ensures
            written_at(old(self)@, final(self)@, bytes@, offset, r is Ok),
    {
        match self.writer.seek_to(offset) {
            Ok(_) => {},
            Err(e) => {
                return Err(e);
            },
        }
        match self.writer.write_all(bytes) {
            Ok(_) => {},
            Err(e) => {
                return Err(e);
            },
        }
        self.writer.seek_to(self.pos)
    }

    /// Sets the cursor to `offset` and moves the destination there.
    pub fn reposition(&mut self, offset: u64) -> (r: Result<(), IoError>)
        ensures
            repositioned(old(self)@, final(self)@, offset, r is Ok),
    {
        self.pos = offset;
        self.writer.seek_to(offset)
    }

    /// Flushes the destination.
    pub fn flush(&mut self) -> (r: Result<(), IoError>)
        ensures
            flushed(old(self)@, final(self)@, r is Ok),
    {
        self.writer.flush()
    }
}

/// Callback for a sequential write: appends `bytes` to `sink`.
/// Reports 0 on success and 1 on failure.
pub fn rust_shim_write_cb<W: WriteSeek>(bytes: &[u8], sink: &mut PwriteSink<W>) -> (status: i32)
    ensures
        status == 0 || status == 1,
        appended(old(sink)@, final(sink)@, bytes@, status == 0),
{
    match sink.append(bytes) {
        Ok(_) => 0,
        Err(_) => 1,
    }
}

/// Callback for a random-access write: writes `bytes` at `offset` of `sink`.
/// Reports 0 on success and 1 on failure.
pub fn rust_shim_pwrite_cb<W: WriteSeek>(
    bytes: &[u8],
    offset: u64,
    sink: &mut PwriteSink<W>,
) -> (status: i32)
    ensures
        status == 0 || status == 1,
        written_at(old(sink)@, final(sink)@, bytes@, offset, status == 0),
{
    match sink.write_at(bytes, offset) {
        Ok(_) => 0,
        Err(_) => 1,
    }
}

/// Callback for a seek: repositions `sink` to `offset`.
/// Reports 0 on success and 1 on failure.
pub fn rust_shim_seek_cb<W: WriteSeek>(offset: u64, sink: &mut PwriteSink<W>) -> (status: i32)
    ensures
        status == 0 || status == 1,
        repositioned(old(sink)@, final(sink)@, offset, status == 0),
{
    match sink.reposition(offset) {
        Ok(_) => 0,
        Err(_) => 1,
    }
}

/// Callback for a flush of `sink`. Reports 0 on success and 1 on failure.
pub fn rust_shim_flush_cb<W: WriteSeek>(sink: &mut PwriteSink<W>) -> (status: i32)
    ensures
        status == 0 || status == 1,
        flushed(old(sink)@, final(sink)@, status == 0),
{
    match sink.flush() {
        Ok(_) => 0,
        Err(_) => 1,
    }
}

} // verus!

//! The mathematical model the contracts of this crate are stated over.
//!
//! A destination is a sequence of bytes, a position, and the history of what
//! was asked of it. A sink adds the append cursor of the backend's stream, a
//! session adds the latch that the first failure sets.

use vstd::prelude::*;

verus! {

/// The bytes a destination holds after `bytes` were written at offset `at`
/// over `contents`.
///
/// An empty write changes nothing. A write that starts beyond the end of
/// `contents` fills the gap with zero bytes; a write that overlaps existing
/// bytes replaces them and keeps whatever lies after the written range.
pub open spec fn overlay(contents: Seq<u8>, at: nat, bytes: Seq<u8>) -> Seq<u8> {
    if bytes.len() == 0 {
        contents
    } else {
        Seq::new(
            if contents.len() >= at + bytes.len() {
                contents.len()
            } else {
                at + bytes.len()
            },
            |i: int|
                if at <= i < at + bytes.len() {
                    bytes[i - at]
                } else if i < contents.len() {
                    contents[i]
                } else {
                    0u8
                },
        )
    }
}

/// The append cursor after `len` more bytes: it saturates, it never wraps.
pub open spec fn advance_cursor(cursor: u64, len: nat) -> u64 {
    if cursor + len > u64::MAX {
        u64::MAX
    } else {
        (cursor + len) as u64
    }
}

/// An operation asked of a destination.
pub enum Request {
    /// Report the current position.
    Position,
    /// Move the position to `offset` bytes from the start.
    Seek { offset: u64 },
    /// Write all of `bytes` at the current position.
    Write { bytes: Seq<u8> },
    /// Push buffered bytes out.
    Flush,
}

/// A request together with the destination's answer to it.
pub struct Exchange {
    pub request: Request,
    pub accepted: bool,
}

/// What a destination says of itself.
pub struct DestinationModel {
    /// The bytes it holds.
    pub contents: Seq<u8>,
    /// The offset at which its next sequential write lands.
    pub position: nat,
    /// Every request made of it so far with its answer, oldest first.
    pub history: Seq<Exchange>,
    /// Which requests it accepts, given what it holds, where it stands and
    /// what has been asked of it. This does not change while it lives.
    pub policy: spec_fn(Seq<u8>, nat, Seq<Exchange>, Request) -> bool,
}

impl DestinationModel {
    /// Whether the destination, as it stands, accepts `request`.
    pub open spec fn takes(self, request: Request) -> bool {
        (self.policy)(self.contents, self.position, self.history, request)
    }

    /// The destination after it accepted `request`.
    pub open spec fn after(self, request: Request) -> DestinationModel {
        let history = self.history.push(Exchange { request, accepted: true });
        match request {
            Request::Position | Request::Flush => DestinationModel { history, ..self },
            Request::Seek { offset } => DestinationModel {
                position: offset as nat,
                history,
                ..self
            },
            Request::Write { bytes } => DestinationModel {
                contents: overlay(self.contents, self.position, bytes),
                position: self.position + bytes.len(),
                history,
                ..self
            },
        }
    }

    /// The destination after it accepted a write of each of `chunks` in turn.
    pub open spec fn after_writes(self, chunks: Seq<Seq<u8>>) -> DestinationModel
        decreases chunks.len(),
    {
        if chunks.len() == 0 {
            self
        } else {
            self.after_writes(chunks.drop_last()).after(Request::Write { bytes: chunks.last() })
        }
    }

    /// The history after `request` was refused. Of the contents and the
    /// position nothing is known then.
    pub open spec fn refusing(self, request: Request) -> Seq<Exchange> {
        self.history.push(Exchange { request, accepted: false })
    }
}

/// How one request takes a destination from `pre` to `post`.
///
/// A destination that says nothing of itself (`None`) keeps saying nothing.
/// One that does accepts the request exactly where its policy says so, and
/// records the exchange in its history. Where it accepted the request it is
/// as [`DestinationModel::after`] says. Where it refused, nothing is known of
/// its contents and its position; its policy is what it was.
pub open spec fn follows(
    pre: Option<DestinationModel>,
    post: Option<DestinationModel>,
    request: Request,
    accepted: bool,
) -> bool {
    match pre {
        None => post is None,
        Some(before) => {
            &&& post is Some
            &&& accepted == before.takes(request)
            &&& accepted ==> post->0 == before.after(request)
            &&& !accepted ==> post->0.history == before.refusing(request)
            &&& !accepted ==> post->0.policy == before.policy
        },
    }
}

/// The append cursor of a stream together with the destination it is emitted into.
pub struct SinkModel {
    /// Where the backend believes its next sequential write lands.
    pub cursor: u64,
    /// The destination, where it says anything of itself.
    pub destination: Option<DestinationModel>,
}

impl SinkModel {
    /// The sink after its destination accepted `request`; the cursor stays.
    pub open spec fn after(self, request: Request) -> SinkModel {
        SinkModel {
            cursor: self.cursor,
            destination: match self.destination {
                None => None,
                Some(before) => Some(before.after(request)),
            },
        }
    }

    /// The sink after a successful append of `bytes`: the destination was
    /// moved to the cursor, took the bytes there, and the cursor moved past them.
    pub open spec fn after_append(self, bytes: Seq<u8>) -> SinkModel {
        SinkModel {
            cursor: advance_cursor(self.cursor, bytes.len()),
            ..self.after(Request::Seek { offset: self.cursor }).after(Request::Write { bytes })
        }
    }

    /// The sink after a successful append of each of `chunks` in turn.
    pub open spec fn after_appends(self, chunks: Seq<Seq<u8>>) -> SinkModel
        decreases chunks.len(),
    {
        if chunks.len() == 0 {
            self
        } else {
            self.after_appends(chunks.drop_last()).after_append(chunks.last())
        }
    }

    /// The sink after a successful write of `bytes` at `offset`: the
    /// destination was moved to `offset`, took the bytes there, and was moved
    /// back to the cursor, which stays where it was.
    pub open spec fn after_write_at(self, bytes: Seq<u8>, offset: u64) -> SinkModel {
        self.after(Request::Seek { offset }).after(Request::Write { bytes }).after(
            Request::Seek { offset: self.cursor },
        )
    }

    /// The sink after a successful reposition: cursor and destination both at `offset`.
    pub open spec fn after_reposition(self, offset: u64) -> SinkModel {
        SinkModel { cursor: offset, ..self.after(Request::Seek { offset }) }
    }

    /// The sink after a successful flush.
    pub open spec fn after_flush(self) -> SinkModel {
        self.after(Request::Flush)
    }

    /// Whether the destination accepts `request` as it stands. Of a
    /// destination that says nothing of itself this cannot be told.
    pub open spec fn takes(self, request: Request) -> bool
        recommends
            self.destination is Some,
    {
        self.destination is Some && self.destination->0.takes(request)
    }

    /// Whether an append of `bytes` succeeds: the destination accepts the
    /// seek to the cursor and then the write.
    pub open spec fn append_succeeds(self, bytes: Seq<u8>) -> bool
        recommends
            self.destination is Some,
    {
        let seek = Request::Seek { offset: self.cursor };
        self.takes(seek) && self.after(seek).takes(Request::Write { bytes })
    }

    /// Whether a write of `bytes` at `offset` succeeds: the destination
    /// accepts the seek to `offset`, the write, and the seek back to the cursor.
    pub open spec fn write_at_succeeds(self, bytes: Seq<u8>, offset: u64) -> bool
        recommends
            self.destination is Some,
    {
        let seek = Request::Seek { offset };
        let write = Request::Write { bytes };
        &&& self.takes(seek)
        &&& self.after(seek).takes(write)
        &&& self.after(seek).after(write).takes(Request::Seek { offset: self.cursor })
    }

    /// Whether the destination stands where the cursor is.
    pub open spec fn aligned(self) -> bool {
        self.destination is Some ==> self.destination->0.position == self.cursor
    }

    /// Whether `post` holds the destination of `self` after it refused
    /// `request`: the refusal is in its history, and nothing more is known of it.
    pub open spec fn refused(self, post: SinkModel, request: Request) -> bool {
        follows(self.destination, post.destination, request, false)
    }
}

/// An append of `bytes` took the sink from `pre` to `post` and ended as `ok` says.
///
/// It fails where the seek to the cursor or the write is refused, and then
/// leaves the cursor where it was. Whether they are refused is for the
/// destination's policy to say, where it has one.
pub open spec fn appended(pre: SinkModel, post: SinkModel, bytes: Seq<u8>, ok: bool) -> bool {
    let seek = Request::Seek { offset: pre.cursor };
    let write = Request::Write { bytes };
    &&& pre.destination is Some ==> ok == pre.append_succeeds(bytes)
    &&& if ok {
        post == pre.after_append(bytes)
    } else {
        &&& post.cursor == pre.cursor
        &&& pre.refused(post, seek) || pre.after(seek).refused(post, write)
    }
}

/// A write of `bytes` at `offset` took the sink from `pre` to `post` and ended as `ok` says.
///
/// It fails where the seek to `offset`, the write, or the seek back to the
/// cursor is refused. The cursor stays where it was either way.
pub open spec fn written_at(
    pre: SinkModel,
    post: SinkModel,
    bytes: Seq<u8>,
    offset: u64,
    ok: bool,
) -> bool {
    let seek = Request::Seek { offset };
    let write = Request::Write { bytes };
    let restore = Request::Seek { offset: pre.cursor };
    &&& pre.destination is Some ==> ok == pre.write_at_succeeds(bytes, offset)
    &&& if ok {
        post == pre.after_write_at(bytes, offset)
    } else {
        &&& post.cursor == pre.cursor
        &&& pre.refused(post, seek) || pre.after(seek).refused(post, write) || pre.after(
            seek,
        ).after(write).refused(post, restore)
    }
}

/// A reposition to `offset` took the sink from `pre` to `post` and ended as `ok` says.
///
/// The cursor is at `offset` afterwards also where the destination refused to follow.
pub open spec fn repositioned(pre: SinkModel, post: SinkModel, offset: u64, ok: bool) -> bool {
    &&& pre.destination is Some ==> ok == pre.takes(Request::Seek { offset })
    &&& if ok {
        post == pre.after_reposition(offset)
    } else {
        &&& post.cursor == offset
        &&& pre.refused(post, Request::Seek { offset })
    }
}

/// A flush took the sink from `pre` to `post` and ended as `ok` says.
pub open spec fn flushed(pre: SinkModel, post: SinkModel, ok: bool) -> bool {
    &&& pre.destination is Some ==> ok == pre.takes(Request::Flush)
    &&& if ok {
        post == pre.after_flush()
    } else {
        &&& post.cursor == pre.cursor
        &&& pre.refused(post, Request::Flush)
    }
}

/// What a backend asks of the stream it emits into.
pub enum StreamOp {
    /// Append `bytes` at the cursor.
    Write { bytes: Seq<u8> },
    /// Overwrite with `bytes` at `offset`, leaving the cursor where it is.
    WriteAt { bytes: Seq<u8>, offset: u64 },
    /// Move the cursor to `offset`.
    Seek { offset: u64 },
    /// Flush the destination.
    Flush,
}

impl SinkModel {
    /// The sink after it carried out `op` with success.
    pub open spec fn after_op(self, op: StreamOp) -> SinkModel {
        match op {
            StreamOp::Write { bytes } => self.after_append(bytes),
            StreamOp::WriteAt { bytes, offset } => self.after_write_at(bytes, offset),
            StreamOp::Seek { offset } => self.after_reposition(offset),
            StreamOp::Flush => self.after_flush(),
        }
    }

    /// Whether the sink carries out `op` with success.
    pub open spec fn succeeds(self, op: StreamOp) -> bool
        recommends
            self.destination is Some,
    {
        match op {
            StreamOp::Write { bytes } => self.append_succeeds(bytes),
            StreamOp::WriteAt { bytes, offset } => self.write_at_succeeds(bytes, offset),
            StreamOp::Seek { offset } => self.takes(Request::Seek { offset }),
            StreamOp::Flush => self.takes(Request::Flush),
        }
    }

    /// The sink after it carried out each of `ops` in turn with success.
    pub open spec fn after_ops(self, ops: Seq<StreamOp>) -> SinkModel
        decreases ops.len(),
    {
        if ops.len() == 0 {
            self
        } else {
            self.after_ops(ops.drop_last()).after_op(ops.last())
        }
    }
}

/// What a backend that emits into a growable buffer of its own holds after
/// `ops`: a write extends the buffer, a write at an offset replaces bytes
/// that are already there, a flush changes nothing. Such a buffer has no seek.
pub open spec fn buffered(ops: Seq<StreamOp>) -> Seq<u8>
    decreases ops.len(),
{
    if ops.len() == 0 {
        Seq::empty()
    } else {
        let before = buffered(ops.drop_last());
        match ops.last() {
            StreamOp::Write { bytes } => before + bytes,
            StreamOp::WriteAt { bytes, offset } => Seq::new(
                before.len(),
                |i: int|
                    if offset <= i < offset + bytes.len() {
                        bytes[i - offset]
                    } else {
                        before[i]
                    },
            ),
            StreamOp::Seek { .. } | StreamOp::Flush => before,
        }
    }
}

/// Whether `ops` is what a backend asks while it emits one artifact: it
/// never seeks, and it writes at an offset only over bytes it has already
/// written.
pub open spec fn patches_in_bounds(ops: Seq<StreamOp>) -> bool
    decreases ops.len(),
{
    ops.len() == 0 || {
        &&& patches_in_bounds(ops.drop_last())
        &&& match ops.last() {
            StreamOp::Write { .. } | StreamOp::Flush => true,
            StreamOp::WriteAt { bytes, offset } => offset + bytes.len() <= buffered(
                ops.drop_last(),
            ).len(),
            StreamOp::Seek { .. } => false,
        }
    }
}

/// The sink carried out `op`, which took it from `pre` to `post` and ended as `ok` says.
pub open spec fn performed(pre: SinkModel, post: SinkModel, op: StreamOp, ok: bool) -> bool {
    match op {
        StreamOp::Write { bytes } => appended(pre, post, bytes, ok),
        StreamOp::WriteAt { bytes, offset } => written_at(pre, post, bytes, offset, ok),
        StreamOp::Seek { offset } => repositioned(pre, post, offset, ok),
        StreamOp::Flush => flushed(pre, post, ok),
    }
}

/// A session on the random-access path while the backend is running.
pub struct SessionModel {
    /// The sink the backend's callbacks act on.
    pub sink: SinkModel,
    /// Whether a callback has failed. Once set it stays set.
    pub failed: bool,
}

/// The session answered `op` with `status`, which took it from `pre` to `post`.
///
/// A session that has not failed carries the operation out and fails where
/// the operation does. A session that has failed refuses every further
/// operation and touches nothing.
pub open spec fn answered(
    pre: SessionModel,
    post: SessionModel,
    op: StreamOp,
    status: i32,
) -> bool {
    if pre.failed {
        post == pre && status == 1
    } else {
        &&& status == 0 || status == 1
        &&& performed(pre.sink, post.sink, op, status == 0)
        &&& post.failed == (status != 0)
    }
}

/// A session on the forward-only path while the backend is running.
pub struct ForwardModel {
    /// The destination, where it says anything of itself.
    pub destination: Option<DestinationModel>,
    /// Whether a callback has failed. Once set it stays set.
    pub failed: bool,
}

/// The forward-only session passed `request` on and answered `status`, which
/// took it from `pre` to `post`. After a failure nothing more is passed on.
pub open spec fn forwarded(
    pre: ForwardModel,
    post: ForwardModel,
    request: Request,
    status: i32,
) -> bool {
    if pre.failed {
        post == pre && status == 1
    } else {
        &&& status == 0 || status == 1
        &&& follows(pre.destination, post.destination, request, status == 0)
        &&& post.failed == (status != 0)
    }
}

} // verus!

//! What holds of every stream, proved over the model.

use crate::model::{
    answered, buffered, forwarded, overlay, patches_in_bounds, performed, DestinationModel,
    ForwardModel, Request, SessionModel, SinkModel, StreamOp,
};
use crate::outcome::{settle, settle_forward};
use vstd::prelude::*;

verus! {

/// Bytes written at an offset are found there afterwards, and nothing else changes:
/// what was in front of them stays, a gap in front of them is zero, and what
/// lay beyond them stays.
pub proof fn lemma_overlay_places_bytes(contents: Seq<u8>, at: nat, bytes: Seq<u8>)
    requires
        bytes.len() > 0,
    ensures
        overlay(contents, at, bytes).len() >= at + bytes.len(),
        overlay(contents, at, bytes).len() >= contents.len(),
        overlay(contents, at, bytes).subrange(at as int, (at + bytes.len()) as int) == bytes,
        forall|i: int|
            0 <= i < at && i < contents.len() ==> overlay(contents, at, bytes)[i] == contents[i],
        forall|i: int| contents.len() <= i < at ==> overlay(contents, at, bytes)[i] == 0u8,
        forall|i: int|
            at + bytes.len() <= i < contents.len() ==> overlay(contents, at, bytes)[i]
                == contents[i],
{
    assert(overlay(contents, at, bytes).subrange(at as int, (at + bytes.len()) as int) =~= bytes);
}

/// Writing `first` at an offset and `second` right behind it is writing
/// their concatenation at that offset.
pub proof fn lemma_overlay_adjacent(contents: Seq<u8>, at: nat, first: Seq<u8>, second: Seq<u8>)
    ensures
        overlay(overlay(contents, at, first), at + first.len(), second) == overlay(
            contents,
            at,
            first + second,
        ),
{
    if first.len() == 0 {
        assert(first + second =~= second);
    } else if second.len() == 0 {
        assert(first + second =~= first);
    } else {
        assert(overlay(overlay(contents, at, first), at + first.len(), second) =~= overlay(
            contents,
            at,
            first + second,
        ));
    }
}

/// Chunks written one after the other leave what their concatenation
/// written at once leaves: the destination holds them in call order from
/// where it stood, and stands behind the last of them.
pub proof fn lemma_writes_concatenate(destination: DestinationModel, chunks: Seq<Seq<u8>>)
    ensures
        destination.after_writes(chunks).contents == overlay(
            destination.contents,
            destination.position,
            chunks.flatten(),
        ),
        destination.after_writes(chunks).position == destination.position
            + chunks.flatten().len(),
    decreases chunks.len(),
{
    if chunks.len() == 0 {
    } else {
        let front = chunks.drop_last();
        lemma_writes_concatenate(destination, front);
        assert(chunks =~= front.push(chunks.last()));
        front.lemma_flatten_push(chunks.last());
        lemma_overlay_adjacent(
            destination.contents,
            destination.position,
            front.flatten(),
            chunks.last(),
        );
    }
}

/// Appends that all succeed leave the appended bytes, concatenated in call
/// order, at the offset where the cursor stood, and move the cursor past them.
///
/// The cursor saturates, so this is stated for streams that end within the
/// range of the cursor.
pub proof fn lemma_appends_concatenate(sink: SinkModel, chunks: Seq<Seq<u8>>)
    requires
        sink.destination is Some,
        sink.cursor + chunks.flatten().len() <= u64::MAX,
    ensures
        sink.after_appends(chunks).cursor == sink.cursor + chunks.flatten().len(),
        sink.after_appends(chunks).destination is Some,
        sink.after_appends(chunks).destination->0.contents == overlay(
            sink.destination->0.contents,
            sink.cursor as nat,
            chunks.flatten(),
        ),
        chunks.flatten().len() > 0 ==> sink.after_appends(chunks).destination->0.contents.subrange(
            sink.cursor as int,
            sink.cursor + chunks.flatten().len(),
        ) == chunks.flatten(),
    decreases chunks.len(),
{
    let all = chunks.flatten();
    if chunks.len() == 0 {
    } else {
        let front = chunks.drop_last();
        assert(chunks =~= front.push(chunks.last()));
        front.lemma_flatten_push(chunks.last());
        lemma_appends_concatenate(sink, front);
        lemma_overlay_adjacent(
            sink.destination->0.contents,
            sink.cursor as nat,
            front.flatten(),
            chunks.last(),
        );
    }
    if all.len() > 0 {
        lemma_overlay_places_bytes(sink.destination->0.contents, sink.cursor as nat, all);
    }
}

/// Emitting an artifact chunk by chunk and emitting it whole, as one buffer,
/// leave the same bytes in the destination and the same cursor.
pub proof fn lemma_chunks_equal_whole(sink: SinkModel, chunks: Seq<Seq<u8>>)
    requires
        sink.destination is Some,
        sink.cursor + chunks.flatten().len() <= u64::MAX,
    ensures
        sink.after_appends(chunks).cursor == sink.after_append(chunks.flatten()).cursor,
        sink.after_appends(chunks).destination->0.contents == sink.after_append(
            chunks.flatten(),
        ).destination->0.contents,
{
    lemma_appends_concatenate(sink, chunks);
}

/// Whether an operation succeeds is for the destination's policy to
/// decide, and one that succeeded leaves the sink as [`SinkModel::after_op`] says.
pub proof fn lemma_outcome_is_decided(pre: SinkModel, post: SinkModel, op: StreamOp, ok: bool)
    requires
        performed(pre, post, op, ok),
    ensures
        pre.destination is Some ==> ok == pre.succeeds(op),
        ok ==> post == pre.after_op(op),
{
}

/// Streaming and buffering give the same bytes: a fresh destination that
/// took a backend's operations one by one through the sink holds exactly
/// what the backend would hold had it emitted into a buffer of its own, and
/// the cursor stands at the end of it.
pub proof fn lemma_stream_equals_buffer(sink: SinkModel, ops: Seq<StreamOp>)
    requires
        sink.destination is Some,
        sink.destination->0.contents.len() == 0,
        sink.cursor == 0,
        patches_in_bounds(ops),
        buffered(ops).len() <= u64::MAX,
    ensures
        sink.after_ops(ops).destination is Some,
        sink.after_ops(ops).destination->0.contents == buffered(ops),
        sink.after_ops(ops).cursor == buffered(ops).len(),
    decreases ops.len(),
{
    if ops.len() > 0 {
        let front = ops.drop_last();
        lemma_stream_equals_buffer(sink, front);
        let before = sink.after_ops(front);
        let held = buffered(front);
        match ops.last() {
            StreamOp::Write { bytes } => {
                assert(overlay(held, held.len(), bytes) =~= held + bytes);
            },
            StreamOp::WriteAt { bytes, offset } => {
                assert(overlay(held, offset as nat, bytes) =~= buffered(ops));
            },
            StreamOp::Seek { .. } => {},
            StreamOp::Flush => {},
        }
    }
}

/// A write at an explicit offset leaves the cursor where it was and the
/// destination standing at the cursor, so the append that follows lands at
/// the cursor and not behind the bytes just written.
pub proof fn lemma_write_at_restores_position(
    sink: SinkModel,
    first: Seq<u8>,
    patch: Seq<u8>,
    offset: u64,
    second: Seq<u8>,
)
    requires
        sink.destination is Some,
    ensures
        ({
            let before = sink.after_append(first);
            let patched = before.after_write_at(patch, offset);
            let after = patched.after_append(second);
            &&& patched.cursor == before.cursor
            &&& patched.destination is Some
            &&& patched.destination->0.position == before.cursor
            &&& patched.destination->0.contents == overlay(
                before.destination->0.contents,
                offset as nat,
                patch,
            )
            &&& after.destination is Some
            &&& after.destination->0.contents == overlay(
                patched.destination->0.contents,
                before.cursor as nat,
                second,
            )
            &&& second.len() > 0 ==> after.destination->0.contents.subrange(
                before.cursor as int,
                before.cursor + second.len(),
            ) == second
        }),
{
    let before = sink.after_append(first);
    let patched = before.after_write_at(patch, offset);
    if second.len() > 0 {
        lemma_overlay_places_bytes(patched.destination->0.contents, before.cursor as nat, second);
    }
}

/// Every append, write at an offset and reposition that succeeds leaves the
/// destination standing at the cursor, wherever it stood before, as long as
/// the cursor has not saturated. A flush keeps it there.
pub proof fn lemma_success_keeps_aligned(pre: SinkModel, post: SinkModel, op: StreamOp)
    requires
        performed(pre, post, op, true),
        op is Flush ==> pre.aligned(),
        op is Write ==> pre.cursor + op->Write_bytes.len() <= u64::MAX,
    ensures
        post.aligned(),
{
}

/// Once a callback has failed the session is frozen: every later callback
/// reports failure, the destination is asked for nothing more, and however
/// the backend returns, the outcome is not a success.
pub proof fn lemma_failure_is_final(
    states: Seq<SessionModel>,
    ops: Seq<StreamOp>,
    statuses: Seq<i32>,
    k: int,
    status: i32,
    diagnostic: Option<String>,
)
    requires
        states.len() == ops.len() + 1,
        statuses.len() == ops.len(),
        forall|i: int|
            0 <= i < ops.len() ==> answered(
                #[trigger] states[i],
                states[i + 1],
                ops[i],
                statuses[i],
            ),
        0 <= k < ops.len(),
        statuses[k] != 0,
    ensures
        forall|j: int| k < j < states.len() ==> #[trigger] states[j] == states[k + 1],
        forall|j: int| k < j < statuses.len() ==> #[trigger] statuses[j] == 1,
        states.last().failed,
        !(settle(states.last().failed, status, diagnostic) is Success),
{
    assert(answered(states[k], states[k + 1], ops[k], statuses[k]));
    assert(states[k + 1].failed);
    lemma_frozen_from(states, ops, statuses, k + 1, states.len() - 1);
    assert forall|j: int| k < j < states.len() implies #[trigger] states[j] == states[k + 1] by {
        lemma_frozen_from(states, ops, statuses, k + 1, j);
    }
    assert forall|j: int| k < j < statuses.len() implies #[trigger] statuses[j] == 1 by {
        lemma_frozen_from(states, ops, statuses, k + 1, j);
        assert(answered(states[j], states[j + 1], ops[j], statuses[j]));
    }
}

/// The forward-only path stops in the same way: after the first callback
/// that failed nothing more is passed on, and the outcome is not a success.
pub proof fn lemma_forward_failure_is_final(
    states: Seq<ForwardModel>,
    requests: Seq<Request>,
    statuses: Seq<i32>,
    k: int,
    status: i32,
)
    requires
        states.len() == requests.len() + 1,
        statuses.len() == requests.len(),
        forall|i: int|
            0 <= i < requests.len() ==> forwarded(
                #[trigger] states[i],
                states[i + 1],
                requests[i],
                statuses[i],
            ),
        0 <= k < requests.len(),
        statuses[k] != 0,
    ensures
        forall|j: int| k < j < states.len() ==> #[trigger] states[j] == states[k + 1],
        forall|j: int| k < j < statuses.len() ==> #[trigger] statuses[j] == 1,
        states.last().failed,
        !(settle_forward(states.last().failed, status) is Success),
{
    assert(forwarded(states[k], states[k + 1], requests[k], statuses[k]));
    assert(states[k + 1].failed);
    lemma_forward_frozen_from(states, requests, statuses, k + 1, states.len() - 1);
    assert forall|j: int| k < j < states.len() implies #[trigger] states[j] == states[k + 1] by {
        lemma_forward_frozen_from(states, requests, statuses, k + 1, j);
    }
    assert forall|j: int| k < j < statuses.len() implies #[trigger] statuses[j] == 1 by {
        lemma_forward_frozen_from(states, requests, statuses, k + 1, j);
        assert(forwarded(states[j], states[j + 1], requests[j], statuses[j]));
    }
}

proof fn lemma_forward_frozen_from(
    states: Seq<ForwardModel>,
    requests: Seq<Request>,
    statuses: Seq<i32>,
    from: int,
    j: int,
)
    requires
        states.len() == requests.len() + 1,
        statuses.len() == requests.len(),
        forall|i: int|
            0 <= i < requests.len() ==> forwarded(
                #[trigger] states[i],
                states[i + 1],
                requests[i],
                statuses[i],
            ),
        0 <= from <= j < states.len(),
        states[from].failed,
    ensures
        states[j] == states[from],
    decreases j - from,
{
    if j > from {
        lemma_forward_frozen_from(states, requests, statuses, from, j - 1);
        assert(forwarded(states[j - 1], states[j], requests[j - 1], statuses[j - 1]));
    }
}

proof fn lemma_frozen_from(
    states: Seq<SessionModel>,
    ops: Seq<StreamOp>,
    statuses: Seq<i32>,
    from: int,
    j: int,
)
    requires
        states.len() == ops.len() + 1,
        statuses.len() == ops.len(),
        forall|i: int|
            0 <= i < ops.len() ==> answered(
                #[trigger] states[i],
                states[i + 1],
                ops[i],
                statuses[i],
            ),
        0 <= from <= j < states.len(),
        states[from].failed,
    ensures
        states[j] == states[from],
    decreases j - from,
{
    if j > from {
        lemma_frozen_from(states, ops, statuses, from, j - 1);
        assert(answered(states[j - 1], states[j], ops[j - 1], statuses[j - 1]));
    }
}

} // verus!

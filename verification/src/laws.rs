//! General properties of the receiver, stated over the byte-stream model that
//! the receiver's contracts use.
use vstd::prelude::*;

use aws_smithy_types::event_stream::Message;

use crate::frames::{frame_complete, frame_msg, frame_size};

verus! {

/// The messages decoded from `b`, front to back, as far as complete frames
/// reach. `fuel` bounds the recursion; since a complete frame is never empty
/// (see `decode_step`), any `fuel >= b.len()` is enough.
pub open spec fn stream_events(b: Seq<u8>, fuel: nat) -> Seq<Message>
    decreases fuel,
{
    if fuel == 0 || !frame_complete(b) {
        Seq::<Message>::empty()
    } else {
        seq![frame_msg(b)] + stream_events(b.skip(frame_size(b)), (fuel - 1) as nat)
    }
}

/// All the chunks of a stream, joined in order.
pub open spec fn concat_chunks(chunks: Seq<Seq<u8>>) -> Seq<u8>
    decreases chunks.len(),
{
    if chunks.len() == 0 {
        Seq::<u8>::empty()
    } else {
        chunks[0] + concat_chunks(chunks.skip(1))
    }
}

/// The bytes a receiver holds pending after feeding the chunks one by one on
/// top of bytes it already held; each feed appends, exactly as
/// `Receiver::feed_chunk` ensures.
pub open spec fn feed_all(held: Seq<u8>, chunks: Seq<Seq<u8>>) -> Seq<u8>
    decreases chunks.len(),
{
    if chunks.len() == 0 {
        held
    } else {
        feed_all(held + chunks[0], chunks.skip(1))
    }
}

/// Exact redelivery: however a contiguous encoding is split into chunks, even
/// at byte-uneven boundaries, feeding the chunks one at a time accumulates
/// exactly their concatenation. Since each `Receiver::recv` consumes exactly
/// the first complete frame of the pending bytes and yields exactly its
/// message (see `recv`'s contract), the events a receiver yields are the
/// frames of the contiguous encoding, in order, followed by `Finished` — the
/// chunk boundaries cannot be observed.
pub proof fn lemma_exact_redelivery(held: Seq<u8>, chunks: Seq<Seq<u8>>)
    ensures
        feed_all(held, chunks) == held + concat_chunks(chunks),
    decreases chunks.len(),
{
    if chunks.len() == 0 {
        assert(held + concat_chunks(chunks) =~= held);
    } else {
        lemma_exact_redelivery(held + chunks[0], chunks.skip(1));
        assert((held + chunks[0]) + concat_chunks(chunks.skip(1)) =~= held + (chunks[0]
            + concat_chunks(chunks.skip(1))));
    }
}

/// Trailing empty chunk: feeding a zero-length chunk leaves the pending bytes
/// exactly as they were, so it can alter neither the events yielded nor the
/// end-of-stream outcome.
pub proof fn lemma_trailing_empty_chunk(held: Seq<u8>)
    ensures
        held + Seq::<u8>::empty() == held,
{
    assert(held + Seq::<u8>::empty() =~= held);
}

/// Multi-frame-per-chunk: when the pending bytes start with two complete
/// frames back to back — as after a single chunk carrying both — the first
/// two decoded events are exactly those frames' messages, with no further
/// input needed in between.
pub proof fn lemma_multi_frame_chunk(b: Seq<u8>, fuel: nat)
    requires
        frame_complete(b),
        frame_complete(b.skip(frame_size(b))),
        fuel >= 2,
    ensures
        stream_events(b, fuel).len() >= 2,
        stream_events(b, fuel)[0] == frame_msg(b),
        stream_events(b, fuel)[1] == frame_msg(b.skip(frame_size(b))),
{
    let rest = b.skip(frame_size(b));
    assert(stream_events(b, fuel) == seq![frame_msg(b)] + stream_events(
        rest,
        (fuel - 1) as nat,
    ));
    assert(stream_events(rest, (fuel - 1) as nat) == seq![frame_msg(rest)] + stream_events(
        rest.skip(frame_size(rest)),
        (fuel - 2) as nat,
    ));
}

} // verus!

//! The frame decoder of `aws-smithy-eventstream`, declared for the verifier.
//!
//! A decode attempt is a pure function of the bytes it can see: the prelude
//! bytes the decoder has already consumed into its own state, followed by the
//! bytes still in the buffer. That combined sequence is what the spec
//! functions below speak about.
use vstd::prelude::*;

use aws_smithy_eventstream::error::Error as EventStreamError;
use aws_smithy_eventstream::frame::MessageFrameDecoder;
use aws_smithy_types::event_stream::Message;
use bytes::Bytes;
use bytes_utils::SegmentedBuf;

use crate::segments::segbuf_bytes;

verus! {

#[verifier::external_type_specification]
#[verifier::external_body]
pub struct ExMessage(Message);

#[verifier::external_type_specification]
#[verifier::external_body]
pub struct ExMessageFrameDecoder(MessageFrameDecoder);

#[verifier::external_type_specification]
#[verifier::external_body]
pub struct ExEventStreamError(EventStreamError);

/// The prelude bytes the decoder has consumed from its input and still holds
/// in its own state, waiting for the rest of the frame.
pub uninterp spec fn decoder_stash(d: MessageFrameDecoder) -> Seq<u8>;

/// Whether `b` starts with one complete, well-formed frame.
pub uninterp spec fn frame_complete(b: Seq<u8>) -> bool;

/// The byte length of the complete frame at the start of `b`.
pub uninterp spec fn frame_size(b: Seq<u8>) -> int;

/// The message decoded from the complete frame at the start of `b`.
pub uninterp spec fn frame_msg(b: Seq<u8>) -> Message;

/// Whether a decode attempt on `b` fails outright (malformed framing), as
/// opposed to needing more bytes.
pub uninterp spec fn frame_invalid(b: Seq<u8>) -> bool;

/// Outcome of one decode attempt against the buffered bytes.
pub enum DecodedFrame {
    /// There wasn't enough data to decode a full message.
    Incomplete,
    /// A full message was decoded.
    Complete(Message),
}

/// Relies on `MessageFrameDecoder::new` (via `Default`): a fresh decoder has
/// read no prelude, so it holds no bytes of its own.
#[verifier::external_body]
pub(crate) fn decoder_new() -> (r: MessageFrameDecoder)
    ensures
        decoder_stash(r) == Seq::<u8>::empty(),
{
    MessageFrameDecoder::new()
}

/// Relies on `MessageFrameDecoder::decode_frame`. Its outcome is determined
/// by the decoder's stashed prelude followed by the buffered bytes:
/// - `Complete(m)`: a full frame stood at the front; exactly its bytes are
///   consumed, the decoder's stash is cleared, and the rest stays buffered.
/// - `Incomplete`: more bytes are needed; nothing is lost, though the decoder
///   may have moved the prelude from the buffer into its own state.
/// - `Err`: the bytes are malformed (bad length or checksum, or an
///   unparseable message); the bytes it inspected may have been consumed.
#[verifier::external_body]
pub(crate) fn decode_step(
    decoder: &mut MessageFrameDecoder,
    buf: &mut SegmentedBuf<Bytes>,
) -> (r: Result<DecodedFrame, aws_smithy_eventstream::error::Error>)
    ensures
        ({
            let before = decoder_stash(*old(decoder)) + segbuf_bytes(*old(buf));
            match r {
                Ok(DecodedFrame::Complete(m)) => frame_complete(before) && !frame_invalid(before)
                    && m == frame_msg(before) && 0 < frame_size(before) <= before.len()
                    && decoder_stash(*final(decoder)) == Seq::<u8>::empty() && segbuf_bytes(*final(buf))
                    == before.skip(frame_size(before)),
                Ok(DecodedFrame::Incomplete) => !frame_complete(before) && !frame_invalid(before)
                    && decoder_stash(*final(decoder)) + segbuf_bytes(*final(buf)) == before,
                Err(_) => frame_invalid(before) && !frame_complete(before),
            }
        }),
{
    match decoder.decode_frame(&mut *buf) {
        Ok(aws_smithy_eventstream::frame::DecodedFrame::Complete(m)) => Ok(
            DecodedFrame::Complete(m),
        ),
        Ok(aws_smithy_eventstream::frame::DecodedFrame::Incomplete) => Ok(DecodedFrame::Incomplete),
        Err(e) => Err(e),
    }
}

} // verus!

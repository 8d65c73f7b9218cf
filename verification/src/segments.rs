//! Byte containers from the `bytes` and `bytes-utils` crates, declared for the
//! verifier, together with the trusted operations the receiver's buffer
//! relies on. Each container is modelled by the sequence of bytes it holds.
use vstd::prelude::*;

use bytes::Buf;
use bytes::Bytes;
use bytes_utils::SegmentedBuf;

verus! {

#[verifier::external_type_specification]
#[verifier::external_body]
pub struct ExBytes(Bytes);

#[verifier::external_type_specification]
#[verifier::external_body]
#[verifier::reject_recursive_types(B)]
pub struct ExSegmentedBuf<B>(SegmentedBuf<B>);

/// The bytes a `Bytes` value holds, in order.
pub uninterp spec fn bytes_seq(b: Bytes) -> Seq<u8>;

/// The not-yet-consumed bytes a `SegmentedBuf` holds, front to back, across
/// all of its segments.
pub uninterp spec fn segbuf_bytes(b: SegmentedBuf<Bytes>) -> Seq<u8>;

/// Relies on `SegmentedBuf::new`: a fresh buffer holds no bytes.
#[verifier::external_body]
pub(crate) fn segbuf_new() -> (r: SegmentedBuf<Bytes>)
    ensures
        segbuf_bytes(r) == Seq::<u8>::empty(),
{
    SegmentedBuf::new()
}

/// Relies on `SegmentedBuf::push`: the chunk's bytes are appended at the back
/// of the buffer (the buffer is a FIFO of segments).
#[verifier::external_body]
pub(crate) fn segbuf_push(buf: &mut SegmentedBuf<Bytes>, chunk: Bytes)
    requires
        segbuf_bytes(*old(buf)).len() + bytes_seq(chunk).len() <= usize::MAX,
    ensures
        segbuf_bytes(*final(buf)) == segbuf_bytes(*old(buf)) + bytes_seq(chunk),
{
    buf.push(chunk);
}

/// Relies on `Buf::remaining` for `SegmentedBuf`: the number of buffered bytes.
#[verifier::external_body]
pub(crate) fn segbuf_remaining(buf: &SegmentedBuf<Bytes>) -> (r: usize)
    ensures
        r == segbuf_bytes(*buf).len(),
{
    buf.remaining()
}

/// Relies on `Buf::copy_to_bytes` for `SegmentedBuf`: copying out all
/// `remaining` bytes hands back exactly the buffered bytes and leaves the
/// buffer empty.
#[verifier::external_body]
pub(crate) fn segbuf_take_all(buf: &mut SegmentedBuf<Bytes>) -> (r: Bytes)
    ensures
        bytes_seq(r) == segbuf_bytes(*old(buf)),
        segbuf_bytes(*final(buf)) == Seq::<u8>::empty(),
{
    let n = buf.remaining();
    buf.copy_to_bytes(n)
}

} // verus!

//! The buffer state machine: tracks the bytes accumulated across chunk
//! boundaries and whether the underlying stream has ended. The state moves
//! one way only: `Empty` to `Partial` to `EosPartial` (or `Empty` straight to
//! `EosPartial` for a stream with no chunks), never backward.
use vstd::prelude::*;

use bytes::Bytes;
use bytes_utils::SegmentedBuf;

use crate::segments::{bytes_seq, segbuf_bytes, segbuf_new, segbuf_push, segbuf_remaining};

verus! {

/// Wrapper around `SegmentedBuf` that tracks the state of the stream.
#[derive(Debug)]
pub enum RecvBuf {
    /// Nothing has been buffered yet.
    Empty,
    /// Some data has been buffered; the stream has not ended.
    Partial(SegmentedBuf<Bytes>),
    /// The end of the stream has been reached; there may still be buffered data.
    EosPartial(SegmentedBuf<Bytes>),
}

impl RecvBuf {
    /// The bytes currently buffered and not yet consumed.
    pub open spec fn bytes(self) -> Seq<u8> {
        match self {
            RecvBuf::Empty => Seq::<u8>::empty(),
            RecvBuf::Partial(segments) => segbuf_bytes(segments),
            RecvBuf::EosPartial(segments) => segbuf_bytes(segments),
        }
    }

    /// Whether the stream has signalled completion.
    pub open spec fn is_eos_spec(self) -> bool {
        self is EosPartial
    }

    /// Returns true if there's more buffered data.
    pub fn has_data(&self) -> (r: bool)
        ensures
            r == (self.bytes().len() > 0),
    {
        match self {
            RecvBuf::Empty => false,
            RecvBuf::Partial(segments) => segbuf_remaining(segments) > 0,
            RecvBuf::EosPartial(segments) => segbuf_remaining(segments) > 0,
        }
    }

    /// Returns true if the stream has ended.
    pub fn is_eos(&self) -> (r: bool)
        ensures
            r == self.is_eos_spec(),
    {
        match self {
            RecvBuf::EosPartial(_) => true,
            _ => false,
        }
    }

    /// Returns a new `RecvBuf` with additional data buffered. Appending after
    /// the end of the stream is a contract violation, so the caller must show
    /// the stream has not ended.
    pub fn with_partial(self, partial: Bytes) -> (r: Self)
        requires
            !self.is_eos_spec(),
            self.bytes().len() + bytes_seq(partial).len() <= usize::MAX,
        ensures
            !r.is_eos_spec(),
            r.bytes() == self.bytes() + bytes_seq(partial),
    {
        match self {
            RecvBuf::Empty => {
                let mut segments = segbuf_new();
                segbuf_push(&mut segments, partial);
                RecvBuf::Partial(segments)
            },
            RecvBuf::Partial(mut segments) => {
                segbuf_push(&mut segments, partial);
                RecvBuf::Partial(segments)
            },
            RecvBuf::EosPartial(_) => vstd::pervasive::unreached(),
        }
    }

    /// Returns a `RecvBuf` that has reached end of stream, preserving the
    /// buffered bytes. Marking an already ended stream is a contract violation.
    pub fn ended(self) -> (r: Self)
        requires
            !self.is_eos_spec(),
        ensures
            r.is_eos_spec(),
            r.bytes() == self.bytes(),
    {
        match self {
            RecvBuf::Empty => RecvBuf::EosPartial(segbuf_new()),
            RecvBuf::Partial(segments) => RecvBuf::EosPartial(segments),
            RecvBuf::EosPartial(_) => vstd::pervasive::unreached(),
        }
    }
}

} // verus!

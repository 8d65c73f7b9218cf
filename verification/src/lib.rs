//! A streaming receiver for event-stream protocols: it reassembles
//! self-delimiting message frames out of a byte stream that arrives as
//! arbitrarily split chunks, and yields typed application events (or typed
//! application errors) one at a time.
//!
//! The receiver is driven without any I/O of its own: when it needs more
//! input it answers `NeedsChunk`, and the caller hands the next chunk, the
//! end of the stream, or a transport failure back in through the `feed_*`
//! operations. Frame decoding and typed unmarshalling are done by the
//! `aws-smithy-eventstream` crate behind a small set of trusted wrappers.
#![allow(unused_imports)]

pub mod buffer;
pub mod frames;
pub mod headers;
pub mod laws;
pub mod receiver;
pub mod segments;
pub mod unmarshall;

pub use receiver::{DecodeError, Error, InitialPoll, RawMessage, Receiver, RecvError, RecvPoll};
pub use unmarshall::{Unmarshall, UnmarshalledMessage};

//! The receiver: owns the buffer state, performs the decode step against the
//! already-buffered bytes, classifies every failure, and exposes the ordinary
//! receive operation and the initial-response peek.
//!
//! The receiver does no I/O. When a receive step answers `NeedsChunk`, the
//! driver pulls the next chunk from its transport and hands the outcome back
//! through `feed_chunk`, `feed_eos` or `feed_failure`, then asks again.
use vstd::prelude::*;

use aws_smithy_eventstream::frame::MessageFrameDecoder;
use aws_smithy_types::event_stream::Message;
use bytes::Bytes;

use crate::buffer::RecvBuf;
use crate::frames::{
    decode_step, decoder_new, decoder_stash, frame_complete, frame_invalid, frame_msg, frame_size,
    DecodedFrame,
};
use crate::headers::{is_initial_headers, is_initial_message, message_headers};
use crate::segments::{bytes_seq, segbuf_take_all};
use crate::unmarshall::{Unmarshall, UnmarshalledMessage};

verus! {

/// The receiver's own framing error.
#[derive(Debug)]
pub enum Error {
    /// The stream ended before a complete message frame was received.
    UnexpectedEndOfStream,
}

impl Error {
    /// A human-readable description of the error.
    pub fn message(&self) -> (r: String)
        ensures
            r@ == "unexpected end of stream"@,
    {
        "unexpected end of stream".to_owned()
    }
}

/// Raw diagnostic payload attached to a decode-classified failure.
#[derive(Debug)]
pub enum RawMessage {
    /// The message was decoded into a valid frame, but failed to unmarshall
    /// into a modeled type.
    Decoded(Message),
    /// The bytes failed to decode into a valid frame. The raw bytes may not
    /// be available when the failed decode consumed them.
    Invalid(Option<Bytes>),
}

/// Why bytes could not be turned into a typed event.
#[derive(Debug)]
pub enum DecodeError {
    /// The frame decoder or the unmarshaller rejected the bytes.
    Frame(aws_smithy_eventstream::error::Error),
    /// The stream ended while a partial frame remained buffered.
    Stream(Error),
}

/// A failure surfaced by the receiver, classified so that callers can react
/// differently to each kind.
#[derive(Debug)]
pub enum RecvError<E, D> {
    /// Pulling the next chunk failed; retry policy is the caller's business.
    Transport(D),
    /// The bytes could not be decoded and unmarshalled into a typed event.
    Decode(DecodeError, RawMessage),
    /// The frame unmarshalled into a service-modeled error; further frames
    /// remain retrievable.
    Modeled(E, Message),
}

/// What one ordinary receive step produced.
#[derive(Debug)]
pub enum RecvPoll<T> {
    /// The next typed event.
    Item(T),
    /// Clean end of stream: nothing buffered and no more input will come.
    Finished,
    /// More input is needed: feed a chunk, the end of the stream, or a
    /// transport failure, then ask again.
    NeedsChunk,
}

/// What one initial-response peek step produced.
#[derive(Debug)]
pub enum InitialPoll {
    /// The first frame was the distinguished initial response.
    Found(Message),
    /// The first frame was not an initial response (the next ordinary receive
    /// hands it back), or the stream ended first.
    NotFound,
    /// More input is needed before the first frame can be decoded.
    NeedsChunk,
}

/// How a decoded message surfaces to the caller: an event becomes an item, a
/// modeled error fails the call but not the stream, and an unmarshalling
/// failure is classified as a decode error carrying the frame.
pub open spec fn unmarshal_outcome<T, E, D>(
    m: Message,
    out: Result<UnmarshalledMessage<T, E>, aws_smithy_eventstream::error::Error>,
) -> Result<RecvPoll<T>, RecvError<E, D>> {
    match out {
        Ok(UnmarshalledMessage::Event(t)) => Ok(RecvPoll::Item(t)),
        Ok(UnmarshalledMessage::Error(e)) => Err(RecvError::Modeled(e, m)),
        Err(err) => Err(RecvError::Decode(DecodeError::Frame(err), RawMessage::Decoded(m))),
    }
}

/// What the pull-decode step found.
enum NextFrame {
    /// A complete frame was decoded from the buffered bytes.
    Frame(Message),
    /// Clean end of stream.
    EndOfStream,
    /// More input is needed.
    NeedsChunk,
}

/// Receives typed messages out of an event stream delivered as chunks.
#[derive(Debug)]
pub struct Receiver<U: Unmarshall, D> {
    unmarshaller: U,
    decoder: MessageFrameDecoder,
    buffer: RecvBuf,
    /// A frame pulled by `try_recv_initial` that was not an initial response;
    /// the next `recv` hands it back before pulling anything new.
    buffered_message: Option<Message>,
    /// A transport failure fed by the driver, surfaced by the next receive.
    failure: Option<D>,
}

impl<U: Unmarshall, D> Receiver<U, D> {
    /// The bytes buffered and not yet consumed, beyond what the decoder holds.
    pub closed spec fn buffered_bytes(self) -> Seq<u8> {
        self.buffer.bytes()
    }

    /// The prelude bytes the frame decoder holds in its own state.
    pub closed spec fn stash(self) -> Seq<u8> {
        decoder_stash(self.decoder)
    }

    /// All fed bytes not yet turned into frames.
    pub open spec fn pending(self) -> Seq<u8> {
        self.stash() + self.buffered_bytes()
    }

    /// Whether the stream has signalled completion.
    pub closed spec fn ended(self) -> bool {
        self.buffer.is_eos_spec()
    }

    /// The frame held back by an initial-response peek, if any.
    pub closed spec fn peeked(self) -> Option<Message> {
        self.buffered_message
    }

    /// The transport failure not yet surfaced, if any.
    pub closed spec fn failed(self) -> Option<D> {
        self.failure
    }

    /// The unmarshaller this receiver types events with.
    pub closed spec fn um(self) -> U {
        self.unmarshaller
    }

    /// What this receiver's unmarshaller returns for a message.
    pub open spec fn unmarshal_of(self, m: Message) -> Result<
        UnmarshalledMessage<U::Output, U::Error>,
        aws_smithy_eventstream::error::Error,
    > {
        self.um().unmarshall_spec(m)
    }

    /// Creates a new `Receiver` with the given message unmarshaller. It holds
    /// no bytes, no peeked frame and no failure, and the stream is not ended.
    pub fn new(unmarshaller: U) -> (r: Self)
        ensures
            r.pending() == Seq::<u8>::empty(),
            r.buffered_bytes() == Seq::<u8>::empty(),
            !r.ended(),
            r.peeked() is None,
            r.failed() is None,
            r.um() == unmarshaller,
    {
        let r = Receiver {
            unmarshaller,
            decoder: decoder_new(),
            buffer: RecvBuf::Empty,
            buffered_message: None,
            failure: None,
        };
        proof {
            assert(r.pending() =~= Seq::<u8>::empty());
        }
        r
    }

    /// Buffers the next chunk of the stream. Appending after the end of the
    /// stream is a contract violation, so the stream must not have ended.
    pub fn feed_chunk(&mut self, chunk: Bytes)
        requires
            !old(self).ended(),
            old(self).buffered_bytes().len() + bytes_seq(chunk).len() <= usize::MAX,
        ensures
            !final(self).ended(),
            final(self).buffered_bytes() == old(self).buffered_bytes() + bytes_seq(chunk),
            final(self).pending() == old(self).pending() + bytes_seq(chunk),
            final(self).peeked() == old(self).peeked(),
            final(self).failed() == old(self).failed(),
            final(self).um() == old(self).um(),
    {
        let mut buf = RecvBuf::Empty;
        core::mem::swap(&mut self.buffer, &mut buf);
        self.buffer = buf.with_partial(chunk);
        proof {
            assert(self.pending() =~= old(self).pending() + bytes_seq(chunk));
        }
    }

    /// Records that the stream has ended cleanly; the buffered bytes stay as
    /// they are. Marking twice is a contract violation.
    pub fn feed_eos(&mut self)
        requires
            !old(self).ended(),
        ensures
            final(self).ended(),
            final(self).buffered_bytes() == old(self).buffered_bytes(),
            final(self).pending() == old(self).pending(),
            final(self).peeked() == old(self).peeked(),
            final(self).failed() == old(self).failed(),
            final(self).um() == old(self).um(),
    {
        let mut buf = RecvBuf::Empty;
        core::mem::swap(&mut self.buffer, &mut buf);
        self.buffer = buf.ended();
    }

    /// Records that pulling the next chunk failed; the very next receive
    /// surfaces the failure as a transport error, exactly once.
    pub fn feed_failure(&mut self, err: D)
        requires
            !old(self).ended(),
            old(self).failed() is None,
        ensures
            final(self).failed() == Some(err),
            final(self).ended() == old(self).ended(),
            final(self).buffered_bytes() == old(self).buffered_bytes(),
            final(self).pending() == old(self).pending(),
            final(self).peeked() == old(self).peeked(),
            final(self).um() == old(self).um(),
    {
        self.failure = Some(err);
    }

    /// Unmarshalls one decoded frame and classifies the outcome.
    fn unmarshall(&self, message: Message) -> (r: Result<
        RecvPoll<U::Output>,
        RecvError<U::Error, D>,
    >)
        ensures
            r == unmarshal_outcome::<U::Output, U::Error, D>(message, self.unmarshal_of(message)),
    {
        match self.unmarshaller.unmarshall(&message) {
            Ok(UnmarshalledMessage::Event(event)) => Ok(RecvPoll::Item(event)),
            Ok(UnmarshalledMessage::Error(err)) => Err(RecvError::Modeled(err, message)),
            Err(err) => Err(
                RecvError::Decode(DecodeError::Frame(err), RawMessage::Decoded(message)),
            ),
        }
    }

    /// One pull-decode step: decode a frame from the buffered bytes if one is
    /// complete, ask for more input if not, and classify truncation and
    /// framing failures.
    fn next_message(&mut self) -> (r: Result<NextFrame, RecvError<U::Error, D>>)
        ensures
            final(self).um() == old(self).um(),
            final(self).peeked() == old(self).peeked(),
            final(self).failed() == old(self).failed(),
            final(self).ended() == old(self).ended(),
            (!old(self).ended() && old(self).buffered_bytes().len() == 0) ==> r == Ok::<NextFrame, RecvError<U::Error, D>>(
                NextFrame::NeedsChunk,
            ) && final(self).pending() == old(self).pending() && final(self).buffered_bytes() == old(
                self,
            ).buffered_bytes(),
            (!old(self).ended() && old(self).buffered_bytes().len() > 0) ==> (if frame_complete(
                old(self).pending(),
            ) {
                r == Ok::<NextFrame, RecvError<U::Error, D>>(NextFrame::Frame(frame_msg(old(self).pending()))) && final(self).pending() == old(
                    self,
                ).pending().skip(frame_size(old(self).pending()))
            } else if frame_invalid(old(self).pending()) {
                r matches Err(
                    RecvError::Decode(DecodeError::Frame(_), RawMessage::Invalid(None)),
                )
            } else {
                r == Ok::<NextFrame, RecvError<U::Error, D>>(NextFrame::NeedsChunk) && final(self).pending() == old(self).pending()
            }),
            (old(self).ended() && old(self).buffered_bytes().len() > 0) ==> (r matches Err(
                RecvError::Decode(
                    DecodeError::Stream(Error::UnexpectedEndOfStream),
                    RawMessage::Invalid(Some(raw)),
                ),
            ) && bytes_seq(raw) == old(self).buffered_bytes() && old(self).stash() + bytes_seq(raw)
                == old(self).pending() && final(self).buffered_bytes().len() == 0),
            (old(self).ended() && old(self).buffered_bytes().len() == 0) ==> r == Ok::<NextFrame, RecvError<U::Error, D>>(
                NextFrame::EndOfStream,
            ) && *final(self) == *old(self),
    {
        if !self.buffer.is_eos() {
            if self.buffer.has_data() {
                let mut buf = RecvBuf::Empty;
                core::mem::swap(&mut self.buffer, &mut buf);
                match buf {
                    RecvBuf::Partial(mut segments) => {
                        let step = decode_step(&mut self.decoder, &mut segments);
                        self.buffer = RecvBuf::Partial(segments);
                        match step {
                            Ok(DecodedFrame::Complete(message)) => {
                                proof {
                                    assert(Seq::<u8>::empty() + self.buffered_bytes()
                                        =~= self.buffered_bytes());
                                }
                                Ok(NextFrame::Frame(message))
                            },
                            Ok(DecodedFrame::Incomplete) => Ok(NextFrame::NeedsChunk),
                            Err(err) => Err(
                                RecvError::Decode(
                                    DecodeError::Frame(err),
                                    RawMessage::Invalid(None),
                                ),
                            ),
                        }
                    },
                    _ => vstd::pervasive::unreached(),
                }
            } else {
                Ok(NextFrame::NeedsChunk)
            }
        } else {
            if self.buffer.has_data() {
                let mut buf = RecvBuf::Empty;
                core::mem::swap(&mut self.buffer, &mut buf);
                match buf {
                    RecvBuf::EosPartial(mut segments) => {
                        let raw = segbuf_take_all(&mut segments);
                        self.buffer = RecvBuf::EosPartial(segments);
                        Err(
                            RecvError::Decode(
                                DecodeError::Stream(Error::UnexpectedEndOfStream),
                                RawMessage::Invalid(Some(raw)),
                            ),
                        )
                    },
                    _ => vstd::pervasive::unreached(),
                }
            } else {
                Ok(NextFrame::EndOfStream)
            }
        }
    }

    /// One step of the ordinary receive operation.
    ///
    /// A frame held back by an earlier peek is consumed first, before anything
    /// new is pulled; a recorded transport failure is surfaced next; otherwise
    /// one pull-decode step runs: a complete buffered frame is unmarshalled
    /// and classified, a clean end of stream answers `Finished` (and keeps
    /// doing so), a truncated stream fails with `UnexpectedEndOfStream`, and
    /// `NeedsChunk` asks the driver for more input.
    pub fn recv(&mut self) -> (r: Result<RecvPoll<U::Output>, RecvError<U::Error, D>>)
        ensures
            final(self).um() == old(self).um(),
            old(self).peeked() matches Some(m) ==> final(self).peeked() is None && final(self).pending() == old(
                self,
            ).pending() && final(self).buffered_bytes() == old(self).buffered_bytes() && final(self).ended()
                == old(self).ended() && final(self).failed() == old(self).failed() && r
                == unmarshal_outcome::<U::Output, U::Error, D>(m, old(self).unmarshal_of(m)),
            old(self).peeked() is None ==> (old(self).failed() matches Some(d) ==> r == Err::<RecvPoll<U::Output>, RecvError<U::Error, D>>(
                RecvError::Transport(d),
            ) && final(self).failed() is None && final(self).peeked() is None && final(self).pending() == old(
                self,
            ).pending() && final(self).buffered_bytes() == old(self).buffered_bytes() && final(self).ended()
                == old(self).ended()),
            (old(self).peeked() is None && old(self).failed() is None) ==> final(self).peeked() is None
                && final(self).failed() is None && final(self).ended() == old(self).ended() && (
            (!old(self).ended() && old(self).buffered_bytes().len() == 0) ==> r == Ok::<RecvPoll<U::Output>, RecvError<U::Error, D>>(
                RecvPoll::NeedsChunk,
            ) && final(self).pending() == old(self).pending() && final(self).buffered_bytes() == old(
                self,
            ).buffered_bytes()) && ((!old(self).ended() && old(self).buffered_bytes().len() > 0)
                ==> (if frame_complete(old(self).pending()) {
                ({
                    let m = frame_msg(old(self).pending());
                    r == unmarshal_outcome::<U::Output, U::Error, D>(m, old(self).unmarshal_of(m))
                        && final(self).pending() == old(self).pending().skip(
                        frame_size(old(self).pending()),
                    )
                })
            } else if frame_invalid(old(self).pending()) {
                r matches Err(
                    RecvError::Decode(DecodeError::Frame(_), RawMessage::Invalid(None)),
                )
            } else {
                r == Ok::<RecvPoll<U::Output>, RecvError<U::Error, D>>(RecvPoll::NeedsChunk) && final(self).pending() == old(self).pending()
            })) && ((old(self).ended() && old(self).buffered_bytes().len() > 0) ==> (r matches Err(
                RecvError::Decode(
                    DecodeError::Stream(Error::UnexpectedEndOfStream),
                    RawMessage::Invalid(Some(raw)),
                ),
            ) && bytes_seq(raw) == old(self).buffered_bytes() && old(self).stash() + bytes_seq(raw)
                == old(self).pending() && final(self).buffered_bytes().len() == 0)) && ((old(self).ended()
                && old(self).buffered_bytes().len() == 0) ==> r == Ok::<RecvPoll<U::Output>, RecvError<U::Error, D>>(RecvPoll::Finished) && *final(self)
                == *old(self)),
    {
        let buffered = self.buffered_message.take();
        if let Some(message) = buffered {
            return self.unmarshall(message);
        }
        let failed = self.failure.take();
        if let Some(err) = failed {
            return Err(RecvError::Transport(err));
        }
        match self.next_message() {
            Ok(NextFrame::Frame(message)) => self.unmarshall(message),
            Ok(NextFrame::EndOfStream) => Ok(RecvPoll::Finished),
            Ok(NextFrame::NeedsChunk) => Ok(RecvPoll::NeedsChunk),
            Err(err) => Err(err),
        }
    }

    /// Tries to receive the distinguished initial-response frame.
    ///
    /// One frame is pulled as in `recv`. If it carries an `:event-type` header
    /// whose string value is `initial-response`, it is returned as found;
    /// otherwise it is held back and handed to the very next `recv`, before
    /// any new frame is pulled. Peeking is meant to happen at most once,
    /// before any ordinary receive: peeking while a frame is already held
    /// back is a contract violation.
    pub fn try_recv_initial(&mut self) -> (r: Result<InitialPoll, RecvError<U::Error, D>>)
        requires
            old(self).peeked() is None,
        ensures
            final(self).um() == old(self).um(),
            old(self).failed() matches Some(d) ==> r == Err::<InitialPoll, RecvError<U::Error, D>>(RecvError::Transport(d))
                && final(self).failed() is None && final(self).peeked() is None && final(self).pending() == old(
                self,
            ).pending() && final(self).buffered_bytes() == old(self).buffered_bytes() && final(self).ended()
                == old(self).ended(),
            old(self).failed() is None ==> final(self).failed() is None && final(self).ended() == old(
                self,
            ).ended() && ((!old(self).ended() && old(self).buffered_bytes().len() == 0) ==> r == Ok::<InitialPoll, RecvError<U::Error, D>>(
                InitialPoll::NeedsChunk,
            ) && final(self).pending() == old(self).pending() && final(self).buffered_bytes() == old(
                self,
            ).buffered_bytes() && final(self).peeked() is None) && ((!old(self).ended() && old(
                self,
            ).buffered_bytes().len() > 0) ==> (if frame_complete(old(self).pending()) {
                ({
                    let m = frame_msg(old(self).pending());
                    final(self).pending() == old(self).pending().skip(frame_size(old(self).pending()))
                        && (if is_initial_headers(message_headers(m)) {
                        r == Ok::<InitialPoll, RecvError<U::Error, D>>(InitialPoll::Found(m)) && final(self).peeked() is None
                    } else {
                        r == Ok::<InitialPoll, RecvError<U::Error, D>>(InitialPoll::NotFound) && final(self).peeked() == Some(m)
                    })
                })
            } else if frame_invalid(old(self).pending()) {
                r matches Err(
                    RecvError::Decode(DecodeError::Frame(_), RawMessage::Invalid(None)),
                )
            } else {
                r == Ok::<InitialPoll, RecvError<U::Error, D>>(InitialPoll::NeedsChunk) && final(self).pending() == old(self).pending()
                    && final(self).peeked() is None
            })) && ((old(self).ended() && old(self).buffered_bytes().len() > 0) ==> (r matches Err(
                RecvError::Decode(
                    DecodeError::Stream(Error::UnexpectedEndOfStream),
                    RawMessage::Invalid(Some(raw)),
                ),
            ) && bytes_seq(raw) == old(self).buffered_bytes() && final(self).peeked() is None)) && ((old(
                self,
            ).ended() && old(self).buffered_bytes().len() == 0) ==> r == Ok::<InitialPoll, RecvError<U::Error, D>>(InitialPoll::NotFound)
                && final(self).pending() == old(self).pending() && final(self).peeked() is None),
    {
        let failed = self.failure.take();
        if let Some(err) = failed {
            return Err(RecvError::Transport(err));
        }
        match self.next_message() {
            Ok(NextFrame::Frame(message)) => {
                if is_initial_message(&message) {
                    Ok(InitialPoll::Found(message))
                } else {
                    self.buffered_message = Some(message);
                    Ok(InitialPoll::NotFound)
                }
            },
            Ok(NextFrame::EndOfStream) => Ok(InitialPoll::NotFound),
            Ok(NextFrame::NeedsChunk) => Ok(InitialPoll::NeedsChunk),
            Err(err) => Err(err),
        }
    }
}

} // verus!

use std::collections::VecDeque;
use std::io::Error as IOError;
use std::io::ErrorKind;

use aws_smithy_eventstream::error::Error as EventStreamError;
use aws_smithy_eventstream::frame::write_message_to;
use aws_smithy_types::event_stream::{Header, HeaderValue, Message};
use bytes::Bytes;

use event_stream_recv::{
    DecodeError, Error, InitialPoll, RawMessage, Receiver, RecvError, RecvPoll, Unmarshall,
    UnmarshalledMessage,
};

fn encode_message(message: &str) -> Bytes {
    let mut buffer = Vec::new();
    write_message_to(
        &Message::new(Bytes::copy_from_slice(message.as_bytes())),
        &mut buffer,
    )
    .unwrap();
    buffer.into()
}

fn encode_initial_response() -> Bytes {
    let mut buffer = Vec::new();
    write_message_to(
        &Message::new(Bytes::new())
            .add_header(Header::new(
                ":message-type",
                HeaderValue::String("event".into()),
            ))
            .add_header(Header::new(
                ":event-type",
                HeaderValue::String("initial-response".into()),
            )),
        &mut buffer,
    )
    .unwrap();
    buffer.into()
}

#[derive(Debug, Eq, PartialEq)]
struct TestMessage(String);

#[derive(Debug)]
struct Unmarshaller;

impl Unmarshall for Unmarshaller {
    type Output = TestMessage;
    type Error = EventStreamError;

    fn unmarshall(
        &self,
        message: &Message,
    ) -> Result<UnmarshalledMessage<TestMessage, EventStreamError>, EventStreamError> {
        Ok(UnmarshalledMessage::Event(TestMessage(
            std::str::from_utf8(&message.payload()[..]).unwrap().into(),
        )))
    }
}

type Chunks = VecDeque<Result<Bytes, IOError>>;
type TestError = RecvError<EventStreamError, IOError>;

fn chunk_queue(chunks: Vec<Result<Bytes, IOError>>) -> Chunks {
    chunks.into_iter().collect()
}

fn feed_next<U: Unmarshall>(receiver: &mut Receiver<U, IOError>, chunks: &mut Chunks) {
    match chunks.pop_front() {
        Some(Ok(chunk)) => receiver.feed_chunk(chunk),
        Some(Err(err)) => receiver.feed_failure(err),
        None => receiver.feed_eos(),
    }
}

fn drive<U: Unmarshall>(
    receiver: &mut Receiver<U, IOError>,
    chunks: &mut Chunks,
) -> Result<Option<U::Output>, RecvError<U::Error, IOError>> {
    loop {
        match receiver.recv() {
            Ok(RecvPoll::Item(item)) => return Ok(Some(item)),
            Ok(RecvPoll::Finished) => return Ok(None),
            Ok(RecvPoll::NeedsChunk) => feed_next(receiver, chunks),
            Err(err) => return Err(err),
        }
    }
}

fn drive_initial<U: Unmarshall>(
    receiver: &mut Receiver<U, IOError>,
    chunks: &mut Chunks,
) -> Result<Option<Message>, RecvError<U::Error, IOError>> {
    loop {
        match receiver.try_recv_initial() {
            Ok(InitialPoll::Found(message)) => return Ok(Some(message)),
            Ok(InitialPoll::NotFound) => return Ok(None),
            Ok(InitialPoll::NeedsChunk) => feed_next(receiver, chunks),
            Err(err) => return Err(err),
        }
    }
}

#[test]
fn receive_success() {
    let mut chunks = chunk_queue(vec![Ok(encode_message("one")), Ok(encode_message("two"))]);
    let mut receiver = Receiver::<Unmarshaller, IOError>::new(Unmarshaller);
    assert_eq!(
        TestMessage("one".into()),
        drive(&mut receiver, &mut chunks).unwrap().unwrap()
    );
    assert_eq!(
        TestMessage("two".into()),
        drive(&mut receiver, &mut chunks).unwrap().unwrap()
    );
    assert_eq!(None, drive(&mut receiver, &mut chunks).unwrap());
}

#[test]
fn receive_last_chunk_empty() {
    let mut chunks = chunk_queue(vec![
        Ok(encode_message("one")),
        Ok(encode_message("two")),
        Ok(Bytes::from_static(&[])),
    ]);
    let mut receiver = Receiver::<Unmarshaller, IOError>::new(Unmarshaller);
    assert_eq!(
        TestMessage("one".into()),
        drive(&mut receiver, &mut chunks).unwrap().unwrap()
    );
    assert_eq!(
        TestMessage("two".into()),
        drive(&mut receiver, &mut chunks).unwrap().unwrap()
    );
    assert_eq!(None, drive(&mut receiver, &mut chunks).unwrap());
}

#[test]
fn receive_last_chunk_not_full_message() {
    let partial = {
        let mut three = encode_message("three");
        three.split_to(10)
    };
    let mut chunks = chunk_queue(vec![
        Ok(encode_message("one")),
        Ok(encode_message("two")),
        Ok(partial),
    ]);
    let mut receiver = Receiver::<Unmarshaller, IOError>::new(Unmarshaller);
    assert_eq!(
        TestMessage("one".into()),
        drive(&mut receiver, &mut chunks).unwrap().unwrap()
    );
    assert_eq!(
        TestMessage("two".into()),
        drive(&mut receiver, &mut chunks).unwrap().unwrap()
    );
    assert!(matches!(
        drive(&mut receiver, &mut chunks),
        Err(RecvError::Decode(
            DecodeError::Stream(Error::UnexpectedEndOfStream),
            RawMessage::Invalid(Some(_)),
        )),
    ));
}

#[test]
fn receive_last_chunk_has_multiple_messages() {
    let mut chunks = chunk_queue(vec![
        Ok(encode_message("one")),
        Ok(encode_message("two")),
        Ok(Bytes::from(
            [encode_message("three"), encode_message("four")].concat(),
        )),
    ]);
    let mut receiver = Receiver::<Unmarshaller, IOError>::new(Unmarshaller);
    assert_eq!(
        TestMessage("one".into()),
        drive(&mut receiver, &mut chunks).unwrap().unwrap()
    );
    assert_eq!(
        TestMessage("two".into()),
        drive(&mut receiver, &mut chunks).unwrap().unwrap()
    );
    assert_eq!(
        TestMessage("three".into()),
        drive(&mut receiver, &mut chunks).unwrap().unwrap()
    );
    assert_eq!(
        TestMessage("four".into()),
        drive(&mut receiver, &mut chunks).unwrap().unwrap()
    );
    assert_eq!(None, drive(&mut receiver, &mut chunks).unwrap());
}

#[test]
fn receive_network_failure() {
    let mut chunks = chunk_queue(vec![
        Ok(encode_message("one")),
        Err(IOError::new(ErrorKind::ConnectionReset, "fake error")),
    ]);
    let mut receiver = Receiver::<Unmarshaller, IOError>::new(Unmarshaller);
    assert_eq!(
        TestMessage("one".into()),
        drive(&mut receiver, &mut chunks).unwrap().unwrap()
    );
    assert!(matches!(
        drive(&mut receiver, &mut chunks),
        Err(RecvError::Transport(_)),
    ));
}

#[test]
fn receive_message_parse_failure() {
    // A zero-length message is invalid; a minimum of 12 bytes is needed for
    // the frame decoder to start parsing at all.
    let mut chunks = chunk_queue(vec![
        Ok(encode_message("one")),
        Ok(Bytes::from_static(&[0, 0, 0, 0, 0, 0, 0, 0, 0, 0, 0, 0])),
    ]);
    let mut receiver = Receiver::<Unmarshaller, IOError>::new(Unmarshaller);
    assert_eq!(
        TestMessage("one".into()),
        drive(&mut receiver, &mut chunks).unwrap().unwrap()
    );
    assert!(matches!(
        drive(&mut receiver, &mut chunks),
        Err(RecvError::Decode(DecodeError::Frame(_), RawMessage::Invalid(None))),
    ));
}

#[test]
fn receive_initial_response() {
    let mut chunks = chunk_queue(vec![Ok(encode_initial_response()), Ok(encode_message("one"))]);
    let mut receiver = Receiver::<Unmarshaller, IOError>::new(Unmarshaller);
    assert!(drive_initial(&mut receiver, &mut chunks).unwrap().is_some());
    assert_eq!(
        TestMessage("one".into()),
        drive(&mut receiver, &mut chunks).unwrap().unwrap()
    );
}

#[test]
fn receive_no_initial_response() {
    let mut chunks = chunk_queue(vec![Ok(encode_message("one")), Ok(encode_message("two"))]);
    let mut receiver = Receiver::<Unmarshaller, IOError>::new(Unmarshaller);
    assert!(drive_initial(&mut receiver, &mut chunks).unwrap().is_none());
    assert_eq!(
        TestMessage("one".into()),
        drive(&mut receiver, &mut chunks).unwrap().unwrap()
    );
    assert_eq!(
        TestMessage("two".into()),
        drive(&mut receiver, &mut chunks).unwrap().unwrap()
    );
}

#[test]
fn unexpected_end_of_stream_message() {
    assert_eq!(
        "unexpected end of stream",
        Error::UnexpectedEndOfStream.message()
    );
}

fn assert_send<T: Send>() {}

#[test]
fn receiver_is_send() {
    assert_send::<Receiver<Unmarshaller, IOError>>();
}

#[test]
fn uneven_chunk_boundaries_redeliver_exactly() {
    // Frames for "one", "two", "three" encoded back to back, then split at
    // byte offsets 10 and 23 — both mid-frame.
    let combined = Bytes::from(
        [
            encode_message("one"),
            encode_message("two"),
            encode_message("three"),
        ]
        .concat(),
    );
    let mut chunks = chunk_queue(vec![
        Ok(combined.slice(0..10)),
        Ok(combined.slice(10..23)),
        Ok(combined.slice(23..)),
    ]);
    let mut receiver = Receiver::<Unmarshaller, IOError>::new(Unmarshaller);
    for payload in ["one", "two", "three"] {
        assert_eq!(
            TestMessage(payload.into()),
            drive(&mut receiver, &mut chunks).unwrap().unwrap()
        );
    }
    assert_eq!(None, drive(&mut receiver, &mut chunks).unwrap());
}

#[test]
fn receive_empty_stream() {
    let mut chunks = chunk_queue(vec![]);
    let mut receiver = Receiver::<Unmarshaller, IOError>::new(Unmarshaller);
    assert_eq!(None, drive(&mut receiver, &mut chunks).unwrap());
    // The terminal state is idempotent: asking again keeps answering "done".
    assert_eq!(None, drive(&mut receiver, &mut chunks).unwrap());
}

/// Unmarshaller that treats the payload "bad" as a service-modeled error.
#[derive(Debug)]
struct ModeledErrorUnmarshaller;

impl Unmarshall for ModeledErrorUnmarshaller {
    type Output = TestMessage;
    type Error = String;

    fn unmarshall(
        &self,
        message: &Message,
    ) -> Result<UnmarshalledMessage<TestMessage, String>, EventStreamError> {
        let payload: String = std::str::from_utf8(&message.payload()[..]).unwrap().into();
        if payload == "bad" {
            Ok(UnmarshalledMessage::Error(payload))
        } else {
            Ok(UnmarshalledMessage::Event(TestMessage(payload)))
        }
    }
}

#[test]
fn modeled_error_leaves_stream_usable() {
    let mut chunks = chunk_queue(vec![Ok(encode_message("bad")), Ok(encode_message("one"))]);
    let mut receiver = Receiver::<ModeledErrorUnmarshaller, IOError>::new(ModeledErrorUnmarshaller);
    match drive(&mut receiver, &mut chunks) {
        Err(RecvError::Modeled(err, raw)) => {
            assert_eq!("bad", err);
            assert_eq!(&b"bad"[..], &raw.payload()[..]);
        }
        other => panic!("expected a modeled error, got {:?}", other.is_ok()),
    }
    // Further frames are still retrievable after a modeled error.
    assert_eq!(
        TestMessage("one".into()),
        drive(&mut receiver, &mut chunks).unwrap().unwrap()
    );
    assert_eq!(None, drive(&mut receiver, &mut chunks).unwrap());
}

/// Unmarshaller that fails on every frame, as a schema mismatch would.
#[derive(Debug)]
struct FailingUnmarshaller;

impl Unmarshall for FailingUnmarshaller {
    type Output = TestMessage;
    type Error = String;

    fn unmarshall(
        &self,
        _message: &Message,
    ) -> Result<UnmarshalledMessage<TestMessage, String>, EventStreamError> {
        Err(EventStreamError::unmarshalling("no shape matched"))
    }
}

#[test]
fn unmarshall_failure_carries_decoded_frame() {
    let mut chunks = chunk_queue(vec![Ok(encode_message("one"))]);
    let mut receiver = Receiver::<FailingUnmarshaller, IOError>::new(FailingUnmarshaller);
    match drive(&mut receiver, &mut chunks) {
        Err(RecvError::Decode(DecodeError::Frame(_), RawMessage::Decoded(message))) => {
            assert_eq!(&b"one"[..], &message.payload()[..]);
        }
        other => panic!("expected a decode-classified error, got {:?}", other.is_ok()),
    }
}

#[test]
fn initial_response_split_across_chunks() {
    let encoded = encode_initial_response();
    let mid = encoded.len() / 2;
    let mut chunks = chunk_queue(vec![
        Ok(encoded.slice(0..mid)),
        Ok(encoded.slice(mid..)),
        Ok(encode_message("one")),
    ]);
    let mut receiver = Receiver::<Unmarshaller, IOError>::new(Unmarshaller);
    assert!(drive_initial(&mut receiver, &mut chunks).unwrap().is_some());
    assert_eq!(
        TestMessage("one".into()),
        drive(&mut receiver, &mut chunks).unwrap().unwrap()
    );
}

#[test]
fn peeked_frame_returned_before_new_pull() {
    // A non-initial first frame answers NotFound and is handed back, intact,
    // by the next ordinary receive — not a newly pulled one.
    let mut chunks = chunk_queue(vec![Ok(encode_message("one")), Ok(encode_message("two"))]);
    let mut receiver = Receiver::<Unmarshaller, IOError>::new(Unmarshaller);
    assert!(drive_initial(&mut receiver, &mut chunks).unwrap().is_none());
    // The very first receive step answers with the held-back frame: nothing
    // further is fed before it comes back.
    match receiver.recv() {
        Ok(RecvPoll::Item(item)) => assert_eq!(TestMessage("one".into()), item),
        _ => panic!("expected the peeked frame to come back first"),
    }
    assert_eq!(
        TestMessage("two".into()),
        drive(&mut receiver, &mut chunks).unwrap().unwrap()
    );
    assert_eq!(None, drive(&mut receiver, &mut chunks).unwrap());
}

//! Reading a message's headers: the receiver only ever asks one question of
//! them — whether the frame is the distinguished initial response, marked by
//! an `:event-type` header whose string value is `initial-response`.
use vstd::prelude::*;

use aws_smithy_types::event_stream::Message;

verus! {

/// The headers a message carries: for each, its name and, when its value is a
/// string, that string.
pub uninterp spec fn message_headers(m: Message) -> Seq<(Seq<char>, Option<Seq<char>>)>;

/// The header name that carries a frame's event type.
pub open spec fn event_type_name() -> Seq<char> {
    ":event-type"@
}

/// The event type that marks the distinguished initial-response frame.
pub open spec fn initial_response_marker() -> Seq<char> {
    "initial-response"@
}

/// The value of the first header named `:event-type`: `None` when no header
/// carries that name, `Some(None)` when one does but its value is not a
/// string, and `Some(Some(s))` when its value is the string `s`.
pub open spec fn find_event_type(headers: Seq<(Seq<char>, Option<Seq<char>>)>) -> Option<
    Option<Seq<char>>,
>
    decreases headers.len(),
{
    if headers.len() == 0 {
        None
    } else if headers[0].0 == event_type_name() {
        Some(headers[0].1)
    } else {
        find_event_type(headers.skip(1))
    }
}

/// Whether a frame with these headers is the distinguished initial response.
pub open spec fn is_initial_headers(headers: Seq<(Seq<char>, Option<Seq<char>>)>) -> bool {
    find_event_type(headers) == Some(Some(initial_response_marker()))
}

/// Relies on `Message::headers`: the number of headers on the message.
#[verifier::external_body]
pub(crate) fn message_header_count(m: &Message) -> (r: usize)
    ensures
        r == message_headers(*m).len(),
{
    m.headers().len()
}

/// Relies on `Message::headers`, `Header::name` and `HeaderValue::as_string`:
/// hands out header `i` as plain values — its name, and its value when that
/// value is a string.
#[verifier::external_body]
pub(crate) fn message_header_at(m: &Message, i: usize) -> (r: (String, Option<String>))
    requires
        i < message_headers(*m).len(),
    ensures
        r.0@ == message_headers(*m)[i as int].0,
        (match r.1 {
            Some(v) => Some(v@),
            None => None,
        }) == message_headers(*m)[i as int].1,
{
    let header = &m.headers()[i];
    let name = header.name().as_str().to_string();
    let value = match header.value().as_string() {
        Ok(s) => Some(s.as_str().to_string()),
        Err(_) => None,
    };
    (name, value)
}

/// Whether the message carries an `:event-type` header naming it the
/// distinguished initial response.
pub fn is_initial_message(m: &Message) -> (r: bool)
    ensures
        r == is_initial_headers(message_headers(*m)),
{
    let ghost hs = message_headers(*m);
    let n = message_header_count(m);
    let event_type: String = ":event-type".to_owned();
    let marker: String = "initial-response".to_owned();
    let mut i: usize = 0;
    proof {
        assert(hs.skip(0) =~= hs);
    }
    while i < n
        invariant
            i <= n,
            n == hs.len(),
            hs == message_headers(*m),
            event_type@ == event_type_name(),
            marker@ == initial_response_marker(),
            find_event_type(hs) == find_event_type(hs.skip(i as int)),
        decreases n - i,
    {
        let (name, value) = message_header_at(m, i);
        proof {
            assert(hs.skip(i as int)[0] == hs[i as int]);
            assert(hs.skip(i as int).len() > 0);
        }
        if name == event_type {
            match value {
                Some(v) => {
                    proof {
                        assert(find_event_type(hs.skip(i as int)) == Some(hs[i as int].1));
                    }
                    return v == marker;
                },
                None => {
                    proof {
                        assert(find_event_type(hs.skip(i as int)) == Some(hs[i as int].1));
                    }
                    return false;
                },
            }
        }
        proof {
            assert(hs.skip(i as int).skip(1) =~= hs.skip(i as int + 1));
        }
        i = i + 1;
    }
    proof {
        assert(hs.skip(n as int) =~= Seq::<(Seq<char>, Option<Seq<char>>)>::empty());
    }
    false
}

} // verus!

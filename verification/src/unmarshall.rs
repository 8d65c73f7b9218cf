//! The unmarshalling capability: turning a decoded message into a typed
//! application event or a typed, service-modeled error. Implementations are
//! supplied by the user of this library; the receiver only relies on an
//! implementation returning what its own specification function says.
use vstd::prelude::*;

use aws_smithy_types::event_stream::Message;

verus! {

/// A successfully unmarshalled message: either a typed event or a typed,
/// service-modeled error.
#[derive(Debug)]
pub enum UnmarshalledMessage<T, E> {
    /// A typed application event.
    Event(T),
    /// A service-modeled error event.
    Error(E),
}

/// Converts a decoded message into a typed event, a modeled error, or an
/// unmarshalling failure when the message matches no expected shape.
pub trait Unmarshall: Sized {
    /// The typed event this unmarshaller produces.
    type Output;

    /// The modeled error this unmarshaller produces.
    type Error;

    /// What this unmarshaller returns for a given message. The default leaves
    /// it unspecified; an implementation written inside the verifier overrides
    /// it with what its `unmarshall` really returns, and is held to that.
    open spec fn unmarshall_spec(&self, message: Message) -> Result<
        UnmarshalledMessage<Self::Output, Self::Error>,
        aws_smithy_eventstream::error::Error,
    > {
        vstd::pervasive::arbitrary()
    }

    /// Unmarshalls one message; the result is exactly what `unmarshall_spec`
    /// says for it.
    fn unmarshall(&self, message: &Message) -> (r: Result<
        UnmarshalledMessage<Self::Output, Self::Error>,
        aws_smithy_eventstream::error::Error,
    >)
        ensures
            r == self.unmarshall_spec(*message),
    ;
}

} // verus!

//! Topics: a name known to the brokers, bound to one payload type that has
//! a codec.

use vstd::prelude::*;

verus! {

/// A payload could not be turned into bytes, or bytes could not be turned
/// into a payload.
#[derive(Debug, PartialEq, Eq)]
pub struct SerializationError {
    /// What the codec reported.
    pub message: String,
}

/// The pair of conversions that carries a payload over the wire. JSON is
/// the usual choice; any pair that round-trips will do.
pub trait Codec: Sized {
    /// The payload as bytes, or why it has none.
    fn encode(&self) -> Result<Vec<u8>, SerializationError>;

    /// The payload that the bytes stand for, or why they stand for none.
    fn decode(bytes: &[u8]) -> Result<Self, SerializationError>;
}

/// A named channel of messages that all carry one type of payload.
///
/// A topic is a plain value that can be copied freely; a copy stands for
/// the same topic. Its name is resolved by a method, so that it can be
/// composed from what the value holds, such as a session's id.
pub trait Topic: Clone {
    /// What every message of the topic carries.
    type Payload: Codec;

    /// The name under which the brokers know the topic.
    fn topic_string(&self) -> String;
}

/// `name` is what a call of `topic_string` on `topic` returned, or may
/// return.
pub open spec fn resolves_to<T: Topic>(topic: T, name: String) -> bool {
    call_ensures(T::topic_string, (&topic,), name)
}

/// `outcome` is what a call of `encode` on `payload` returned, or may
/// return.
pub open spec fn encodes<P: Codec>(payload: P, outcome: Result<Vec<u8>, SerializationError>) -> bool {
    call_ensures(P::encode, (&payload,), outcome)
}

/// `outcome` is what a call of `decode` on these bytes returned, or may
/// return.
pub open spec fn decodes<P: Codec>(bytes: Seq<u8>, outcome: Result<P, SerializationError>) -> bool {
    exists|raw: &[u8]| raw@ == bytes && #[trigger] call_ensures(P::decode, (raw,), outcome)
}

} // verus!

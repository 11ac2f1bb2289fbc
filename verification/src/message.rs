//! Received messages, seen through the topic they came from.

use crate::topic::{decodes, Codec, SerializationError, Topic};
use rdkafka::message::OwnedHeaders;
use rdkafka::Timestamp;
use vstd::prelude::*;

verus! {

/// `rdkafka::Timestamp`, the timestamp of a message. A message carries it
/// and hands it out; nothing is read from inside it.
#[verifier::external_type_specification]
#[verifier::external_body]
pub struct ExTimestamp(Timestamp);

/// `rdkafka::message::OwnedHeaders`, the headers of a message. A message
/// carries them and hands them out; nothing is read from inside them.
#[verifier::external_type_specification]
#[verifier::external_body]
pub struct ExOwnedHeaders(OwnedHeaders);

/// A message as the broker client hands it over: the raw key and payload,
/// and where and when the message was written.
#[derive(Debug)]
pub struct RawMessage {
    pub key: Option<Vec<u8>>,
    pub payload: Option<Vec<u8>>,
    pub partition: i32,
    pub offset: i64,
    pub timestamp: Timestamp,
    pub headers: Option<OwnedHeaders>,
}

/// One received message together with the topic it was received from.
///
/// The message holds the raw key and payload as they arrived. The payload
/// is decoded when it is asked for, not when the message is made.
pub struct TypedMessage<T> {
    topic: T,
    raw: RawMessage,
}

/// What a message holds.
pub ghost struct MessageView<T> {
    pub topic: T,
    pub key: Option<Seq<u8>>,
    pub payload: Option<Seq<u8>>,
    pub partition: i32,
    pub offset: i64,
    pub timestamp: Timestamp,
    pub headers: Option<OwnedHeaders>,
}

/// The bytes of an optional buffer.
pub open spec fn bytes_of(buffer: Option<Vec<u8>>) -> Option<Seq<u8>> {
    match buffer {
        Some(bytes) => Some(bytes@),
        None => None,
    }
}

/// What a message holds when it is made of `raw` for `topic`.
pub open spec fn message_of<T>(topic: T, raw: RawMessage) -> MessageView<T> {
    MessageView {
        topic,
        key: bytes_of(raw.key),
        payload: bytes_of(raw.payload),
        partition: raw.partition,
        offset: raw.offset,
        timestamp: raw.timestamp,
        headers: raw.headers,
    }
}

/// What a message's payload is, given what decoding its raw payload gave:
/// no payload where there was no raw payload, the decoded payload where
/// decoding succeeded, and the codec's error where it failed.
pub open spec fn payload_of<P>(decoded: Option<Result<P, SerializationError>>) -> Result<
    Option<P>,
    SerializationError,
> {
    match decoded {
        None => Ok(None),
        Some(Ok(payload)) => Ok(Some(payload)),
        Some(Err(error)) => Err(error),
    }
}

/// Turns the outcome of decoding a raw payload, if there was one, into the
/// message's payload.
pub fn decoded_payload<P>(decoded: Option<Result<P, SerializationError>>) -> (payload: Result<
    Option<P>,
    SerializationError,
>)
    ensures
        payload == payload_of(decoded),
{
    match decoded {
        None => Ok(None),
        Some(Ok(payload)) => Ok(Some(payload)),
        Some(Err(error)) => Err(error),
    }
}

impl<T: Topic> View for TypedMessage<T> {
    type V = MessageView<T>;

    closed spec fn view(&self) -> MessageView<T> {
        message_of(self.topic, self.raw)
    }
}

impl<T: Topic> TypedMessage<T> {
    /// The message that `raw` is, received from `topic`. Nothing is
    /// decoded yet.
    pub fn new(topic: T, raw: RawMessage) -> (message: Self)
        ensures
            message@ == message_of(topic, raw),
    {
        TypedMessage { topic, raw }
    }

    /// The raw key, if the message has one.
    pub fn key(&self) -> (key: Option<&[u8]>)
        ensures
            match key {
                Some(bytes) => self@.key == Some(bytes@),
                None => self@.key is None,
            },
    {
        match &self.raw.key {
            Some(bytes) => Some(bytes.as_slice()),
            None => None,
        }
    }

    /// The payload, decoded by the codec of the topic's payload type.
    ///
    /// A message without a raw payload has no payload. Bytes that the codec
    /// does not accept give the codec's error, never an absent payload.
    pub fn payload(&self) -> (payload: Result<Option<T::Payload>, SerializationError>)
        ensures
            self@.payload is None ==> payload == payload_of::<T::Payload>(None),
            self@.payload is Some ==> exists|outcome: Result<T::Payload, SerializationError>|
                #[trigger] decodes::<T::Payload>(self@.payload->0, outcome) && payload == payload_of(
                    Some(outcome),
                ),
            (payload matches Ok(None)) <==> self@.payload is None,
    {
        match &self.raw.payload {
            Some(bytes) => {
                let outcome = T::Payload::decode(bytes.as_slice());
                assert(decodes::<T::Payload>(self@.payload->0, outcome));
                decoded_payload(Some(outcome))
            },
            None => decoded_payload(None),
        }
    }

    /// The topic that the message was received from.
    pub fn topic(&self) -> (topic: &T)
        ensures
            *topic == self@.topic,
    {
        &self.topic
    }

    /// The partition that the message was read from.
    pub fn partition(&self) -> (partition: i32)
        ensures
            partition == self@.partition,
    {
        self.raw.partition
    }

    /// The message's offset in its partition.
    pub fn offset(&self) -> (offset: i64)
        ensures
            offset == self@.offset,
    {
        self.raw.offset
    }

    /// The message's timestamp.
    pub fn timestamp(&self) -> (timestamp: Timestamp)
        ensures
            timestamp == self@.timestamp,
    {
        self.raw.timestamp
    }

    /// The message's headers, if it has any.
    pub fn headers(&self) -> (headers: Option<&OwnedHeaders>)
        ensures
            match headers {
                Some(found) => self@.headers == Some(*found),
                None => self@.headers is None,
            },
    {
        match &self.raw.headers {
            Some(found) => Some(found),
            None => None,
        }
    }
}

} // verus!

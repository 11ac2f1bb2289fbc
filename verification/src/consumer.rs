//! What a typed consumer decides: the one subscription it is made with,
//! and what it hands out for each thing that arrives.

use crate::message::{message_of, RawMessage, TypedMessage};
use crate::topic::{resolves_to, Topic};
use rdkafka::error::KafkaError;
use vstd::prelude::*;

verus! {

/// What a consumer bound to `topic` hands out for `next`, given that
/// `made` is the result: for a raw message, the typed message that holds
/// it together with a copy of the topic; for a failure of the broker
/// client, that failure as it came.
pub open spec fn is_received<T: Topic>(
    topic: T,
    next: Result<RawMessage, KafkaError>,
    made: Result<TypedMessage<T>, KafkaError>,
) -> bool {
    match next {
        Ok(raw) => made is Ok && cloned(topic, made->Ok_0@.topic) && made->Ok_0@ == message_of(
            made->Ok_0@.topic,
            raw,
        ),
        Err(error) => made is Err && made->Err_0 == error,
    }
}

/// The topic names that a consumer bound to `topic` subscribes to when it
/// is made: the topic's resolved name and no other.
pub fn subscription<T: Topic>(topic: &T) -> (names: Vec<String>)
    ensures
        names@.len() == 1,
        resolves_to(*topic, names@[0]),
{
    let mut names: Vec<String> = Vec::new();
    names.push(topic.topic_string());
    names
}

/// Turns what the broker client delivered next into what the consumer
/// hands out. Each delivery stands alone: a failure is passed on and does
/// not end the stream.
pub fn received<T: Topic>(topic: &T, next: Result<RawMessage, KafkaError>) -> (made: Result<
    TypedMessage<T>,
    KafkaError,
>)
    ensures
        is_received(*topic, next, made),
{
    match next {
        Ok(raw) => Ok(TypedMessage::new(topic.clone(), raw)),
        Err(error) => Err(error),
    }
}

} // verus!

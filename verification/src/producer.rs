//! What a typed producer decides: the record that is handed to the broker
//! client for a payload, and what the caller is told afterwards.

use crate::error::SendError;
use crate::topic::{encodes, resolves_to, Codec, SerializationError, Topic};
use rdkafka::error::KafkaError;
use vstd::prelude::*;

verus! {

/// A record ready to be published: the resolved topic name, the encoded
/// payload and the key. Without a key the brokers choose the partition.
#[derive(Debug, PartialEq, Eq)]
pub struct OutgoingRecord {
    pub topic: String,
    pub payload: Vec<u8>,
    pub key: Option<String>,
}

/// What a record holds.
pub ghost struct RecordView {
    pub topic: Seq<char>,
    pub payload: Seq<u8>,
    pub key: Option<Seq<char>>,
}

impl View for OutgoingRecord {
    type V = RecordView;

    open spec fn view(&self) -> RecordView {
        RecordView { topic: self.topic@, payload: self.payload@, key: key_text(self.key) }
    }
}

/// The text of an optional key.
pub open spec fn key_text(key: Option<String>) -> Option<Seq<char>> {
    match key {
        Some(text) => Some(text@),
        None => None,
    }
}

/// The record for a topic name, the outcome of encoding the payload, and
/// a key: the three together where encoding succeeded, and otherwise the
/// codec's error as a serialization failure.
pub open spec fn record_of(
    name: Seq<char>,
    encoded: Result<Vec<u8>, SerializationError>,
    key: Option<Seq<char>>,
) -> Result<RecordView, SendError> {
    match encoded {
        Ok(bytes) => Ok(RecordView { topic: name, payload: bytes@, key }),
        Err(error) => Err(SendError::Serialization(error)),
    }
}

/// Whether `made` is the record, or the error, that `expected` describes.
pub open spec fn is_record(
    made: Result<OutgoingRecord, SendError>,
    expected: Result<RecordView, SendError>,
) -> bool {
    match made {
        Ok(record) => expected == Ok::<RecordView, SendError>(record@),
        Err(error) => expected == Err::<RecordView, SendError>(error),
    }
}

/// What the caller of a send is told, given what the broker client
/// reported: its value on success, its error as a broker failure otherwise.
pub open spec fn outcome_of<D>(sent: Result<D, KafkaError>) -> Result<D, SendError> {
    match sent {
        Ok(delivery) => Ok(delivery),
        Err(error) => Err(SendError::Broker(error)),
    }
}

/// Makes the record from a resolved topic name, the outcome of encoding
/// the payload, and the key.
pub fn record_from(
    name: String,
    encoded: Result<Vec<u8>, SerializationError>,
    key: Option<String>,
) -> (made: Result<OutgoingRecord, SendError>)
    ensures
        is_record(made, record_of(name@, encoded, key_text(key))),
{
    match encoded {
        Ok(payload) => Ok(OutgoingRecord { topic: name, payload, key }),
        Err(error) => Err(SendError::Serialization(error)),
    }
}

/// Makes the record that publishes `payload` under `topic`: encodes the
/// payload with its codec and resolves the topic's name. The result
/// is what `record_from` makes of the two outcomes and the key, so a
/// payload that does not encode gives a serialization failure and no
/// record.
pub fn outgoing_record<T: Topic>(topic: &T, payload: &T::Payload, key: Option<String>) -> (made:
    Result<OutgoingRecord, SendError>)
    ensures
        exists|name: String, encoded: Result<Vec<u8>, SerializationError>|
            #[trigger] resolves_to(*topic, name) && #[trigger] encodes(*payload, encoded)
                && is_record(made, record_of(name@, encoded, key_text(key))),
{
    let encoded = payload.encode();
    let name = topic.topic_string();
    assert(resolves_to(*topic, name) && encodes(*payload, encoded));
    record_from(name, encoded, key)
}

/// Turns what the broker client reported for a send into what the caller
/// is told. A failure is always passed on, never dropped.
pub fn delivery_outcome<D>(sent: Result<D, KafkaError>) -> (outcome: Result<D, SendError>)
    ensures
        outcome == outcome_of(sent),
{
    match sent {
        Ok(delivery) => Ok(delivery),
        Err(error) => Err(SendError::Broker(error)),
    }
}

} // verus!

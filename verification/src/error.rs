//! What can go wrong between this layer and the brokers, by kind.

use crate::topic::SerializationError;
use rdkafka::error::{KafkaError, RDKafkaErrorCode};
use vstd::prelude::*;

verus! {

/// `rdkafka::error::KafkaError`, an error of the broker client. It is
/// passed on to the caller as it came; nothing is read from inside it.
#[verifier::external_type_specification]
#[verifier::external_body]
pub struct ExKafkaError(KafkaError);

/// `rdkafka::error::RDKafkaErrorCode`, the brokers' code for one failure.
/// It is passed on to the caller as it came.
#[verifier::external_type_specification]
#[verifier::external_body]
pub struct ExRDKafkaErrorCode(RDKafkaErrorCode);

/// Why a payload was not sent.
#[derive(Debug, PartialEq, Eq)]
pub enum SendError {
    /// The payload has no encoding under the topic's codec. Nothing was
    /// handed to the broker client.
    Serialization(SerializationError),
    /// The broker client reported a failure: a timeout, a lost connection
    /// or the like. The error is passed on as it came.
    Broker(KafkaError),
}

/// Why a topic was not created.
#[derive(Debug, PartialEq, Eq)]
pub enum AdminError {
    /// The request as a whole failed in the broker client. The error is
    /// passed on as it came.
    Broker(KafkaError),
    /// The brokers answered and refused this topic, for instance because
    /// it exists already.
    Topic { name: String, code: RDKafkaErrorCode },
    /// The brokers answered without a result for the topic.
    NoResult,
}

} // verus!

//! What a typed administrative client decides: the request that creates a
//! topic, and what the brokers' answer means.

use crate::error::AdminError;
use crate::topic::{resolves_to, Topic};
use rdkafka::admin::TopicReplication;
use rdkafka::error::{KafkaError, RDKafkaErrorCode};
use vstd::prelude::*;

verus! {

/// `rdkafka::admin::TopicReplication`, how a new topic is replicated. A
/// request carries it to the broker client; nothing is read from inside
/// it.
#[verifier::external_type_specification]
#[verifier::external_body]
pub struct ExTopicReplication<'a>(TopicReplication<'a>);

/// A request to create one topic.
pub struct NewTopicRequest<'a> {
    pub name: String,
    pub num_partitions: i32,
    pub replication: TopicReplication<'a>,
}

/// The brokers' answer for one topic: its name, and the error code where
/// the topic was refused.
pub type TopicAnswer = Result<String, (String, RDKafkaErrorCode)>;

/// What an answer to a request for one topic means. A failure of the whole
/// request is a broker failure. Otherwise the first result counts: the
/// topic was created, or it was refused with the brokers' code.
pub open spec fn creation_of(answer: Result<Vec<TopicAnswer>, KafkaError>) -> Result<
    (),
    AdminError,
> {
    match answer {
        Err(error) => Err(AdminError::Broker(error)),
        Ok(results) => if results@.len() == 0 {
            Err(AdminError::NoResult)
        } else {
            match results@[0] {
                Ok(_) => Ok(()),
                Err((name, code)) => Err(AdminError::Topic { name, code }),
            }
        },
    }
}

/// The request that creates `topic` with the given number of partitions
/// and replication: it names the topic by its resolved name.
pub fn new_topic_request<'a, T: Topic>(
    topic: &T,
    num_partitions: i32,
    replication: TopicReplication<'a>,
) -> (request: NewTopicRequest<'a>)
    ensures
        resolves_to(*topic, request.name),
        request.num_partitions == num_partitions,
        request.replication == replication,
{
    NewTopicRequest { name: topic.topic_string(), num_partitions, replication }
}

/// Reads the brokers' answer to a request for one topic. A refusal, such
/// as that of a topic that exists already, is reported with the topic's
/// name and the brokers' code.
pub fn creation_outcome(answer: Result<Vec<TopicAnswer>, KafkaError>) -> (outcome: Result<
    (),
    AdminError,
>)
    ensures
        outcome == creation_of(answer),
{
    match answer {
        Err(error) => Err(AdminError::Broker(error)),
        Ok(results) => {
            let mut results = results;
            if results.len() == 0 {
                Err(AdminError::NoResult)
            } else {
                match results.remove(0) {
                    Ok(_) => Ok(()),
                    Err((name, code)) => Err(AdminError::Topic { name, code }),
                }
            }
        },
    }
}

} // verus!

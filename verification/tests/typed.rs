use rdkafka::admin::TopicReplication;
use rdkafka::error::{KafkaError, RDKafkaErrorCode};
use rdkafka::message::{Header, Headers, OwnedHeaders};
use rdkafka::Timestamp;

use typed_kafka::admin::{creation_outcome, new_topic_request};
use typed_kafka::consumer::{received, subscription};
use typed_kafka::error::{AdminError, SendError};
use typed_kafka::message::{decoded_payload, RawMessage};
use typed_kafka::producer::{delivery_outcome, outgoing_record, record_from, OutgoingRecord};
use typed_kafka::topic::{Codec, SerializationError};
use typed_kafka::{Topic, TypedMessage};

#[derive(Debug, PartialEq)]
enum Update {
    Thing1,
    Thing2,
    Unspeakable,
}

#[derive(Clone, Debug, PartialEq)]
struct SessionTopic {
    id: String,
}

impl Topic for SessionTopic {
    type Payload = Update;

    fn topic_string(&self) -> String {
        format!("session:{}", self.id)
    }
}

impl Codec for Update {
    fn encode(&self) -> Result<Vec<u8>, SerializationError> {
        let name = match self {
            Update::Thing1 => "Thing1",
            Update::Thing2 => "Thing2",
            Update::Unspeakable => {
                return Err(SerializationError {
                    message: String::from("no encoding"),
                })
            }
        };
        serde_json::to_vec(name).map_err(|error| SerializationError {
            message: error.to_string(),
        })
    }

    fn decode(bytes: &[u8]) -> Result<Update, SerializationError> {
        let name: String = serde_json::from_slice(bytes).map_err(|error| SerializationError {
            message: error.to_string(),
        })?;
        match name.as_str() {
            "Thing1" => Ok(Update::Thing1),
            "Thing2" => Ok(Update::Thing2),
            other => Err(SerializationError {
                message: format!("unknown variant `{}`", other),
            }),
        }
    }
}

#[derive(Debug, PartialEq)]
struct Readings(Vec<i64>);

impl Codec for Readings {
    fn encode(&self) -> Result<Vec<u8>, SerializationError> {
        serde_json::to_vec(&self.0).map_err(|error| SerializationError {
            message: error.to_string(),
        })
    }

    fn decode(bytes: &[u8]) -> Result<Readings, SerializationError> {
        serde_json::from_slice(bytes)
            .map(Readings)
            .map_err(|error| SerializationError {
                message: error.to_string(),
            })
    }
}

#[derive(Clone, Debug, PartialEq)]
struct SensorTopic;

impl Topic for SensorTopic {
    type Payload = Readings;

    fn topic_string(&self) -> String {
        String::from("sensor")
    }
}

fn session(id: &str) -> SessionTopic {
    SessionTopic { id: id.to_string() }
}

fn delivered(
    topic: &SessionTopic,
    record: OutgoingRecord,
    partition: i32,
    offset: i64,
) -> TypedMessage<SessionTopic> {
    let raw = RawMessage {
        key: record.key.map(String::into_bytes),
        payload: Some(record.payload),
        partition,
        offset,
        timestamp: Timestamp::CreateTime(1),
        headers: None,
    };
    received(topic, Ok(raw)).unwrap()
}

#[test]
fn codec_round_trip() {
    for payload in [Update::Thing1, Update::Thing2] {
        let bytes = payload.encode().unwrap();
        assert_eq!(Update::decode(&bytes), Ok(payload));
    }
    for payload in [
        Readings(Vec::new()),
        Readings(vec![0]),
        Readings(vec![i64::MIN, -1, 0, 1, i64::MAX]),
    ] {
        let bytes = payload.encode().unwrap();
        assert_eq!(Readings::decode(&bytes), Ok(payload));
    }
}

#[test]
fn json_payload_through_a_message() {
    let record = outgoing_record(&SensorTopic, &Readings(vec![3, -4]), None).unwrap();
    assert_eq!(record.topic, "sensor");
    assert_eq!(record.payload, b"[3,-4]".to_vec());
    let message = TypedMessage::new(
        SensorTopic,
        RawMessage {
            key: None,
            payload: Some(record.payload),
            partition: 0,
            offset: 7,
            timestamp: Timestamp::NotAvailable,
            headers: None,
        },
    );
    assert_eq!(message.payload(), Ok(Some(Readings(vec![3, -4]))));
    let broken = TypedMessage::new(
        SensorTopic,
        RawMessage {
            key: None,
            payload: Some(b"[3,".to_vec()),
            partition: 0,
            offset: 8,
            timestamp: Timestamp::NotAvailable,
            headers: None,
        },
    );
    assert!(broken.payload().is_err());
}

#[test]
fn record_carries_name_payload_and_key() {
    let topic = session("abc");
    let record = outgoing_record(&topic, &Update::Thing1, Some(String::from("k"))).unwrap();
    assert_eq!(record.topic, "session:abc");
    assert_eq!(record.payload, b"\"Thing1\"".to_vec());
    assert_eq!(record.key, Some(String::from("k")));
}

#[test]
fn record_without_key() {
    let topic = session("s2d54f");
    let record = outgoing_record(&topic, &Update::Thing2, None).unwrap();
    assert_eq!(
        record,
        OutgoingRecord {
            topic: String::from("session:s2d54f"),
            payload: b"\"Thing2\"".to_vec(),
            key: None,
        }
    );
}

#[test]
fn payload_that_does_not_encode_is_a_serialization_failure() {
    let topic = session("abc");
    let made = outgoing_record(&topic, &Update::Unspeakable, None);
    assert_eq!(
        made,
        Err(SendError::Serialization(SerializationError {
            message: String::from("no encoding"),
        }))
    );
}

#[test]
fn record_from_an_encoding_outcome() {
    let made = record_from(String::from("t"), Ok(vec![1, 2, 3]), Some(String::from("k")));
    assert_eq!(
        made,
        Ok(OutgoingRecord {
            topic: String::from("t"),
            payload: vec![1, 2, 3],
            key: Some(String::from("k")),
        })
    );
    let failed = record_from(
        String::from("t"),
        Err(SerializationError {
            message: String::from("bad"),
        }),
        None,
    );
    assert_eq!(
        failed,
        Err(SendError::Serialization(SerializationError {
            message: String::from("bad"),
        }))
    );
}

#[test]
fn broker_failure_is_passed_on() {
    let timed_out = KafkaError::MessageProduction(RDKafkaErrorCode::MessageTimedOut);
    assert_eq!(
        delivery_outcome::<()>(Err(timed_out.clone())),
        Err(SendError::Broker(timed_out))
    );
    assert_eq!(delivery_outcome(Ok((3, 14))), Ok((3, 14)));
}

#[test]
fn send_then_receive() {
    let config = typed_kafka::builders::ConsumerConfigBuilder::new()
        .group_id("g1")
        .auto_offset_reset(typed_kafka::builders::types::Reset::Earliest)
        .build();
    assert_eq!(config.get("group.id"), Some("g1"));
    assert_eq!(config.get("auto.offset.reset"), Some("earliest"));

    let topic = session("abc");
    assert_eq!(subscription(&topic), vec![String::from("session:abc")]);

    let record = outgoing_record(&topic, &Update::Thing1, None).unwrap();
    assert_eq!(record.topic, "session:abc");

    let message = delivered(&topic, record, 0, 0);
    assert_eq!(message.payload(), Ok(Some(Update::Thing1)));
    assert_eq!(message.key(), None);
    assert!(message.partition() >= 0);
    assert_eq!(message.topic().topic_string(), topic.topic_string());
}

#[test]
fn key_survives_delivery() {
    let topic = session("abc");
    let record = outgoing_record(&topic, &Update::Thing2, Some(String::from("user:7"))).unwrap();
    let message = delivered(&topic, record, 2, 41);
    assert_eq!(message.key(), Some("user:7".as_bytes()));
    assert_eq!(message.payload(), Ok(Some(Update::Thing2)));
    assert_eq!(message.partition(), 2);
    assert_eq!(message.offset(), 41);
}

#[test]
fn message_accessors_read_what_was_received() {
    let headers = OwnedHeaders::new().insert(Header {
        key: "trace",
        value: Some("t-1"),
    });
    let message = TypedMessage::new(
        session("abc"),
        RawMessage {
            key: Some(vec![1, 2]),
            payload: Some(b"\"Thing1\"".to_vec()),
            partition: 5,
            offset: 99,
            timestamp: Timestamp::LogAppendTime(1700000000000),
            headers: Some(headers),
        },
    );
    assert_eq!(message.key(), Some(&[1u8, 2u8][..]));
    assert_eq!(message.topic(), &session("abc"));
    assert_eq!(message.partition(), 5);
    assert_eq!(message.offset(), 99);
    assert_eq!(message.timestamp(), Timestamp::LogAppendTime(1700000000000));
    let found = message.headers().unwrap();
    assert_eq!(found.count(), 1);
    assert_eq!(found.get(0).key, "trace");
    assert_eq!(found.get(0).value, Some("t-1".as_bytes()));
    assert_eq!(message.payload(), Ok(Some(Update::Thing1)));
}

#[test]
fn message_without_payload_has_none() {
    let message = TypedMessage::new(
        session("abc"),
        RawMessage {
            key: None,
            payload: None,
            partition: 0,
            offset: 0,
            timestamp: Timestamp::NotAvailable,
            headers: None,
        },
    );
    assert_eq!(message.payload(), Ok(None));
    assert_eq!(message.key(), None);
    assert!(message.headers().is_none());
    assert_eq!(message.timestamp(), Timestamp::NotAvailable);
}

#[test]
fn malformed_payload_is_an_error_not_an_absent_payload() {
    let not_json = TypedMessage::new(
        session("abc"),
        RawMessage {
            key: None,
            payload: Some(b"{not json".to_vec()),
            partition: 0,
            offset: 0,
            timestamp: Timestamp::NotAvailable,
            headers: None,
        },
    );
    let outcome = not_json.payload();
    assert!(outcome.is_err());
    assert_ne!(outcome, Ok(None));

    let wrong_type = TypedMessage::new(
        session("abc"),
        RawMessage {
            key: None,
            payload: Some(b"17".to_vec()),
            partition: 0,
            offset: 0,
            timestamp: Timestamp::NotAvailable,
            headers: None,
        },
    );
    assert!(wrong_type.payload().is_err());

    let unknown = TypedMessage::new(
        session("abc"),
        RawMessage {
            key: None,
            payload: Some(b"\"Thing3\"".to_vec()),
            partition: 0,
            offset: 0,
            timestamp: Timestamp::NotAvailable,
            headers: None,
        },
    );
    assert_eq!(
        unknown.payload(),
        Err(SerializationError {
            message: String::from("unknown variant `Thing3`"),
        })
    );

    let empty = TypedMessage::new(
        session("abc"),
        RawMessage {
            key: None,
            payload: Some(Vec::new()),
            partition: 0,
            offset: 0,
            timestamp: Timestamp::NotAvailable,
            headers: None,
        },
    );
    assert!(empty.payload().is_err());
}

#[test]
fn received_message_is_bound_to_a_copy_of_the_topic() {
    let topic = session("abc");
    let raw = RawMessage {
        key: Some(b"k".to_vec()),
        payload: Some(b"\"Thing2\"".to_vec()),
        partition: 1,
        offset: 12,
        timestamp: Timestamp::CreateTime(1700000000000),
        headers: None,
    };
    let message = received(&topic, Ok(raw)).unwrap();
    assert_eq!(message.topic(), &topic);
    assert_eq!(message.topic().topic_string(), "session:abc");
    assert_eq!(message.key(), Some("k".as_bytes()));
    assert_eq!(message.payload(), Ok(Some(Update::Thing2)));
    assert_eq!(message.partition(), 1);
    assert_eq!(message.offset(), 12);
    assert_eq!(message.timestamp(), Timestamp::CreateTime(1700000000000));
}

#[test]
fn failed_delivery_is_passed_on() {
    let topic = session("abc");
    let failure = KafkaError::MessageConsumption(RDKafkaErrorCode::BrokerTransportFailure);
    match received(&topic, Err(failure.clone())) {
        Err(error) => assert_eq!(error, failure),
        Ok(_) => panic!("a failure became a message"),
    }
}

#[test]
fn decoded_payload_of_each_outcome() {
    assert_eq!(decoded_payload::<Update>(None), Ok(None));
    assert_eq!(
        decoded_payload(Some(Ok(Update::Thing1))),
        Ok(Some(Update::Thing1))
    );
    assert_eq!(
        decoded_payload::<Update>(Some(Err(SerializationError {
            message: String::from("bad"),
        }))),
        Err(SerializationError {
            message: String::from("bad"),
        })
    );
}

#[test]
fn consumer_subscribes_to_the_resolved_name_only() {
    assert_eq!(subscription(&session("")), vec![String::from("session:")]);
    assert_eq!(
        subscription(&session("asdflkj")),
        vec![String::from("session:asdflkj")]
    );
}

#[test]
fn topic_request_names_the_resolved_topic() {
    let request = new_topic_request(&session("abc"), 3, TopicReplication::Fixed(2));
    assert_eq!(request.name, "session:abc");
    assert_eq!(request.num_partitions, 3);
    assert!(matches!(request.replication, TopicReplication::Fixed(2)));
}

#[test]
fn topic_request_keeps_a_replica_assignment() {
    let first: &[i32] = &[1, 2];
    let second: &[i32] = &[2, 3];
    let assignment = [first, second];
    let request = new_topic_request(&session("abc"), 2, TopicReplication::Variable(&assignment));
    assert_eq!(request.num_partitions, 2);
    match request.replication {
        TopicReplication::Variable(kept) => assert_eq!(kept, &assignment[..]),
        TopicReplication::Fixed(_) => panic!("the assignment was replaced"),
    }
}

#[test]
fn created_topic_is_a_success() {
    assert_eq!(
        creation_outcome(Ok(vec![Ok(String::from("session:abc"))])),
        Ok(())
    );
}

#[test]
fn second_creation_reports_that_the_topic_exists() {
    let first = creation_outcome(Ok(vec![Ok(String::from("session:abc"))]));
    assert_eq!(first, Ok(()));
    let second = creation_outcome(Ok(vec![Err((
        String::from("session:abc"),
        RDKafkaErrorCode::TopicAlreadyExists,
    ))]));
    assert_eq!(
        second,
        Err(AdminError::Topic {
            name: String::from("session:abc"),
            code: RDKafkaErrorCode::TopicAlreadyExists,
        })
    );
}

#[test]
fn refused_topic_keeps_the_brokers_code() {
    let outcome = creation_outcome(Ok(vec![
        Err((
            String::from("session:abc"),
            RDKafkaErrorCode::InvalidReplicationFactor,
        )),
        Ok(String::from("other")),
    ]));
    assert_eq!(
        outcome,
        Err(AdminError::Topic {
            name: String::from("session:abc"),
            code: RDKafkaErrorCode::InvalidReplicationFactor,
        })
    );
}

#[test]
fn failed_request_is_a_broker_failure() {
    let outcome = creation_outcome(Err(KafkaError::AdminOp(RDKafkaErrorCode::RequestTimedOut)));
    assert_eq!(
        outcome,
        Err(AdminError::Broker(KafkaError::AdminOp(
            RDKafkaErrorCode::RequestTimedOut
        )))
    );
}

#[test]
fn answer_without_results_is_reported() {
    assert_eq!(creation_outcome(Ok(Vec::new())), Err(AdminError::NoResult));
}

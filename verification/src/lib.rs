//! A typed publish/subscribe layer in front of a Kafka client.
//!
//! `builders` assembles the connection configuration of a producer, a
//! consumer or an administrative client from named options. `topic` binds
//! a topic's name to one payload type and its codec. `producer`,
//! `consumer` and `admin` hold what the typed clients decide, from plain
//! values to plain values; `message` is a received message seen through
//! its topic. Talking to the brokers is left to the clients built on top.

pub mod admin;
pub mod builders;
pub mod consumer;
pub mod error;
pub mod message;
pub mod producer;
pub mod topic;

pub use message::TypedMessage;
pub use topic::Topic;

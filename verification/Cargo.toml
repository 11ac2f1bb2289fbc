[package]
name = "typed_kafka"
version = "0.1.0"
edition = "2021"
publish = false

[dependencies]
futures = "0.3"
rdkafka = "*"
serde = { version = "1", features = ["derive"] }
serde_json = "1"

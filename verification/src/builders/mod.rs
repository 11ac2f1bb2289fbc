//! The role builders: one for producers, one for consumers, one for
//! administrative clients. Each composes the option groups of its role.

pub mod config;
pub mod laws;
pub mod text;
pub mod traits;
pub mod types;

use self::config::{config_entries, new_config, set_entry, Options};
use self::text::{decimal, duration_as_millis, millis_text};
use self::traits::{
    ApiTimeoutConfigBuilder, KafkaConfigBuilder, OptionValue, RetriesConfigBuilder,
    SaslConfigBuilder, SetOption, SslConfigBuilder,
};
use self::types::Reset;
use rdkafka::ClientConfig;
use std::time::Duration;
use vstd::prelude::*;

verus! {

/// Builds the connection configuration of a producer.
pub struct ProducerConfigBuilder {
    config: ClientConfig,
}

impl ProducerConfigBuilder {
    /// A builder with no option set.
    pub fn new() -> (builder: Self)
        ensures
            builder.options() == Options::empty(),
    {
        Self { config: new_config() }
    }

    /// Ends the chain: hands out the configuration with every option as it
    /// was last set, and no other. The builder is consumed.
    pub fn build(self) -> (config: ClientConfig)
        ensures
            config_entries(config) == self.options(),
    {
        self.config
    }
}

impl Default for ProducerConfigBuilder {
    fn default() -> (builder: Self)
        ensures
            builder.options() == Options::empty(),
    {
        Self::new()
    }
}

impl SetOption for ProducerConfigBuilder {
    closed spec fn options(&self) -> Options {
        config_entries(self.config)
    }

    fn set<V: OptionValue>(&mut self, key: &str, value: V) {
        set_entry(&mut self.config, key, value.to_text());
    }
}

impl SslConfigBuilder for ProducerConfigBuilder {
}

impl SaslConfigBuilder for ProducerConfigBuilder {
}

impl KafkaConfigBuilder for ProducerConfigBuilder {
}

impl RetriesConfigBuilder for ProducerConfigBuilder {
}

/// Builds the connection configuration of a consumer.
pub struct ConsumerConfigBuilder {
    config: ClientConfig,
}

impl ConsumerConfigBuilder {
    /// A builder with no option set.
    pub fn new() -> (builder: Self)
        ensures
            builder.options() == Options::empty(),
    {
        Self { config: new_config() }
    }

    /// Ends the chain: hands out the configuration with every option as it
    /// was last set, and no other. The builder is consumed.
    pub fn build(self) -> (config: ClientConfig)
        ensures
            config_entries(config) == self.options(),
    {
        self.config
    }
}

impl Default for ConsumerConfigBuilder {
    fn default() -> (builder: Self)
        ensures
            builder.options() == Options::empty(),
    {
        Self::new()
    }
}

impl SetOption for ConsumerConfigBuilder {
    closed spec fn options(&self) -> Options {
        config_entries(self.config)
    }

    fn set<V: OptionValue>(&mut self, key: &str, value: V) {
        set_entry(&mut self.config, key, value.to_text());
    }
}

impl SslConfigBuilder for ConsumerConfigBuilder {
}

impl SaslConfigBuilder for ConsumerConfigBuilder {
}

impl KafkaConfigBuilder for ConsumerConfigBuilder {
}

impl ApiTimeoutConfigBuilder for ConsumerConfigBuilder {
}

/// The options that only a consumer has.
impl ConsumerConfigBuilder {
    /// The least data a broker returns for one fetch; with less at hand it
    /// waits for more until the fetch times out.
    ///
    /// Default: 1
    pub fn fetch_min_bytes(self, count: usize) -> (built: Self)
        ensures
            built.options() == self.options().insert("fetch.min.bytes"@, decimal(count as nat)),
    {
        let mut builder = self;
        builder.set("fetch.min.bytes", count);
        builder
    }

    /// The consumer group this consumer belongs to. Needed for group
    /// membership and for offsets kept by the brokers.
    ///
    /// Default: unset
    pub fn group_id(self, group_id: &str) -> (built: Self)
        ensures
            built.options() == self.options().insert("group.id"@, group_id@),
    {
        let mut builder = self;
        builder.set("group.id", group_id);
        builder
    }

    /// The time between heartbeats to the group coordinator, written in
    /// milliseconds. It must be well below the session timeout.
    ///
    /// Default: 3000 (3 seconds)
    pub fn heartbeat_interval(self, interval: Duration) -> (built: Self)
        ensures
            built.options() == self.options().insert("heartbeat.interval.ms"@, millis_text(interval)),
    {
        let mut builder = self;
        builder.set("heartbeat.interval.ms", duration_as_millis(interval));
        builder
    }

    /// The most data a broker returns per partition.
    ///
    /// Default: 1048576 (1 mebibyte)
    pub fn max_partition_fetch_bytes(self, count: usize) -> (built: Self)
        ensures
            built.options() == self.options().insert("max.partition.fetch.bytes"@, decimal(count as nat)),
    {
        let mut builder = self;
        builder.set("max.partition.fetch.bytes", count);
        builder
    }

    /// The time without a heartbeat after which the consumer counts as failed
    /// and its group rebalances, written in milliseconds.
    ///
    /// Default: 45000 (45 seconds)
    pub fn session_timeout(self, timeout: Duration) -> (built: Self)
        ensures
            built.options() == self.options().insert("session.timeout.ms"@, millis_text(timeout)),
    {
        let mut builder = self;
        builder.set("session.timeout.ms", duration_as_millis(timeout));
        builder
    }

    /// Whether subscribing to a missing topic may create it, where the
    /// brokers permit that.
    ///
    /// Default: true
    pub fn allow_auto_create_topics(self, allow: bool) -> (built: Self)
        ensures
            built.options() == self.options().insert("allow.auto.create.topics"@, allow.text()),
    {
        let mut builder = self;
        builder.set("allow.auto.create.topics", allow);
        builder
    }

    /// Where to start when the group has no committed offset, or the
    /// committed one is no longer held.
    ///
    /// Default: latest
    pub fn auto_offset_reset(self, reset: Reset) -> (built: Self)
        ensures
            built.options() == self.options().insert("auto.offset.reset"@, reset.text()),
    {
        let mut builder = self;
        builder.set("auto.offset.reset", reset);
        builder
    }

    /// How long a connection may stay idle before it is closed, written in
    /// milliseconds.
    ///
    /// Default: 540000 (9 minutes)
    pub fn connections_max_idle(self, idle: Duration) -> (built: Self)
        ensures
            built.options() == self.options().insert("connections.max.idle.ms"@, millis_text(idle)),
    {
        let mut builder = self;
        builder.set("connections.max.idle.ms", duration_as_millis(idle));
        builder
    }

    /// The timeout of every client operation that is given none of its own,
    /// written in milliseconds. It is the option that `default_api_timeout`
    /// sets as well.
    ///
    /// Default: 60000 (1 minute)
    pub fn default_api_timout(self, timeout: Duration) -> (built: Self)
        ensures
            built.options() == self.options().insert("default.api.timeout.ms"@, millis_text(timeout)),
    {
        let mut builder = self;
        builder.set("default.api.timeout.ms", duration_as_millis(timeout));
        builder
    }

    /// Whether offsets are committed in the background at intervals.
    ///
    /// Default: true
    pub fn enable_auto_commit(self, commit: bool) -> (built: Self)
        ensures
            built.options() == self.options().insert("enable.auto.commit"@, commit.text()),
    {
        let mut builder = self;
        builder.set("enable.auto.commit", commit);
        builder
    }

    /// Whether internal topics that match a subscribed pattern are left out.
    ///
    /// Default: true
    pub fn exclude_internal_topics(self, exclude: bool) -> (built: Self)
        ensures
            built.options() == self.options().insert("exclude.internal.topics"@, exclude.text()),
    {
        let mut builder = self;
        builder.set("exclude.internal.topics", exclude);
        builder
    }

    /// The most data a broker returns for one fetch. A first batch larger
    /// than this is still returned, so the consumer always makes progress.
    ///
    /// Default: 52428800 (50 mebibytes)
    pub fn fetch_max_bytes(self, count: usize) -> (built: Self)
        ensures
            built.options() == self.options().insert("fetch.max.bytes"@, decimal(count as nat)),
    {
        let mut builder = self;
        builder.set("fetch.max.bytes", count);
        builder
    }

    /// A name for this consumer instance that makes it a static member of
    /// its group: a short absence does not set off a rebalance.
    ///
    /// Default: unset
    pub fn group_instance_id(self, id: &str) -> (built: Self)
        ensures
            built.options() == self.options().insert("group.instance.id"@, id@),
    {
        let mut builder = self;
        builder.set("group.instance.id", id);
        builder
    }

    /// The longest time between two receive calls, written in milliseconds.
    /// A consumer that stays away longer counts as failed and its group
    /// rebalances, unless it is a static member.
    ///
    /// Default: 300000 (5 minutes)
    pub fn max_poll_interval(self, interval: Duration) -> (built: Self)
        ensures
            built.options() == self.options().insert("max.poll.interval.ms"@, millis_text(interval)),
    {
        let mut builder = self;
        builder.set("max.poll.interval.ms", duration_as_millis(interval));
        builder
    }

    /// The most records returned by one poll.
    ///
    /// Default: 500
    pub fn max_poll_records(self, count: usize) -> (built: Self)
        ensures
            built.options() == self.options().insert("max.poll.records"@, decimal(count as nat)),
    {
        let mut builder = self;
        builder.set("max.poll.records", count);
        builder
    }
}

/// Builds the connection configuration of an administrative client.
pub struct AdminConfigBuilder {
    config: ClientConfig,
}

impl AdminConfigBuilder {
    /// A builder with no option set.
    pub fn new() -> (builder: Self)
        ensures
            builder.options() == Options::empty(),
    {
        Self { config: new_config() }
    }

    /// Ends the chain: hands out the configuration with every option as it
    /// was last set, and no other. The builder is consumed.
    pub fn build(self) -> (config: ClientConfig)
        ensures
            config_entries(config) == self.options(),
    {
        self.config
    }
}

impl Default for AdminConfigBuilder {
    fn default() -> (builder: Self)
        ensures
            builder.options() == Options::empty(),
    {
        Self::new()
    }
}

impl SetOption for AdminConfigBuilder {
    closed spec fn options(&self) -> Options {
        config_entries(self.config)
    }

    fn set<V: OptionValue>(&mut self, key: &str, value: V) {
        set_entry(&mut self.config, key, value.to_text());
    }
}

impl SslConfigBuilder for AdminConfigBuilder {
}

impl SaslConfigBuilder for AdminConfigBuilder {
}

impl KafkaConfigBuilder for AdminConfigBuilder {
}

impl ApiTimeoutConfigBuilder for AdminConfigBuilder {
}

impl RetriesConfigBuilder for AdminConfigBuilder {
}

} // verus!

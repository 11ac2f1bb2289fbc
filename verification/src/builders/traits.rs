//! The option-setting primitive and the groups of named options built on it.

use super::config::Options;
use super::text::{
    comma_joined, comma_list, decimal, decimal_string, duration_as_millis, millis_text,
    signed_decimal, signed_decimal_string,
};
use super::types::{DnsLookup, RecordingLevel, Reset, SecurityProtocol};
use std::time::Duration;
use vstd::prelude::*;
use vstd::string::StringExecFns;

verus! {

/// A value that can be written into a configuration: it has one text.
pub trait OptionValue {
    /// The text that stands for the value in a configuration.
    spec fn text(&self) -> Seq<char>;

    /// Writes the value's text.
    fn to_text(&self) -> (s: String)
        ensures
            s@ == self.text(),
    ;
}

impl<'a> OptionValue for &'a str {
    open spec fn text(&self) -> Seq<char> {
        self@
    }

    fn to_text(&self) -> (s: String) {
        String::from_str(*self)
    }
}

impl OptionValue for String {
    open spec fn text(&self) -> Seq<char> {
        self@
    }

    fn to_text(&self) -> (s: String) {
        self.clone()
    }
}

impl OptionValue for bool {
    open spec fn text(&self) -> Seq<char> {
        if *self {
            "true"@
        } else {
            "false"@
        }
    }

    fn to_text(&self) -> (s: String) {
        if *self {
            String::from_str("true")
        } else {
            String::from_str("false")
        }
    }
}

impl OptionValue for usize {
    open spec fn text(&self) -> Seq<char> {
        decimal(*self as nat)
    }

    fn to_text(&self) -> (s: String) {
        decimal_string(*self as u128)
    }
}

impl OptionValue for u128 {
    open spec fn text(&self) -> Seq<char> {
        decimal(*self as nat)
    }

    fn to_text(&self) -> (s: String) {
        decimal_string(*self)
    }
}

impl OptionValue for isize {
    open spec fn text(&self) -> Seq<char> {
        signed_decimal(*self as int)
    }

    fn to_text(&self) -> (s: String) {
        signed_decimal_string(*self as i128)
    }
}

impl OptionValue for Reset {
    open spec fn text(&self) -> Seq<char> {
        Reset::text(self)
    }

    fn to_text(&self) -> (s: String) {
        self.to_string()
    }
}

impl OptionValue for DnsLookup {
    open spec fn text(&self) -> Seq<char> {
        DnsLookup::text(self)
    }

    fn to_text(&self) -> (s: String) {
        self.to_string()
    }
}

impl OptionValue for RecordingLevel {
    open spec fn text(&self) -> Seq<char> {
        RecordingLevel::text(self)
    }

    fn to_text(&self) -> (s: String) {
        self.to_string()
    }
}

impl OptionValue for SecurityProtocol {
    open spec fn text(&self) -> Seq<char> {
        SecurityProtocol::text(self)
    }

    fn to_text(&self) -> (s: String) {
        self.to_string()
    }
}

/// The one primitive that every named option goes through: assign a value to
/// a name.
pub trait SetOption: Sized {
    /// The options set so far, by name.
    spec fn options(&self) -> Options;

    /// Sets `key` to the text of `value`. A value that `key` already had is
    /// replaced; no other option changes.
    fn set<V: OptionValue>(&mut self, key: &str, value: V)
        ensures
            final(self).options() == old(self).options().insert(key@, value.text()),
    ;
}

/// Options of general connectivity, shared by every role.
pub trait KafkaConfigBuilder: SetOption {
    /// The `host:port` pairs from which the client first finds the cluster,
    /// written as one comma-joined list. The list only seeds discovery and
    /// need not name every broker.
    ///
    /// Default: empty
    fn bootstrap_servers(self, urls: &[&str]) -> (built: Self)
        ensures
            built.options() == self.options().insert("bootstrap.servers"@, comma_list(urls@)),
    {
        let mut builder = self;
        builder.set("bootstrap.servers", comma_joined(urls));
        builder
    }

    /// How host names are resolved to addresses.
    ///
    /// Default: use_all_dns_ips
    fn client_dns_lookup(self, lookup: DnsLookup) -> (built: Self)
        ensures
            built.options() == self.options().insert("client.dns.lookup"@, lookup.text()),
    {
        let mut builder = self;
        builder.set("client.dns.lookup", lookup);
        builder
    }

    /// A logical name sent with every request, for the brokers' logs.
    ///
    /// Default: empty
    fn client_id(self, id: &str) -> (built: Self)
        ensures
            built.options() == self.options().insert("client.id"@, id@),
    {
        let mut builder = self;
        builder.set("client.id", id);
        builder
    }

    /// How long a connection may stay idle before it is closed, written in
    /// milliseconds.
    ///
    /// Default: 300000 (5 minutes)
    fn connections_max_idle(self, idle: Duration) -> (built: Self)
        ensures
            built.options() == self.options().insert("connections.max.idle.ms"@, millis_text(idle)),
    {
        let mut builder = self;
        builder.set("connections.max.idle.ms", duration_as_millis(idle));
        builder
    }

    /// The age at which metadata is refreshed even without a sign of change,
    /// written in milliseconds.
    ///
    /// Default: 300000 (5 minutes)
    fn metadata_max_age(self, age: Duration) -> (built: Self)
        ensures
            built.options() == self.options().insert("metadata.max.age.ms"@, millis_text(age)),
    {
        let mut builder = self;
        builder.set("metadata.max.age.ms", duration_as_millis(age));
        builder
    }

    /// The classes used as metrics reporters, written as one comma-joined
    /// list.
    ///
    /// Default: empty
    fn metric_reporters(self, vals: &[&str]) -> (built: Self)
        ensures
            built.options() == self.options().insert("metric.reporters"@, comma_list(vals@)),
    {
        let mut builder = self;
        builder.set("metric.reporters", comma_joined(vals));
        builder
    }

    /// The number of samples kept to compute metrics.
    ///
    /// Default: 2
    fn metrics_num_samples(self, val: usize) -> (built: Self)
        ensures
            built.options() == self.options().insert("metrics.num.samples"@, decimal(val as nat)),
    {
        let mut builder = self;
        builder.set("metrics.num.samples", val);
        builder
    }

    /// The most detailed level at which metrics are recorded.
    ///
    /// Default: INFO
    fn metrics_recording_level(self, val: RecordingLevel) -> (built: Self)
        ensures
            built.options() == self.options().insert("metrics.recording.level"@, val.text()),
    {
        let mut builder = self;
        builder.set("metrics.recording.level", val);
        builder
    }

    /// The window over which one metrics sample is computed, written in
    /// milliseconds.
    ///
    /// Default: 30000 (30 seconds)
    fn metrics_sample_window(self, window: Duration) -> (built: Self)
        ensures
            built.options() == self.options().insert("metrics.sample.window.ms"@, millis_text(window)),
    {
        let mut builder = self;
        builder.set("metrics.sample.window.ms", duration_as_millis(window));
        builder
    }

    /// The size of the TCP receive buffer. With -1 the operating system's
    /// default is used.
    ///
    /// Default: 65536 (64 kibibytes)
    fn receive_buffer_bytes(self, count: isize) -> (built: Self)
        ensures
            built.options() == self.options().insert("receive.buffer.bytes"@, signed_decimal(count as int)),
    {
        let mut builder = self;
        builder.set("receive.buffer.bytes", count);
        builder
    }

    /// The longest wait before reconnecting to a broker that has failed
    /// repeatedly, written in milliseconds. The wait grows with each failure
    /// up to this cap, with jitter added.
    ///
    /// Default: 1000 (1 second)
    fn reconnect_backoff_max(self, max: Duration) -> (built: Self)
        ensures
            built.options() == self.options().insert("reconnect.backoff.max.ms"@, millis_text(max)),
    {
        let mut builder = self;
        builder.set("reconnect.backoff.max.ms", duration_as_millis(max));
        builder
    }

    /// The base wait before reconnecting to a host, written in milliseconds.
    ///
    /// Default: 50
    fn reconnect_backoff(self, backoff: Duration) -> (built: Self)
        ensures
            built.options() == self.options().insert("reconnect.backoff.ms"@, millis_text(backoff)),
    {
        let mut builder = self;
        builder.set("reconnect.backoff.ms", duration_as_millis(backoff));
        builder
    }

    /// The longest wait for the response to one request, written in
    /// milliseconds. After it the request is sent again or fails.
    ///
    /// Default: 30000 (30 seconds)
    fn request_timeout(self, timeout: Duration) -> (built: Self)
        ensures
            built.options() == self.options().insert("request.timeout.ms"@, millis_text(timeout)),
    {
        let mut builder = self;
        builder.set("request.timeout.ms", duration_as_millis(timeout));
        builder
    }

    /// The wait before a failed request is tried again, written in
    /// milliseconds.
    ///
    /// Default: 100
    fn retry_backoff(self, backoff: Duration) -> (built: Self)
        ensures
            built.options() == self.options().insert("retry.backoff.ms"@, millis_text(backoff)),
    {
        let mut builder = self;
        builder.set("retry.backoff.ms", duration_as_millis(backoff));
        builder
    }

    /// The protocol spoken with the brokers.
    ///
    /// Default: PLAINTEXT
    fn security_protocol(self, protocol: SecurityProtocol) -> (built: Self)
        ensures
            built.options() == self.options().insert("security.protocol"@, protocol.text()),
    {
        let mut builder = self;
        builder.set("security.protocol", protocol);
        builder
    }

    /// The creator classes of security providers, written as one
    /// comma-joined list.
    ///
    /// Default: unset
    fn security_providers(self, vals: &[&str]) -> (built: Self)
        ensures
            built.options() == self.options().insert("security.providers"@, comma_list(vals@)),
    {
        let mut builder = self;
        builder.set("security.providers", comma_joined(vals));
        builder
    }

    /// The size of the TCP send buffer.
    ///
    /// Default: 131072 (128 kibibytes)
    fn send_buffer_bytes(self, count: usize) -> (built: Self)
        ensures
            built.options() == self.options().insert("send.buffer.bytes"@, decimal(count as nat)),
    {
        let mut builder = self;
        builder.set("send.buffer.bytes", count);
        builder
    }

    /// The longest wait for a socket connection to be set up, written in
    /// milliseconds. The wait grows with each failure up to this cap.
    ///
    /// Default: 30000 (30 seconds)
    fn socket_connection_setup_timeout_max(self, max: Duration) -> (built: Self)
        ensures
            built.options() == self.options().insert("socket.connection.setup.timeout.max.ms"@, millis_text(max)),
    {
        let mut builder = self;
        builder.set("socket.connection.setup.timeout.max.ms", duration_as_millis(max));
        builder
    }

    /// The wait for a socket connection to be set up, written in
    /// milliseconds.
    ///
    /// Default: 10000 (10 seconds)
    fn socket_connection_setup_timeout(self, val: Duration) -> (built: Self)
        ensures
            built.options() == self.options().insert("socket.connection.setup.timeout.ms"@, millis_text(val)),
    {
        let mut builder = self;
        builder.set("socket.connection.setup.timeout.ms", duration_as_millis(val));
        builder
    }
}

/// TLS options.
pub trait SslConfigBuilder: SetOption {
    /// The password of the private key.
    ///
    /// Default: unset
    fn ssl_key_password(self, password: &str) -> (built: Self)
        ensures
            built.options() == self.options().insert("ssl.key.password"@, password@),
    {
        let mut builder = self;
        builder.set("ssl.key.password", password);
        builder
    }

    /// The certificate chain, in the key store's format.
    ///
    /// Default: unset
    fn ssl_keystore_certificate_chain(self, chain: &str) -> (built: Self)
        ensures
            built.options() == self.options().insert("ssl.keystore.certificate.chain"@, chain@),
    {
        let mut builder = self;
        builder.set("ssl.keystore.certificate.chain", chain);
        builder
    }

    /// The private key, in the key store's format.
    ///
    /// Default: unset
    fn ssl_keystore_key(self, key: &str) -> (built: Self)
        ensures
            built.options() == self.options().insert("ssl.keystore.key"@, key@),
    {
        let mut builder = self;
        builder.set("ssl.keystore.key", key);
        builder
    }
}

/// SASL options: the group holds none yet, and marks the roles that
/// authenticate with SASL.
pub trait SaslConfigBuilder: SetOption {
}

/// The default timeout of client operations.
pub trait ApiTimeoutConfigBuilder: SetOption {
    /// The timeout of every client operation that is given none of its own,
    /// written in milliseconds.
    ///
    /// Default: 60000 (1 minute)
    fn default_api_timeout(self, timeout: Duration) -> (built: Self)
        ensures
            built.options() == self.options().insert("default.api.timeout.ms"@, millis_text(timeout)),
    {
        let mut builder = self;
        builder.set("default.api.timeout.ms", duration_as_millis(timeout));
        builder
    }
}

/// The retry policy.
pub trait RetriesConfigBuilder: SetOption {
    /// The most times a failed request is sent again. Left unset, the option
    /// is absent from the configuration.
    ///
    /// Default: unset
    fn retries(self, count: usize) -> (built: Self)
        ensures
            built.options() == self.options().insert("retries"@, decimal(count as nat)),
    {
        let mut builder = self;
        builder.set("retries", count);
        builder
    }
}

} // verus!

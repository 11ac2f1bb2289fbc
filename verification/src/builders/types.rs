//! Enumerated option values and the text each one takes in a configuration.

use vstd::prelude::*;
use vstd::string::StringExecFns;

verus! {

/// What a consumer does when its group has no committed offset for a partition.
#[derive(Clone, Copy, Debug, PartialEq, Eq)]
pub enum Reset {
    /// Start from the newest record.
    Latest,
    /// Start from the oldest record still held.
    Earliest,
    /// Do not reset: report an error to the consumer.
    Disabled,
}

impl Reset {
    /// The value written for `auto.offset.reset`.
    pub open spec fn text(&self) -> Seq<char> {
        match self {
            Reset::Latest => "latest"@,
            Reset::Earliest => "earliest"@,
            Reset::Disabled => "none"@,
        }
    }

    pub fn to_string(&self) -> (s: String)
        ensures
            s@ == self.text(),
    {
        match self {
            Reset::Latest => String::from_str("latest"),
            Reset::Earliest => String::from_str("earliest"),
            Reset::Disabled => String::from_str("none"),
        }
    }
}

/// How the client turns a bootstrap host name into addresses.
#[derive(Clone, Copy, Debug, PartialEq, Eq)]
pub enum DnsLookup {
    /// Try every address a name resolves to, one after the other.
    UseAllDnsIps,
    /// Resolve each bootstrap address to its canonical names first.
    ResolveCanonicalBootstrapServersOnly,
}

impl DnsLookup {
    /// The value written for `client.dns.lookup`.
    pub open spec fn text(&self) -> Seq<char> {
        match self {
            DnsLookup::UseAllDnsIps => "use_all_dns_ips"@,
            DnsLookup::ResolveCanonicalBootstrapServersOnly => "resolve_canonical_bootstrap_servers_only"@,
        }
    }

    pub fn to_string(&self) -> (s: String)
        ensures
            s@ == self.text(),
    {
        match self {
            DnsLookup::UseAllDnsIps => String::from_str("use_all_dns_ips"),
            DnsLookup::ResolveCanonicalBootstrapServersOnly => String::from_str(
                "resolve_canonical_bootstrap_servers_only",
            ),
        }
    }
}

/// The most detailed level at which metrics are recorded.
#[derive(Clone, Copy, Debug, PartialEq, Eq)]
pub enum RecordingLevel {
    Trace,
    Debug,
    Info,
}

impl RecordingLevel {
    /// The value written for `metrics.recording.level`.
    pub open spec fn text(&self) -> Seq<char> {
        match self {
            RecordingLevel::Trace => "TRACE"@,
            RecordingLevel::Debug => "DEBUG"@,
            RecordingLevel::Info => "INFO"@,
        }
    }

    pub fn to_string(&self) -> (s: String)
        ensures
            s@ == self.text(),
    {
        match self {
            RecordingLevel::Trace => String::from_str("TRACE"),
            RecordingLevel::Debug => String::from_str("DEBUG"),
            RecordingLevel::Info => String::from_str("INFO"),
        }
    }
}

/// The protocol spoken with the brokers.
#[derive(Clone, Copy, Debug, PartialEq, Eq)]
pub enum SecurityProtocol {
    /// No encryption, no authentication.
    Plaintext,
    /// TLS.
    Ssl,
    /// SASL authentication over an unencrypted connection.
    SaslPlaintext,
    /// SASL authentication over TLS.
    SaslSsl,
}

impl SecurityProtocol {
    /// The value written for `security.protocol`.
    pub open spec fn text(&self) -> Seq<char> {
        match self {
            SecurityProtocol::Plaintext => "PLAINTEXT"@,
            SecurityProtocol::Ssl => "SSL"@,
            SecurityProtocol::SaslPlaintext => "SASL_PLAINTEXT"@,
            SecurityProtocol::SaslSsl => "SASL_SSL"@,
        }
    }

    pub fn to_string(&self) -> (s: String)
        ensures
            s@ == self.text(),
    {
        match self {
            SecurityProtocol::Plaintext => String::from_str("PLAINTEXT"),
            SecurityProtocol::Ssl => String::from_str("SSL"),
            SecurityProtocol::SaslPlaintext => String::from_str("SASL_PLAINTEXT"),
            SecurityProtocol::SaslSsl => String::from_str("SASL_SSL"),
        }
    }
}

} // verus!

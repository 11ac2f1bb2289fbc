//! The connection configuration that the builders fill: the broker client's
//! own `ClientConfig`, seen as a map from option names to values.

use rdkafka::ClientConfig;
use vstd::prelude::*;

verus! {

/// The options of a configuration, by name.
pub type Options = Map<Seq<char>, Seq<char>>;

/// `rdkafka::ClientConfig`, the broker client's configuration. Nothing is
/// read from inside it; what it holds is spoken of as `config_entries`.
#[verifier::external_type_specification]
#[verifier::external_body]
pub struct ExClientConfig(ClientConfig);

/// The options that a `ClientConfig` holds: each name that was set, with
/// the value it was last set to. This is the map that `ClientConfig::get`
/// reads and `ClientConfig::set` writes.
pub uninterp spec fn config_entries(config: ClientConfig) -> Map<Seq<char>, Seq<char>>;

/// `ClientConfig::new`: a configuration that holds no option.
#[verifier::external_body]
pub(crate) fn new_config() -> (config: ClientConfig)
    ensures
        config_entries(config) == Options::empty(),
{
    ClientConfig::new()
}

/// `ClientConfig::set`: stores `value` under `key`, in place of any value
/// that `key` had, and leaves every other option as it was.
#[verifier::external_body]
pub(crate) fn set_entry(config: &mut ClientConfig, key: &str, value: String)
    ensures
        config_entries(*final(config)) == config_entries(*old(config)).insert(key@, value@),
{
    config.set(key, value);
}

} // verus!

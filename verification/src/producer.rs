//! The configuration that the broker client is created from.

use vstd::prelude::*;
use rdkafka::config::ClientConfig;

verus! {

/// `ClientConfig` of rdkafka, the parameters a client is created from:
/// known only by [`settings`].
#[verifier::external_type_specification]
#[verifier::external_body]
pub struct ExClientConfig(ClientConfig);

/// The parameters that `config` holds: each name with its value.
pub uninterp spec fn settings(config: ClientConfig) -> Map<Seq<char>, Seq<char>>;

/// Name of the parameter that holds the broker address.
pub const BOOTSTRAP_SERVERS: &'static str = "bootstrap.servers";

/// Name of the parameter that bounds how long the client holds a message
/// that was not acknowledged before it reports the failure.
pub const MESSAGE_TIMEOUT: &'static str = "message.timeout.ms";

/// The delivery timeout, in milliseconds.
pub const MESSAGE_TIMEOUT_MS: &'static str = "5000";

/// What the operator is told when the client cannot be created.
pub const CREATION_FAILED: &'static str =
    "Failed to create Kafka producer. Check broker configuration.";

/// No parameters.
pub open spec fn no_settings() -> Map<Seq<char>, Seq<char>> {
    Map::empty()
}

/// The parameters of a producer for the broker at `brokers`.
pub open spec fn producer_settings(brokers: Seq<char>) -> Map<Seq<char>, Seq<char>> {
    no_settings().insert(BOOTSTRAP_SERVERS@, brokers).insert(
        MESSAGE_TIMEOUT@,
        MESSAGE_TIMEOUT_MS@,
    )
}

/// `ClientConfig::new` of rdkafka: a configuration with no parameters.
#[verifier::external_body]
fn new_config() -> (config: ClientConfig)
    ensures
        settings(config) == no_settings(),
{
    ClientConfig::new()
}

/// `ClientConfig::set` of rdkafka: installs `value` under `key`, in place
/// of a value that was there, and leaves the other parameters alone.
#[verifier::external_body]
fn set_parameter(config: &mut ClientConfig, key: &str, value: &str)
    ensures
        settings(*final(config)) == settings(*old(config)).insert(key@, value@),
{
    config.set(key, value);
}

/// The configuration of the producer: the broker address and the delivery
/// timeout, and nothing else.
pub fn producer_config(brokers: &str) -> (config: ClientConfig)
    ensures
        settings(config) == producer_settings(brokers@),
{
    let mut config = new_config();
    set_parameter(&mut config, BOOTSTRAP_SERVERS, brokers);
    set_parameter(&mut config, MESSAGE_TIMEOUT, MESSAGE_TIMEOUT_MS);
    config
}

} // verus!

//! What the monitor is configured with at startup.

use vstd::prelude::*;

verus! {

/// The broker address that is used where none is given.
pub const DEFAULT_BROKER: &'static str = "localhost:9092";

/// The topic that is used where none is given.
pub const DEFAULT_TOPIC: &'static str = "system_logs";

/// The settings of one run: fixed at startup, never changed afterwards.
#[derive(Debug, Clone, PartialEq, Eq)]
pub struct MonitorConfig {
    /// Address of the broker to connect to.
    pub broker: String,
    /// Topic that the snapshots are published to.
    pub topic: String,
}

/// The value of a setting: what was given, or the default.
pub open spec fn setting_or(given: Option<Seq<char>>, default: Seq<char>) -> Seq<char> {
    match given {
        Some(value) => value,
        None => default,
    }
}

/// The content of an optional text.
pub open spec fn text_of(given: Option<String>) -> Option<Seq<char>> {
    match given {
        Some(value) => Some(value@),
        None => None,
    }
}

impl MonitorConfig {
    /// The settings for what the environment gave: each value as given, and
    /// the default in place of one that is missing.
    pub fn resolve(broker: Option<String>, topic: Option<String>) -> (config: MonitorConfig)
        ensures
            config.broker@ == setting_or(text_of(broker), DEFAULT_BROKER@),
            config.topic@ == setting_or(text_of(topic), DEFAULT_TOPIC@),
    {
        let broker = match broker {
            Some(value) => value,
            None => String::from_str(DEFAULT_BROKER),
        };
        let topic = match topic {
            Some(value) => value,
            None => String::from_str(DEFAULT_TOPIC),
        };
        MonitorConfig { broker, topic }
    }
}

} // verus!

//! The settings that the ticks run on, checked once, before the first tick.

use crate::text::{parse_seconds, seconds_stated};
use vstd::prelude::*;
use vstd::string::*;

verus! {

/// Why the settings cannot be used.
#[derive(Clone, Copy, Debug, PartialEq, Eq, Structural)]
pub enum ConfigError {
    /// No interval is set.
    MissingInterval,
    /// The interval is no number of seconds that fits 64 bits.
    MalformedInterval,
    /// The interval is zero.
    ZeroInterval,
    /// No record name is set.
    MissingName,
}

impl ConfigError {
    /// What to tell the operator.
    pub open spec fn spec_message(self) -> Seq<char> {
        match self {
            ConfigError::MissingInterval => "Expected a cron interval in the environment"@,
            ConfigError::MalformedInterval => "Failed to parse cron interval"@,
            ConfigError::ZeroInterval => "Expected a cron interval of one second or more"@,
            ConfigError::MissingName => "Expected a DNS name in the environment"@,
        }
    }

    /// What to tell the operator.
    pub fn message(self) -> (r: &'static str)
        ensures
            r@ == self.spec_message(),
    {
        match self {
            ConfigError::MissingInterval => "Expected a cron interval in the environment",
            ConfigError::MalformedInterval => "Failed to parse cron interval",
            ConfigError::ZeroInterval => "Expected a cron interval of one second or more",
            ConfigError::MissingName => "Expected a DNS name in the environment",
        }
    }
}

/// Settings that passed the check: ticks are `interval` seconds apart, one
/// second or more, and keep the record `name` in step.
#[derive(Clone, Debug, PartialEq, Eq)]
pub struct Config {
    pub interval: u64,
    pub name: String,
}

/// What a `Config` holds, as plain values.
pub struct ConfigView {
    pub interval: u64,
    pub name: Seq<char>,
}

impl View for Config {
    type V = ConfigView;

    open spec fn view(&self) -> ConfigView {
        ConfigView { interval: self.interval, name: self.name@ }
    }
}

/// The view of a text that may be missing.
pub open spec fn text_view(text: Option<&str>) -> Option<Seq<char>> {
    match text {
        Some(t) => Some(t@),
        None => None,
    }
}

/// The outcome of the check, for the interval and the name as they were
/// set. The interval is looked at first: it must be there, state a number of
/// seconds, and not zero. Then the name must be there.
pub open spec fn checked(interval: Option<Seq<char>>, name: Option<Seq<char>>) -> Result<
    ConfigView,
    ConfigError,
> {
    match interval {
        None => Err(ConfigError::MissingInterval),
        Some(text) => match seconds_stated(text) {
            None => Err(ConfigError::MalformedInterval),
            Some(seconds) => if seconds == 0 {
                Err(ConfigError::ZeroInterval)
            } else {
                match name {
                    None => Err(ConfigError::MissingName),
                    Some(n) => Ok(ConfigView { interval: seconds, name: n }),
                }
            },
        },
    }
}

/// The view of the outcome of a check.
pub open spec fn outcome_view(outcome: Result<Config, ConfigError>) -> Result<
    ConfigView,
    ConfigError,
> {
    match outcome {
        Ok(config) => Ok(config@),
        Err(error) => Err(error),
    }
}

impl Config {
    /// Checks the interval and the record name as they were set, each
    /// missing where it was not.
    pub fn from_settings(interval: Option<&str>, name: Option<&str>) -> (r: Result<
        Config,
        ConfigError,
    >)
        ensures
            outcome_view(r) == checked(text_view(interval), text_view(name)),
    {
        let text = match interval {
            Some(text) => text,
            None => {
                return Err(ConfigError::MissingInterval);
            },
        };
        let seconds = match parse_seconds(text) {
            Some(seconds) => seconds,
            None => {
                return Err(ConfigError::MalformedInterval);
            },
        };
        if seconds == 0 {
            return Err(ConfigError::ZeroInterval);
        }
        match name {
            Some(n) => Ok(Config { interval: seconds, name: n.to_owned() }),
            None => Err(ConfigError::MissingName),
        }
    }
}

/// Settings that pass the check hold an interval of one second or more.
pub proof fn law_checked_interval_is_positive(
    interval: Option<Seq<char>>,
    name: Option<Seq<char>>,
)
    ensures
        checked(interval, name) is Ok ==> checked(interval, name)->Ok_0.interval >= 1,
{
}

} // verus!

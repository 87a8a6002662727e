//! Configuration of the worker.

use crate::endpoint::Endpoint;
use vstd::prelude::*;

verus! {

/// What the worker is configured with. The interval is in nanoseconds.
#[derive(Debug)]
pub struct Config {
    pub endpoint: Option<Endpoint>,
    pub telemetry_debug_logging_enabled: bool,
    pub telemetry_hearbeat_interval: u64,
}

/// Settings that, where given, override those of a `Config`.
#[derive(Debug)]
pub struct ConfigBuilder {
    pub endpoint: Option<Endpoint>,
    pub telemetry_debug_logging_enabled: Option<bool>,
    pub telemetry_hearbeat_interval: Option<u64>,
}

impl ConfigBuilder {
    /// The settings of `other`, except for those that are given here.
    pub open spec fn merged(self, other: Config) -> Config {
        Config {
            endpoint: if self.endpoint is Some {
                self.endpoint
            } else {
                other.endpoint
            },
            telemetry_debug_logging_enabled: match self.telemetry_debug_logging_enabled {
                Some(enabled) => enabled,
                None => other.telemetry_debug_logging_enabled,
            },
            telemetry_hearbeat_interval: match self.telemetry_hearbeat_interval {
                Some(interval) => interval,
                None => other.telemetry_hearbeat_interval,
            },
        }
    }

    pub fn merge(self, other: Config) -> (config: Config)
        ensures
            config == self.merged(other),
    {
        Config {
            endpoint: match self.endpoint {
                Some(endpoint) => Some(endpoint),
                None => other.endpoint,
            },
            telemetry_debug_logging_enabled: self.telemetry_debug_logging_enabled.unwrap_or(
                other.telemetry_debug_logging_enabled,
            ),
            telemetry_hearbeat_interval: self.telemetry_hearbeat_interval.unwrap_or(
                other.telemetry_hearbeat_interval,
            ),
        }
    }
}

impl Default for ConfigBuilder {
    /// No setting is given.
    fn default() -> (builder: Self)
        ensures
            builder == (ConfigBuilder {
                endpoint: None,
                telemetry_debug_logging_enabled: None,
                telemetry_hearbeat_interval: None,
            }),
    {
        ConfigBuilder {
            endpoint: None,
            telemetry_debug_logging_enabled: None,
            telemetry_hearbeat_interval: None,
        }
    }
}

/// A setting that is given is taken, one that is not is left as it was, each on
/// its own.
pub proof fn given_settings_are_taken(builder: ConfigBuilder, config: Config)
    ensures
        builder.endpoint is Some ==> builder.merged(config).endpoint == builder.endpoint,
        builder.endpoint is None ==> builder.merged(config).endpoint == config.endpoint,
        builder.telemetry_debug_logging_enabled matches Some(enabled) ==> builder.merged(
            config,
        ).telemetry_debug_logging_enabled == enabled,
        builder.telemetry_debug_logging_enabled is None ==> builder.merged(
            config,
        ).telemetry_debug_logging_enabled == config.telemetry_debug_logging_enabled,
        builder.telemetry_hearbeat_interval matches Some(interval) ==> builder.merged(
            config,
        ).telemetry_hearbeat_interval == interval,
        builder.telemetry_hearbeat_interval is None ==> builder.merged(
            config,
        ).telemetry_hearbeat_interval == config.telemetry_hearbeat_interval,
{
}

} // verus!

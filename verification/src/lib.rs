//! Telemetry worker: the state machine that collects an application's
//! dependencies, integrations, configuration, logs and metrics and decides
//! when and in which requests they are reported.

pub mod config_utils;
pub mod data;
pub mod endpoint;
pub mod metrics;
pub mod tracer;
pub mod worker;

//! Runtime OAM configuration.
use vstd::prelude::*;
use vstd::std_specs::convert::FromSpecImpl;

verus! {

/// Runtime OAM configuration. Durations are in nanoseconds.
#[derive(Debug, Clone, Copy)]
pub struct OamConfig {
    /// Whether OAM probing is enabled
    pub enabled: bool,
    /// Probe interval, in nanoseconds
    pub probe_interval: u64,
    /// Probe timeout, in nanoseconds
    pub probe_timeout: u64,
    /// Number of samples for moving average calculations
    pub sample_window: usize,
    /// Consecutive probe failures before marking link as down
    pub failure_threshold: u32,
    /// Publish metrics on admin space
    pub publish_metrics: bool,
    /// Metrics publication interval, in nanoseconds
    pub publish_interval: u64,
}

/// `ms` milliseconds in nanoseconds, saturating at `u64::MAX`.
pub open spec fn millis_to_nanos(ms: u64) -> u64 {
    if ms * 1_000_000 > u64::MAX { u64::MAX } else { (ms * 1_000_000) as u64 }
}

/// `ms` milliseconds in nanoseconds, saturating at `u64::MAX`.
pub fn millis_as_nanos(ms: u64) -> (r: u64)
    ensures
        r == millis_to_nanos(ms),
{
    if ms > u64::MAX / 1_000_000 {
        u64::MAX
    } else {
        ms * 1_000_000
    }
}

impl OamConfig {
    /// The configuration given by the settings of `transport.unicast.oam`
    /// (durations in milliseconds).
    pub fn from_settings(
        enabled: bool,
        probe_interval_ms: u64,
        probe_timeout_ms: u64,
        sample_window: usize,
        failure_threshold: u32,
        publish_metrics: bool,
        publish_interval_ms: u64,
    ) -> (r: OamConfig)
        ensures
            r.enabled == enabled,
            r.probe_interval == millis_to_nanos(probe_interval_ms),
            r.probe_timeout == millis_to_nanos(probe_timeout_ms),
            r.sample_window == sample_window,
            r.failure_threshold == failure_threshold,
            r.publish_metrics == publish_metrics,
            r.publish_interval == millis_to_nanos(publish_interval_ms),
    {
        OamConfig {
            enabled,
            probe_interval: millis_as_nanos(probe_interval_ms),
            probe_timeout: millis_as_nanos(probe_timeout_ms),
            sample_window,
            failure_threshold,
            publish_metrics,
            publish_interval: millis_as_nanos(publish_interval_ms),
        }
    }
}

/// The OAM settings of the configuration file (`transport.unicast.oam`),
/// with durations in milliseconds.
#[derive(Debug, Clone, Copy)]
pub struct OamConf {
    pub enabled: bool,
    pub probe_interval_ms: u64,
    pub probe_timeout_ms: u64,
    pub sample_window: usize,
    pub failure_threshold: u32,
    pub publish_metrics: bool,
    pub publish_interval_ms: u64,
}

/// The runtime configuration derived from the settings.
pub open spec fn config_from_conf(conf: OamConf) -> OamConfig {
    OamConfig {
        enabled: conf.enabled,
        probe_interval: millis_to_nanos(conf.probe_interval_ms),
        probe_timeout: millis_to_nanos(conf.probe_timeout_ms),
        sample_window: conf.sample_window,
        failure_threshold: conf.failure_threshold,
        publish_metrics: conf.publish_metrics,
        publish_interval: millis_to_nanos(conf.publish_interval_ms),
    }
}

impl<'a> From<&'a OamConf> for OamConfig {
    fn from(conf: &'a OamConf) -> (r: Self) {
        OamConfig::from_settings(
            conf.enabled,
            conf.probe_interval_ms,
            conf.probe_timeout_ms,
            conf.sample_window,
            conf.failure_threshold,
            conf.publish_metrics,
            conf.publish_interval_ms,
        )
    }
}

impl<'a> FromSpecImpl<&'a OamConf> for OamConfig {
    open spec fn obeys_from_spec() -> bool {
        true
    }

    open spec fn from_spec(conf: &'a OamConf) -> OamConfig {
        config_from_conf(*conf)
    }
}

impl Default for OamConfig {
    /// Disabled, probe every 100 ms, time out after 500 ms, 20 samples, fail
    /// after 3 losses, publish every 500 ms.
    fn default() -> (r: Self)
        ensures
            !r.enabled,
            r.probe_interval == 100_000_000,
            r.probe_timeout == 500_000_000,
            r.sample_window == 20,
            r.failure_threshold == 3,
            r.publish_metrics,
            r.publish_interval == 500_000_000,
    {
        OamConfig {
            enabled: false,
            probe_interval: 100_000_000,
            probe_timeout: 500_000_000,
            sample_window: 20,
            failure_threshold: 3,
            publish_metrics: true,
            publish_interval: 500_000_000,
        }
    }
}

} // verus!

//! The heartbeat of a session: how often its liveness is checked, and when
//! silence has lasted too long.

use vstd::prelude::*;

verus! {

/// The heartbeat's two parameters, in time units of the caller's clock.
#[derive(Clone, Copy, Debug, PartialEq, Eq, Structural)]
pub struct HeartbeatConfig {
    /// The time between two liveness checks.
    pub interval: u64,
    /// The longest silence that a session survives.
    pub timeout: u64,
}

/// The interval that `HeartbeatConfig::default` gives.
pub const DEFAULT_INTERVAL: u64 = 5;

/// The timeout that `HeartbeatConfig::default` gives.
pub const DEFAULT_TIMEOUT: u64 = 10;

impl HeartbeatConfig {
    pub fn new(interval: u64, timeout: u64) -> (config: HeartbeatConfig)
        ensures
            config == (HeartbeatConfig { interval, timeout }),
    {
        HeartbeatConfig { interval, timeout }
    }

    /// Whether a session last heard of at `last_seen` has been silent for
    /// longer than the timeout at `now`.
    pub fn expired(&self, last_seen: u64, now: u64) -> (late: bool)
        ensures
            late == stale(last_seen, now, self.timeout),
    {
        now > last_seen && now - last_seen > self.timeout
    }
}

impl Default for HeartbeatConfig {
    /// A check every 5 time units, and eviction after more than 10 of
    /// silence: two missed checks are tolerated.
    fn default() -> (config: HeartbeatConfig)
        ensures
            config == (HeartbeatConfig { interval: DEFAULT_INTERVAL, timeout: DEFAULT_TIMEOUT }),
    {
        HeartbeatConfig { interval: DEFAULT_INTERVAL, timeout: DEFAULT_TIMEOUT }
    }
}

/// Silence has lasted too long when more than `timeout` has passed since
/// `last_seen`.
pub open spec fn stale(last_seen: u64, now: u64, timeout: u64) -> bool {
    now - last_seen > timeout
}

} // verus!

//! The settings that the probing rules and the aggregator read.

pub mod notify;
pub mod plugins;
pub mod probe;
pub mod regex;

use vstd::prelude::*;

verus! {

/// How the page presents itself in notifications.
#[derive(Debug)]
pub struct Branding {
    pub page_title: String,
    pub page_url: String,
}

/// Intervals, thresholds and parallelism of the probes.
///
/// The two load thresholds are held as `LoadIndex` values, like the load
/// figures they are compared with.
#[derive(Clone, Copy, Debug)]
pub struct Metrics {
    /// Seconds between two poll cycles.
    pub poll_interval: u64,
    /// How often an unreachable poll target is tried again.
    pub poll_retry: u64,
    /// The lowest HTTP status code that counts as healthy.
    pub poll_http_status_healthy_above: u16,
    /// The first HTTP status code past the healthy ones.
    pub poll_http_status_healthy_below: u16,
    /// Seconds after which a poll target that has not answered is dead.
    pub poll_delay_dead: u64,
    /// Seconds of latency from which a reachable poll target is sick.
    pub poll_delay_sick: u64,
    /// The number of workers of a poll cycle.
    pub poll_parallelism: u16,
    /// Seconds past its reporting interval after which a push replica is dead.
    pub push_delay_dead: u64,
    pub push_system_cpu_sick_above: crate::prober::states::LoadIndex,
    pub push_system_ram_sick_above: crate::prober::states::LoadIndex,
    /// Seconds between two script cycles.
    pub script_interval: u64,
    /// The number of workers of a script cycle.
    pub script_parallelism: u16,
    /// Seconds past its reporting interval after which a local replica is dead.
    pub local_delay_dead: u64,
}

} // verus!

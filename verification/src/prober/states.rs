//! The runtime state tree: services, their nodes, and the replicas of each
//! node, with what was last learnt of them.
//!
//! Points in time are nanoseconds since the UNIX epoch, and spans of time are
//! nanoseconds.

use vstd::prelude::*;

use crate::config::probe::HttpMethod;
use crate::config::regex::Regex;
use crate::ordered::OrderedMap;
use crate::prober::mode::Mode;
use crate::prober::replica::ReplicaUrl;
use crate::prober::status::Status;

verus! {

/// The nanoseconds in a second.
pub const NANOSECONDS_PER_SECOND: u128 = 1_000_000_000;

/// The root of the tree.
pub struct ServiceStates {
    /// The global status as of the last aggregation.
    pub status: Status,
    /// When the last aggregation ran, as text.
    pub date: Option<String>,
    /// Every service, under its identifier.
    pub probes: OrderedMap<ServiceStatesProbe>,
    pub notifier: ServiceStatesNotifier,
}

/// One service.
pub struct ServiceStatesProbe {
    pub id: String,
    pub label: String,
    pub status: Status,
    /// The nodes of the service, each under its identifier.
    pub nodes: OrderedMap<ServiceStatesProbeNode>,
}

/// The kind of socket that an ICMP probe opens.
#[derive(Clone, Copy, Debug, PartialEq, Eq, Structural)]
pub enum SocketType {
    Raw,
    Dgram,
}

impl Default for SocketType {
    fn default() -> (socket_type: Self)
        ensures
            socket_type == SocketType::Raw,
    {
        SocketType::Raw
    }
}

/// One node of a service.
pub struct ServiceStatesProbeNode {
    pub status: Status,
    pub label: String,
    pub mode: Mode,
    /// The replicas of the node, each under its identifier.
    pub replicas: OrderedMap<ServiceStatesProbeNodeReplica>,
    pub http_headers: Vec<(String, String)>,
    pub http_cache_buster: bool,
    pub http_method: Option<HttpMethod>,
    pub http_body: Option<String>,
    pub http_body_healthy_match: Option<Regex>,
    pub rabbitmq: Option<ServiceStatesProbeNodeRabbitMQ>,
}

/// One replica: the smallest probed unit.
pub struct ServiceStatesProbeNodeReplica {
    pub status: Status,
    pub url: Option<ReplicaUrl>,
    pub script: Option<String>,
    pub metrics: ServiceStatesProbeNodeReplicaMetrics,
    pub load: Option<ServiceStatesProbeNodeReplicaLoad>,
    pub report: Option<ServiceStatesProbeNodeReplicaReport>,
}

/// The queue of a node, and the counts from which on it counts as loaded
/// or stalled.
#[derive(Debug)]
pub struct ServiceStatesProbeNodeRabbitMQ {
    pub queue: String,
    pub queue_nack_healthy_below: Option<u32>,
    pub queue_nack_dead_above: Option<u32>,
}

/// What was last measured of a replica.
#[derive(Clone, Copy, Debug, PartialEq, Eq, Structural)]
pub struct ServiceStatesProbeNodeReplicaMetrics {
    /// The latency of the last probe, in milliseconds.
    pub latency: Option<u64>,
    pub system: Option<ServiceStatesProbeNodeReplicaMetricsSystem>,
    pub rabbitmq: Option<ServiceStatesProbeNodeReplicaMetricsRabbitMQ>,
}

impl Default for ServiceStatesProbeNodeReplicaMetrics {
    fn default() -> (metrics: Self)
        ensures
            metrics == (ServiceStatesProbeNodeReplicaMetrics { latency: None, system: None, rabbitmq: None }),
    {
        ServiceStatesProbeNodeReplicaMetrics { latency: None, system: None, rabbitmq: None }
    }
}

/// The load of processor and memory, in percent.
#[derive(Clone, Copy, Debug, PartialEq, Eq, Structural)]
pub struct ServiceStatesProbeNodeReplicaMetricsSystem {
    pub cpu: u16,
    pub ram: u16,
}

/// The messages that wait in the queue, and those not acknowledged.
#[derive(Clone, Copy, Debug, PartialEq, Eq, Structural)]
pub struct ServiceStatesProbeNodeReplicaMetricsRabbitMQ {
    pub queue_ready: u32,
    pub queue_nack: u32,
}

impl Default for ServiceStatesProbeNodeReplicaMetricsRabbitMQ {
    fn default() -> (metrics: Self)
        ensures
            metrics == (ServiceStatesProbeNodeReplicaMetricsRabbitMQ { queue_ready: 0, queue_nack: 0 }),
    {
        ServiceStatesProbeNodeReplicaMetricsRabbitMQ { queue_ready: 0, queue_nack: 0 }
    }
}

/// A system load figure, held as the bit pattern of the single-precision
/// IEEE 754 number that stands for it, and compared as such numbers are.
#[derive(Clone, Copy, Debug, PartialEq, Eq, Structural)]
pub struct LoadIndex {
    pub bits: u32,
}

impl LoadIndex {
    /// Whether the bits are those of a not-a-number.
    pub open spec fn is_nan(self) -> bool {
        self.bits % 0x8000_0000 > 0x7f80_0000
    }

    /// An integer that orders the numbers as their values do: the magnitude
    /// bits, negated where the sign bit is set. Both zeros give 0.
    pub open spec fn ordinal(self) -> int {
        if self.bits >= 0x8000_0000 {
            -(self.bits - 0x8000_0000)
        } else {
            self.bits as int
        }
    }

    /// Whether this figure is greater than `threshold`. A not-a-number is
    /// greater than nothing, and nothing is greater than it.
    pub open spec fn exceeds(self, threshold: LoadIndex) -> bool {
        !self.is_nan() && !threshold.is_nan() && self.ordinal() > threshold.ordinal()
    }

    /// Says whether this figure is greater than `threshold`.
    pub fn is_above(&self, threshold: &LoadIndex) -> (above: bool)
        ensures
            above == self.exceeds(*threshold),
    {
        if self.bits % 0x8000_0000 > 0x7f80_0000 || threshold.bits % 0x8000_0000 > 0x7f80_0000 {
            return false;
        }
        let own_negative: bool = self.bits >= 0x8000_0000;
        let other_negative: bool = threshold.bits >= 0x8000_0000;
        if own_negative && other_negative {
            self.bits < threshold.bits
        } else if own_negative {
            false
        } else if other_negative {
            self.bits > 0 || threshold.bits > 0x8000_0000
        } else {
            self.bits > threshold.bits
        }
    }
}

/// The load that an agent last reported.
#[derive(Clone, Copy, Debug, PartialEq, Eq, Structural)]
pub struct ServiceStatesProbeNodeReplicaLoad {
    pub cpu: LoadIndex,
    pub ram: LoadIndex,
    pub queue: ServiceStatesProbeNodeReplicaLoadQueue,
}

/// Whether the queue of a replica is loaded, or stalled.
#[derive(Clone, Copy, Debug, PartialEq, Eq, Structural)]
pub struct ServiceStatesProbeNodeReplicaLoadQueue {
    pub loaded: bool,
    pub stalled: bool,
}

impl Default for ServiceStatesProbeNodeReplicaLoadQueue {
    fn default() -> (queue: Self)
        ensures
            queue == (ServiceStatesProbeNodeReplicaLoadQueue { loaded: false, stalled: false }),
    {
        ServiceStatesProbeNodeReplicaLoadQueue { loaded: false, stalled: false }
    }
}

/// When a replica last reported, and how often it said it would.
#[derive(Clone, Copy, Debug, PartialEq, Eq, Structural)]
pub struct ServiceStatesProbeNodeReplicaReport {
    /// The time of the last report.
    pub time: u128,
    /// The declared span between two reports.
    pub interval: u128,
}

/// What the aggregator remembers of the reminders it sent.
#[derive(Clone, Copy, Debug, PartialEq, Eq, Structural)]
pub struct ServiceStatesNotifier {
    /// At least 1; grows with each reminder while a backoff is configured.
    pub reminder_backoff_counter: u16,
    /// No reminder goes out before this time.
    pub reminder_ignore_until: Option<u128>,
}

} // verus!

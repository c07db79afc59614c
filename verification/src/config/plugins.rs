//! Settings of the optional probing plugins.

use vstd::prelude::*;

use crate::prober::states::SocketType;

verus! {

/// The plugins; one that is not configured is `None`.
pub struct Plugins {
    pub rabbitmq: Option<PluginRabbitMQ>,
    pub icmp: Option<PluginIcmp>,
}

/// Settings of ICMP probes.
#[derive(Clone, Copy, Debug)]
pub struct PluginIcmp {
    pub socket_type: SocketType,
}

/// Where the queues of a message broker are asked for, and from which
/// counts on they are loaded or stalled.
pub struct PluginRabbitMQ {
    pub api_url: String,
    pub auth_username: String,
    pub auth_password: String,
    pub virtualhost: String,
    pub queue_ready_healthy_below: u32,
    pub queue_nack_healthy_below: u32,
    pub queue_ready_dead_above: u32,
    pub queue_nack_dead_above: u32,
    pub queue_loaded_retry_delay: Option<u64>,
}

impl Plugins {
    /// The kind of socket that ICMP probes open: the configured one, or the
    /// default where the plugin is not configured.
    pub fn icmp_socket_type(&self) -> (socket_type: SocketType)
        ensures
            socket_type == match self.icmp {
                Some(icmp) => icmp.socket_type,
                None => SocketType::Raw,
            },
    {
        match &self.icmp {
            Some(icmp) => icmp.socket_type,
            None => SocketType::default(),
        }
    }
}

impl Default for Plugins {
    fn default() -> (plugins: Self)
        ensures
            plugins.rabbitmq.is_none(),
            plugins.icmp.is_none(),
    {
        Plugins { rabbitmq: None, icmp: None }
    }
}

} // verus!

//! The configured tree of services, nodes and replicas.

use vstd::prelude::*;

use crate::config::regex::Regex;
use crate::ordered::OrderedMap;
use crate::prober::mode::Mode;

verus! {

/// Every configured service, under its identifier.
pub struct Probe {
    pub service: OrderedMap<Service>,
}

/// One service: a label and its nodes, each under its identifier.
pub struct Service {
    pub label: String,
    pub node: OrderedMap<ServiceNode>,
}

/// One node: how its replicas get their status, and what to probe.
pub struct ServiceNode {
    pub label: String,
    pub mode: Mode,
    /// The URLs to poll; for `Mode::Poll` only.
    pub replicas: Option<Vec<String>>,
    /// The commands to run; for `Mode::Script` only.
    pub scripts: Option<Vec<String>>,
    pub http_no_cache_buster: bool,
    /// Header names and values sent with each HTTP probe.
    pub http_headers: Vec<(String, String)>,
    pub http_method: Option<HttpMethod>,
    pub http_body: Option<String>,
    pub http_body_healthy_match: Option<Regex>,
    pub rabbitmq_queue: Option<String>,
    pub rabbitmq_queue_nack_healthy_below: Option<u32>,
    pub rabbitmq_queue_nack_dead_above: Option<u32>,
}

/// The request method of an HTTP probe.
#[derive(Clone, Copy, Debug, PartialEq, Eq, Structural)]
pub enum HttpMethod {
    Head,
    Get,
    Post,
    Put,
    Patch,
}

} // verus!

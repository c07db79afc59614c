//! Health monitoring of a tree of services, nodes and replicas: the status
//! model, the runtime state store, the probing rules and the aggregator.

pub mod aggregator;
pub mod config;
pub mod notifier;
pub mod ordered;
pub mod prober;
pub mod responder;
pub mod text;
pub mod util;

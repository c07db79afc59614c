//! The runtime state tree and the rules by which probes fill it.

pub mod manager;
pub mod mode;
pub mod probe;
pub mod replica;
pub mod states;
pub mod status;

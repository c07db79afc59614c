//! The periodic rollup of the state tree and the decision to notify.

pub mod manager;

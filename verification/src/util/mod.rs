//! Helpers that stand apart from the monitoring rules.

pub mod ping;

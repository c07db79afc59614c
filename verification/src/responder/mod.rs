//! What the status page needs worked out for it.

pub mod context;
pub mod routes;

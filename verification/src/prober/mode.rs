//! How the replicas of a node obtain their status.

use vstd::prelude::*;

verus! {

/// Who decides the status of a node's replicas.
#[derive(Clone, Copy, Debug, PartialEq, Eq, Structural)]
pub enum Mode {
    /// The prober checks the replica URLs itself.
    Poll,
    /// An agent reports health and load; silence past a deadline means dead.
    Push,
    /// The prober runs a command per replica.
    Script,
    /// The replica reports its own status; silence past a deadline means dead.
    Local,
}

} // verus!

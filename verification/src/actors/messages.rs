//! The message envelopes exchanged with workers and with the supervisor.

use vstd::prelude::*;

verus! {

/// Messages routed to a worker, processed strictly one at a time.
#[derive(Debug, Clone)]
pub enum AccountMessage {
    /// Start executing the named workflow.
    Start { flow_id: String },
    /// Graceful shutdown signal.
    Stop,
    /// An opaque perception event forwarded from the bridge.
    Signal { source: String, payload: Vec<u8> },
    /// Liveness no-op.
    Heartbeat,
    /// Fault injection: the worker must terminate abnormally, never handle
    /// this gracefully. The supervisor's respawn path is the sole recovery.
    Kill,
}

/// Commands the supervisor accepts from its callers. The generation query is
/// answered synchronously through the supervisor's step result.
#[derive(Debug, Clone)]
pub enum SupervisorMessage {
    /// Spawn (or replace in place) the worker with this identifier.
    SpawnAccount { id: String },
    /// Forward a message to the named live worker, fire and forget.
    Dispatch { id: String, message: AccountMessage },
    /// Ask how many times this identifier has been (re)spawned.
    GetGeneration { id: String },
}

} // verus!

//! The worker: one per identity, processing its inbound messages in order.
//! What a message does is decided here; the surrounding runtime performs the
//! logging and turns a fault into an abnormal termination of the worker.

use vstd::prelude::*;
use crate::actors::messages::AccountMessage;

verus! {

/// In-memory session state of a worker; holds nothing yet.
#[derive(Debug, Clone)]
pub struct AccountState;

impl Default for AccountState {
    fn default() -> (r: Self)
        ensures
            r == (AccountState {  }),
    {
        AccountState {  }
    }
}

/// Arguments a worker is started with.
#[derive(Debug, Clone)]
pub struct AccountArgs {
    pub id: String,
    pub generation: u64,
}

/// The worker's decision logic.
#[derive(Debug, Clone)]
pub struct AccountActor;

/// What processing one message asks of the runtime. Every variant but
/// `Fault` is a structured log entry; `Fault` is an unrecoverable failure of
/// the worker's execution unit.
#[derive(Debug, Clone)]
pub enum WorkerStep {
    LogStart { flow_id: String },
    LogStop,
    LogSignal { source: String, bytes: usize },
    LogHeartbeat,
    Fault,
}

impl AccountActor {
    /// What one message does to a worker.
    pub open spec fn step_spec(message: AccountMessage) -> WorkerStep {
        match message {
            AccountMessage::Start { flow_id } => WorkerStep::LogStart { flow_id },
            AccountMessage::Stop => WorkerStep::LogStop,
            AccountMessage::Signal { source, payload } => WorkerStep::LogSignal {
                source,
                bytes: payload.len() as usize,
            },
            AccountMessage::Heartbeat => WorkerStep::LogHeartbeat,
            AccountMessage::Kill => WorkerStep::Fault,
        }
    }

    /// Processes one inbound message. A `Kill` message, and only a `Kill`
    /// message, faults the worker: the fault is not converted into a
    /// graceful error here, it is handed to the runtime to terminate the
    /// worker abnormally so that the supervisor observes the failure.
    pub fn handle(message: AccountMessage) -> (step: WorkerStep)
        ensures
            step == Self::step_spec(message),
            step matches WorkerStep::Fault <==> message matches AccountMessage::Kill,
    {
        match message {
            AccountMessage::Start { flow_id } => WorkerStep::LogStart { flow_id },
            AccountMessage::Stop => WorkerStep::LogStop,
            AccountMessage::Signal { source, payload } => {
                let bytes = payload.len();
                WorkerStep::LogSignal { source, bytes }
            },
            AccountMessage::Heartbeat => WorkerStep::LogHeartbeat,
            AccountMessage::Kill => WorkerStep::Fault,
        }
    }
}

} // verus!

pub mod checkpointer;
pub mod console_bridge;

pub use checkpointer::{Checkpointer, CheckpointerError, EventPlan, NewWorkflowInstance, WorkflowRow};

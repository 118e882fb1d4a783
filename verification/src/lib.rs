pub mod actors;
pub mod domain;
pub mod infrastructure;
pub mod perception;
pub mod text;

pub use infrastructure::checkpointer::{Checkpointer, CheckpointerError, NewWorkflowInstance};

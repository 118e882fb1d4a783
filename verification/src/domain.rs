pub mod counter;
pub mod workflow;

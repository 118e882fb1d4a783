pub mod bridge;
pub mod signal;

pub mod account;
pub mod messages;
pub mod supervisor;

pub use account::{AccountActor, AccountArgs, AccountState, WorkerStep};
pub use messages::{AccountMessage, SupervisorMessage};
pub use supervisor::{SupervisionNotice, SupervisorEffect, SupervisorState, SystemSupervisor};

pub mod monitor;
pub mod dependency;
pub mod scheduler;
pub mod status;

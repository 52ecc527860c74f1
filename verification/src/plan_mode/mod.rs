//! Plan Mode: a read-only state in which proposed actions are recorded
//! in a plan instead of being carried out.

pub mod allow_list;
pub mod artifact;
pub mod capability;
pub mod config;
pub mod entry;
pub mod guarantees;
pub mod payload;
pub mod session;
pub mod shell;
pub mod telemetry;

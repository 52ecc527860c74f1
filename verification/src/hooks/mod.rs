//! Lifecycle hooks: layered definitions, their order of precedence,
//! decisions before and after a tool runs, and the audit records.

pub mod config_loader;
pub mod decision;
pub mod definition;
pub mod events;
pub mod execution_record;
pub mod inspect;
pub mod executor;
pub mod layer_summary;
pub mod log_writer;
pub mod matchers;
pub mod panel;
pub mod registry;
pub mod report;
pub mod schema_registry;
pub mod scope;
pub mod skipped;
pub mod snapshot;

//! Slash commands: templates stored as Markdown files, looked up by
//! name and filled in with the arguments of an invocation.


pub mod builtin;
pub mod command;
pub mod command_line;
pub mod config;
pub mod context;
pub mod discovery;
pub mod errors;
pub mod interpolation;
pub mod metadata;
pub mod namespace;
pub mod parsing;
pub mod performance;
pub mod registry;
pub mod scope;
pub mod service;

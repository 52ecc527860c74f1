//! Sub-agents: definitions, precedence between scopes, and how an
//! invocation is prepared.

pub mod builder;
pub mod config;
pub mod definition;
pub mod discovery;
pub mod executor;
pub mod inventory;
pub mod invocation;
pub mod parser;
pub mod precedence;
pub mod record;
pub mod report;
pub mod runner;
pub mod service;



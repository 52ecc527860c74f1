//! Session core of a terminal coding agent: lifecycle hooks, plan mode,
//! sub-agents, the exec safety pipeline and the turn and submission loops.

pub mod text;
pub mod search;
pub mod lines;
pub mod numfmt;
pub mod order;
pub mod copying;
pub mod subagents;
pub mod paths;
pub mod clock;
pub mod glob;
pub mod ident;
pub mod plan_mode;
pub mod protocol;
pub mod digest;
pub mod hooks;
pub mod shell_words;
pub mod parse_support;
pub mod slash_commands;
pub mod session;

//! The session core: what a session decides, step by step. Performing
//! what was decided (talking to the model, running commands, writing
//! files, asking the user) is left to the caller.

pub mod exec;
pub mod exec_output;
pub mod guidance;
pub mod history;
pub mod replies;
pub mod setup;
pub mod state;
pub mod stream;
pub mod submission;
pub mod task;
pub mod task_trace;
pub mod tool_calls;
pub mod tools;
pub mod trace;
pub mod turn_input;

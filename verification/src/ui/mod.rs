//! Decisions behind the interactive prompts and flows.

pub mod convert;
pub mod flow;
pub mod prompt;

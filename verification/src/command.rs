//! Decisions behind the commands of the project tool.

pub mod new;

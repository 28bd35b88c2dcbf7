//! What API clients send, and how it becomes domain requests and commands.
pub mod inputs;
pub mod mutations;

//! Use cases, command handlers and queries: what each asks of the identity
//! provider and in what order.
pub mod commands;
pub mod queries;
pub mod usecases;

//! Domain types: errors, requests handed to the identity provider, and commands.
pub mod commands;
pub mod errors;
pub mod ports;

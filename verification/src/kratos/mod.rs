//! How this service talks to Kratos: the URLs it calls, the flow protocol,
//! and how each answer becomes a result or an error.
pub mod status;
pub mod models;
pub mod urls;
pub mod flows;
pub mod login;
pub mod identity;
pub mod session;
pub mod verification;
pub mod recovery;
pub mod settings;
pub mod client;
pub mod refusals;

//! Verified core of an authentication service built on Ory Kratos.
pub mod application;
pub mod container;
pub mod domain;
pub mod json;
pub mod kratos;
pub mod presentation;
pub mod text;

//! Queries.
use vstd::prelude::*;
use crate::domain::errors::DomainError;
use crate::text::owned;

verus! {

/// Ask whether the service is up.
#[derive(Debug, Clone, Copy)]
pub struct HealthCheckQuery;

/// Answers health checks.
#[derive(Debug, Clone, Copy)]
pub struct HealthCheckQueryHandler;

impl HealthCheckQueryHandler {
    /// A running service is always healthy: the answer is `OK`.
    pub fn handle(&self, query: HealthCheckQuery) -> (r: Result<String, DomainError>)
        ensures
            r matches Ok(s) && s@ == "OK"@,
    {
        Ok(owned("OK"))
    }
}

} // verus!

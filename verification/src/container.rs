//! Checking the service's configuration before it is wired together.
use vstd::prelude::*;
use crate::text::owned;

verus! {

/// Why the service could not be put together.
#[derive(Debug, PartialEq, Eq)]
pub enum ContainerError {
    InvalidConfig(String),
    Initialization(String),
    FactoryCreation(String),
}

impl ContainerError {
    /// The human-readable text of the error.
    pub open spec fn spec_message(&self) -> Seq<char> {
        match self {
            ContainerError::InvalidConfig(e) => "Invalid configuration: "@ + e@,
            ContainerError::Initialization(e) => "Initialization failed: "@ + e@,
            ContainerError::FactoryCreation(e) => "Factory creation failed: "@ + e@,
        }
    }

    /// The human-readable text of the error.
    pub fn message(&self) -> (r: String)
        ensures
            r@ == self.spec_message(),
    {
        match self {
            ContainerError::InvalidConfig(e) => owned("Invalid configuration: ").concat(e.as_str()),
            ContainerError::Initialization(e) => owned("Initialization failed: ").concat(
                e.as_str(),
            ),
            ContainerError::FactoryCreation(e) => owned("Factory creation failed: ").concat(
                e.as_str(),
            ),
        }
    }
}

/// The configuration is usable when the Kratos public URL is not empty.
pub fn validate_config(kratos_public_url: &str) -> (r: Result<(), ContainerError>)
    ensures
        r is Ok <==> kratos_public_url@.len() > 0,
        r matches Err(e) ==> e matches ContainerError::InvalidConfig(m) && m@
            == "Kratos public URL cannot be empty"@,
{
    if kratos_public_url.is_empty() {
        Err(ContainerError::InvalidConfig(owned("Kratos public URL cannot be empty")))
    } else {
        Ok(())
    }
}

} // verus!

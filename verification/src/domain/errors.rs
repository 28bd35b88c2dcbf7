//! The errors that the service reports to its callers.
use vstd::prelude::*;

verus! {

/// Everything that can go wrong in an authentication use case.
#[derive(Debug, PartialEq, Eq)]
pub enum DomainError {
    NotAuthenticated,
    SessionExpired,
    AlreadyLoggedIn,
    InvalidCredentials,
    FlowNotFound,
    InvalidData(String),
    Conflict(String),
    NotFound(String),
    PrivilegedSessionRequired,
    Network(String),
    Unknown(String),
    ServiceUnavailable(String),
}

/// A `DomainError` with its texts as character sequences.
pub enum ErrorView {
    NotAuthenticated,
    SessionExpired,
    AlreadyLoggedIn,
    InvalidCredentials,
    FlowNotFound,
    InvalidData(Seq<char>),
    Conflict(Seq<char>),
    NotFound(Seq<char>),
    PrivilegedSessionRequired,
    Network(Seq<char>),
    Unknown(Seq<char>),
    ServiceUnavailable(Seq<char>),
}

impl View for DomainError {
    type V = ErrorView;

    open spec fn view(&self) -> ErrorView {
        match self {
            DomainError::NotAuthenticated => ErrorView::NotAuthenticated,
            DomainError::SessionExpired => ErrorView::SessionExpired,
            DomainError::AlreadyLoggedIn => ErrorView::AlreadyLoggedIn,
            DomainError::InvalidCredentials => ErrorView::InvalidCredentials,
            DomainError::FlowNotFound => ErrorView::FlowNotFound,
            DomainError::InvalidData(e) => ErrorView::InvalidData(e@),
            DomainError::Conflict(e) => ErrorView::Conflict(e@),
            DomainError::NotFound(e) => ErrorView::NotFound(e@),
            DomainError::PrivilegedSessionRequired => ErrorView::PrivilegedSessionRequired,
            DomainError::Network(e) => ErrorView::Network(e@),
            DomainError::Unknown(e) => ErrorView::Unknown(e@),
            DomainError::ServiceUnavailable(e) => ErrorView::ServiceUnavailable(e@),
        }
    }
}

impl ErrorView {
    /// The human-readable text of the error, as shown to API clients.
    pub open spec fn message(self) -> Seq<char> {
        match self {
            ErrorView::NotAuthenticated => "Not authenticated"@,
            ErrorView::SessionExpired => "Session expired"@,
            ErrorView::AlreadyLoggedIn => "Already logged in"@,
            ErrorView::InvalidCredentials => "Invalid credentials"@,
            ErrorView::FlowNotFound => "Flow not found"@,
            ErrorView::InvalidData(e) => "Invalid data: "@ + e,
            ErrorView::Conflict(e) => "Conflict: "@ + e,
            ErrorView::NotFound(e) => "Not found: "@ + e,
            ErrorView::PrivilegedSessionRequired => "Privileged session required"@,
            ErrorView::Network(e) => "Network error: "@ + e,
            ErrorView::Unknown(e) => "Unknown error: "@ + e,
            ErrorView::ServiceUnavailable(e) => "Service unavailable: "@ + e,
        }
    }
}

impl DomainError {
    /// The human-readable text of the error.
    pub fn message(&self) -> (r: String)
        ensures
            r@ == self@.message(),
    {
        match self {
            DomainError::NotAuthenticated => String::from_str("Not authenticated"),
            DomainError::SessionExpired => String::from_str("Session expired"),
            DomainError::AlreadyLoggedIn => String::from_str("Already logged in"),
            DomainError::InvalidCredentials => String::from_str("Invalid credentials"),
            DomainError::FlowNotFound => String::from_str("Flow not found"),
            DomainError::InvalidData(e) => String::from_str("Invalid data: ").concat(e.as_str()),
            DomainError::Conflict(e) => String::from_str("Conflict: ").concat(e.as_str()),
            DomainError::NotFound(e) => String::from_str("Not found: ").concat(e.as_str()),
            DomainError::PrivilegedSessionRequired => String::from_str(
                "Privileged session required",
            ),
            DomainError::Network(e) => String::from_str("Network error: ").concat(e.as_str()),
            DomainError::Unknown(e) => String::from_str("Unknown error: ").concat(e.as_str()),
            DomainError::ServiceUnavailable(e) => String::from_str("Service unavailable: ").concat(
                e.as_str(),
            ),
        }
    }
}

} // verus!

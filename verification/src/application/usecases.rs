//! Use cases. Each holds the port it works through; the steps it takes
//! between calls of that port are decided here.
use vstd::prelude::*;
use std::sync::Arc;
use crate::domain::errors::{DomainError, ErrorView};

verus! {

/// An operation on the caller's own session needs the session cookie.
pub fn require_cookie(cookie: Option<&str>) -> (r: Result<&str, DomainError>)
    ensures
        match cookie {
            None => r matches Err(e) && e@ == ErrorView::NotAuthenticated,
            Some(c) => r == Ok::<&str, DomainError>(c),
        },
{
    match cookie {
        None => Err(DomainError::NotAuthenticated),
        Some(c) => Ok(c),
    }
}

/// An operation on the caller's own session needs the session cookie.
pub fn require_owned_cookie(cookie: Option<String>) -> (r: Result<String, DomainError>)
    ensures
        match cookie {
            None => r matches Err(e) && e@ == ErrorView::NotAuthenticated,
            Some(c) => r == Ok::<String, DomainError>(c),
        },
{
    match cookie {
        None => Err(DomainError::NotAuthenticated),
        Some(c) => Ok(c),
    }
}

/// What a use case that starts a flow and then completes it does once the
/// flow has been started.
#[derive(Debug)]
pub enum AfterInitiate<C> {
    /// Complete the flow that was started, with the use case's input.
    Complete { flow_id: String, input: C },
    /// Starting the flow failed; the use case ends with this error.
    Fail(DomainError),
}

/// Once a flow has been started: complete that very flow, or end with the
/// error that starting it gave.
pub fn after_initiate<C>(initiated: Result<String, DomainError>, input: C) -> (r: AfterInitiate<C>)
    ensures
        match initiated {
            Ok(flow_id) => r == AfterInitiate::Complete { flow_id, input },
            Err(e) => r == AfterInitiate::<C>::Fail(e),
        },
{
    match initiated {
        Ok(flow_id) => AfterInitiate::Complete { flow_id, input },
        Err(e) => AfterInitiate::Fail(e),
    }
}

/// Tells who is logged in.
pub struct GetCurrentUserUseCase<P: ?Sized> {
    identity_port: Arc<P>,
}

impl<P: ?Sized> GetCurrentUserUseCase<P> {
    pub closed spec fn port(&self) -> Arc<P> {
        self.identity_port
    }

    pub fn new(identity_port: Arc<P>) -> (r: Self)
        ensures
            r.port() == identity_port,
    {
        GetCurrentUserUseCase { identity_port }
    }

    /// The port that answers who a session belongs to.
    pub fn identity_port(&self) -> (r: &Arc<P>)
        ensures
            *r == self.port(),
    {
        &self.identity_port
    }
}

/// Logs a user in.
pub struct LoginUseCase<P: ?Sized> {
    auth_port: Arc<P>,
}

impl<P: ?Sized> LoginUseCase<P> {
    pub closed spec fn port(&self) -> Arc<P> {
        self.auth_port
    }

    pub fn new(auth_port: Arc<P>) -> (r: Self)
        ensures
            r.port() == auth_port,
    {
        LoginUseCase { auth_port }
    }

    /// The port that starts and completes login flows.
    pub fn auth_port(&self) -> (r: &Arc<P>)
        ensures
            *r == self.port(),
    {
        &self.auth_port
    }
}

/// Logs a user out.
pub struct LogoutUseCase<P: ?Sized> {
    session_port: Arc<P>,
}

impl<P: ?Sized> LogoutUseCase<P> {
    pub closed spec fn port(&self) -> Arc<P> {
        self.session_port
    }

    pub fn new(session_port: Arc<P>) -> (r: Self)
        ensures
            r.port() == session_port,
    {
        LogoutUseCase { session_port }
    }

    /// The port that ends sessions.
    pub fn session_port(&self) -> (r: &Arc<P>)
        ensures
            *r == self.port(),
    {
        &self.session_port
    }
}

/// Sends an account recovery link.
pub struct RecoveryUseCase<P: ?Sized> {
    recovery_port: Arc<P>,
}

impl<P: ?Sized> RecoveryUseCase<P> {
    pub closed spec fn port(&self) -> Arc<P> {
        self.recovery_port
    }

    pub fn new(recovery_port: Arc<P>) -> (r: Self)
        ensures
            r.port() == recovery_port,
    {
        RecoveryUseCase { recovery_port }
    }

    /// The port that starts account recovery.
    pub fn recovery_port(&self) -> (r: &Arc<P>)
        ensures
            *r == self.port(),
    {
        &self.recovery_port
    }
}

/// Changes account settings.
pub struct UpdateSettingsUseCase<P: ?Sized> {
    settings_port: Arc<P>,
}

impl<P: ?Sized> UpdateSettingsUseCase<P> {
    pub closed spec fn port(&self) -> Arc<P> {
        self.settings_port
    }

    pub fn new(settings_port: Arc<P>) -> (r: Self)
        ensures
            r.port() == settings_port,
    {
        UpdateSettingsUseCase { settings_port }
    }

    /// The port that starts and submits settings flows.
    pub fn settings_port(&self) -> (r: &Arc<P>)
        ensures
            *r == self.port(),
    {
        &self.settings_port
    }
}

/// Verifies addresses.
pub struct VerificationUseCase<P: ?Sized> {
    verification_port: Arc<P>,
}

impl<P: ?Sized> VerificationUseCase<P> {
    pub closed spec fn port(&self) -> Arc<P> {
        self.verification_port
    }

    pub fn new(verification_port: Arc<P>) -> (r: Self)
        ensures
            r.port() == verification_port,
    {
        VerificationUseCase { verification_port }
    }

    /// The port that runs verification flows.
    pub fn verification_port(&self) -> (r: &Arc<P>)
        ensures
            *r == self.port(),
    {
        &self.verification_port
    }
}

} // verus!

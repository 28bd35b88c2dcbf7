//! Commands and their handlers.
use vstd::prelude::*;
use std::sync::Arc;
use crate::domain::ports::{LoginCredentials, RegistrationData, SettingsData};

verus! {

/// Log in with these credentials; the caller's cookie, if any, tells whether
/// a session is already active.
#[derive(Debug)]
pub struct LoginCommand {
    pub credentials: LoginCredentials,
    pub cookie: Option<String>,
}

/// End the session in the caller's cookie.
#[derive(Debug)]
pub struct LogoutCommand {
    pub cookie: Option<String>,
}

/// Register a new account.
#[derive(Debug)]
pub struct RegisterCommand {
    pub data: RegistrationData,
}

/// A completed registration: its flow and the new session's cookie.
#[derive(Debug)]
pub struct RegisterCommandResult {
    pub flow_id: String,
    pub session_cookie: String,
}

/// Change the settings of the account whose session is in `cookie`.
#[derive(Debug)]
pub struct UpdateSettingsCommand {
    pub data: SettingsData,
    pub cookie: String,
}

/// A completed settings change: the state the flow reached and the cookies
/// the answer set.
#[derive(Debug)]
pub struct UpdateSettingsResult {
    pub flow_id: String,
    pub messages: Vec<String>,
}

impl UpdateSettingsResult {
    /// The result of a settings submission that Kratos accepted.
    pub fn from_outcome(outcome: (String, Vec<String>)) -> (r: UpdateSettingsResult)
        ensures
            r.flow_id == outcome.0,
            r.messages == outcome.1,
    {
        UpdateSettingsResult { flow_id: outcome.0, messages: outcome.1 }
    }
}

/// Handles login commands.
pub struct LoginCommandHandler<P: ?Sized> {
    auth_port: Arc<P>,
}

impl<P: ?Sized> LoginCommandHandler<P> {
    pub closed spec fn port(&self) -> Arc<P> {
        self.auth_port
    }

    pub fn new(auth_port: Arc<P>) -> (r: Self)
        ensures
            r.port() == auth_port,
    {
        LoginCommandHandler { auth_port }
    }

    /// The port that starts and completes login flows.
    pub fn auth_port(&self) -> (r: &Arc<P>)
        ensures
            *r == self.port(),
    {
        &self.auth_port
    }
}

/// Handles logout commands.
pub struct LogoutCommandHandler<P: ?Sized> {
    session_port: Arc<P>,
}

impl<P: ?Sized> LogoutCommandHandler<P> {
    pub closed spec fn port(&self) -> Arc<P> {
        self.session_port
    }

    pub fn new(session_port: Arc<P>) -> (r: Self)
        ensures
            r.port() == session_port,
    {
        LogoutCommandHandler { session_port }
    }

    /// The port that ends sessions.
    pub fn session_port(&self) -> (r: &Arc<P>)
        ensures
            *r == self.port(),
    {
        &self.session_port
    }
}

/// Handles registration commands.
pub struct RegisterCommandHandler<P: ?Sized> {
    registration_port: Arc<P>,
}

impl<P: ?Sized> RegisterCommandHandler<P> {
    pub closed spec fn port(&self) -> Arc<P> {
        self.registration_port
    }

    pub fn new(registration_port: Arc<P>) -> (r: Self)
        ensures
            r.port() == registration_port,
    {
        RegisterCommandHandler { registration_port }
    }

    /// The port that starts and completes registration flows.
    pub fn registration_port(&self) -> (r: &Arc<P>)
        ensures
            *r == self.port(),
    {
        &self.registration_port
    }
}

/// Handles settings changes.
pub struct UpdateSettingsCommandHandler<P: ?Sized> {
    settings_port: Arc<P>,
}

impl<P: ?Sized> UpdateSettingsCommandHandler<P> {
    pub closed spec fn port(&self) -> Arc<P> {
        self.settings_port
    }

    pub fn new(settings_port: Arc<P>) -> (r: Self)
        ensures
            r.port() == settings_port,
    {
        UpdateSettingsCommandHandler { settings_port }
    }

    /// The port that starts and submits settings flows.
    pub fn settings_port(&self) -> (r: &Arc<P>)
        ensures
            *r == self.port(),
    {
        &self.settings_port
    }
}

} // verus!

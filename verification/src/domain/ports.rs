//! The data that use cases hand to the identity provider.
use vstd::prelude::*;

verus! {

/// What a user submits to log in.
#[derive(Debug, Clone)]
pub struct LoginCredentials {
    pub identifier: String,
    pub password: String,
    pub address: Option<String>,
    pub code: Option<String>,
    pub resend: Option<String>,
}

/// What a user submits to register.
#[derive(Debug, Clone)]
pub struct RegistrationData {
    pub email: String,
    pub username: String,
    pub password: String,
    pub geo_location: Option<String>,
}

/// A request to send an account recovery link.
#[derive(Debug, Clone)]
pub struct RecoveryRequest {
    pub email: String,
}

/// A request to verify an address by a link sent to it.
#[derive(Debug)]
pub struct VerifyByLinkRequest {
    pub email: String,
    pub transient_payload: Option<serde_json::Value>,
}

/// A request to send a verification code to an address.
#[derive(Debug)]
pub struct SendCodeRequest {
    pub email: String,
    pub transient_payload: Option<serde_json::Value>,
}

/// A request to submit a verification code.
#[derive(Debug)]
pub struct SubmitCodeRequest {
    pub code: String,
    pub transient_payload: Option<serde_json::Value>,
}

/// A change of account settings, field by field as Kratos names them.
#[derive(Debug)]
pub struct SettingsData {
    pub method: String,
    pub password: Option<String>,
    pub traits: Option<serde_json::Value>,
    pub lookup_secret_confirm: Option<bool>,
    pub lookup_secret_disable: Option<bool>,
    pub lookup_secret_regenerate: Option<bool>,
    pub lookup_secret_reveal: Option<bool>,
    pub transient_payload: Option<serde_json::Value>,
}

/// The profile of the user that a session belongs to.
#[derive(Debug, Clone)]
pub struct UserProfile {
    pub email: String,
    pub username: String,
    pub geo_location: Option<String>,
}

} // verus!

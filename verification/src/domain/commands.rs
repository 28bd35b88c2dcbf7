//! Commands that name one way of logging in, changing settings or verifying.
use vstd::prelude::*;

verus! {

/// One way of completing a login.
#[derive(Debug, Clone)]
pub enum LoginCommand {
    Password { identifier: String, password: String, address: Option<String> },
    Code { code: String, resend: Option<String> },
}

/// One kind of settings change.
#[derive(Debug)]
pub enum SettingsCommand {
    Password { password: String },
    Profile { traits: serde_json::Value },
    LookupSecret {
        confirm: Option<bool>,
        disable: Option<bool>,
        regenerate: Option<bool>,
        reveal: Option<bool>,
    },
}

/// A settings change together with the payload to hand on to hooks.
#[derive(Debug)]
pub struct SettingsData {
    pub command: SettingsCommand,
    pub transient_payload: Option<serde_json::Value>,
}

/// A payload handed on to Kratos hooks unchanged.
#[derive(Debug)]
pub struct TransientPayload(pub serde_json::Value);

/// One step of address verification.
#[derive(Debug)]
pub enum VerificationCommand {
    ByLink { email: String, transient_payload: Option<TransientPayload> },
    SendCode { email: String, transient_payload: Option<TransientPayload> },
    SubmitCode { code: String, transient_payload: Option<TransientPayload> },
}

} // verus!

//! The inputs of the API's mutations and the domain values they become.
use vstd::prelude::*;
use vstd::std_specs::convert::FromSpecImpl;
use crate::domain::commands::{
    LoginCommand, SettingsCommand, SettingsData as SettingsCommandData, TransientPayload,
    VerificationCommand,
};
use crate::domain::ports::{
    LoginCredentials, RecoveryRequest, RegistrationData, SendCodeRequest, SettingsData,
    SubmitCodeRequest, VerifyByLinkRequest,
};

verus! {

/// A registration form.
#[derive(Debug, Clone)]
pub struct RegisterInput {
    pub email: String,
    pub username: Option<String>,
    pub password: String,
    pub geo_location: Option<String>,
}

/// A login form, by password or by code.
#[derive(Debug, Clone)]
pub struct LoginInput {
    pub identifier: String,
    pub password: String,
    pub address: Option<String>,
    pub code: Option<String>,
    pub resend: Option<String>,
}

/// A login form by password.
#[derive(Debug, Clone)]
pub struct LoginPasswordInput {
    pub identifier: String,
    pub password: String,
    pub address: Option<String>,
}

/// A login form by code.
#[derive(Debug, Clone)]
pub struct LoginCodeInput {
    pub code: String,
    pub resend: Option<String>,
}

/// A request for a recovery link.
#[derive(Debug, Clone)]
pub struct RecoveryInput {
    pub email: String,
}

/// A request for a verification link.
#[derive(Debug)]
pub struct VerifyByLinkInput {
    pub email: String,
    pub transient_payload: Option<serde_json::Value>,
}

/// A request for a verification code.
#[derive(Debug)]
pub struct SendVerificationCodeInput {
    pub email: String,
    pub transient_payload: Option<serde_json::Value>,
}

/// A verification code handed in.
#[derive(Debug)]
pub struct SubmitVerificationCodeInput {
    pub code: String,
    pub transient_payload: Option<serde_json::Value>,
}

/// A settings change, field by field.
#[derive(Debug)]
pub struct UpdateSettingsInput {
    pub method: String,
    pub password: Option<String>,
    pub traits: Option<serde_json::Value>,
    pub lookup_secret_confirm: Option<bool>,
    pub lookup_secret_disable: Option<bool>,
    pub lookup_secret_regenerate: Option<bool>,
    pub lookup_secret_reveal: Option<bool>,
    pub transient_payload: Option<serde_json::Value>,
}

/// A new password.
#[derive(Debug)]
pub struct UpdatePasswordInput {
    pub password: String,
    pub transient_payload: Option<serde_json::Value>,
}

/// New profile traits.
#[derive(Debug)]
pub struct UpdateProfileInput {
    pub traits: serde_json::Value,
    pub transient_payload: Option<serde_json::Value>,
}

/// Lookup-secret actions.
#[derive(Debug)]
pub struct UpdateLookupSecretInput {
    pub confirm: Option<bool>,
    pub disable: Option<bool>,
    pub regenerate: Option<bool>,
    pub reveal: Option<bool>,
    pub transient_payload: Option<serde_json::Value>,
}

impl From<LoginInput> for LoginCredentials {
    fn from(input: LoginInput) -> (r: Self) {
        LoginCredentials {
            identifier: input.identifier,
            password: input.password,
            address: input.address,
            code: input.code,
            resend: input.resend,
        }
    }
}

impl FromSpecImpl<LoginInput> for LoginCredentials {
    open spec fn obeys_from_spec() -> bool {
        true
    }

    open spec fn from_spec(input: LoginInput) -> Self {
        LoginCredentials {
            identifier: input.identifier,
            password: input.password,
            address: input.address,
            code: input.code,
            resend: input.resend,
        }
    }
}

impl From<RecoveryInput> for RecoveryRequest {
    fn from(input: RecoveryInput) -> (r: Self) {
        RecoveryRequest { email: input.email }
    }
}

impl FromSpecImpl<RecoveryInput> for RecoveryRequest {
    open spec fn obeys_from_spec() -> bool {
        true
    }

    open spec fn from_spec(input: RecoveryInput) -> Self {
        RecoveryRequest { email: input.email }
    }
}

/// The username a registration form gives: the one entered, or the empty string.
pub open spec fn chosen_username(username: Option<String>) -> Seq<char> {
    match username {
        Some(u) => u@,
        None => Seq::empty(),
    }
}

impl RegistrationData {
    /// The registration data of a form; a missing username becomes the empty string.
    pub fn from_input(input: RegisterInput) -> (r: RegistrationData)
        ensures
            r.email == input.email,
            r.username@ == chosen_username(input.username),
            input.username matches Some(u) ==> r.username == u,
            r.password == input.password,
            r.geo_location == input.geo_location,
    {
        let username = match input.username {
            Some(u) => u,
            None => String::new(),
        };
        RegistrationData {
            email: input.email,
            username,
            password: input.password,
            geo_location: input.geo_location,
        }
    }
}

impl From<RegisterInput> for RegistrationData {
    fn from(input: RegisterInput) -> (r: Self)
        ensures
            r.email == input.email,
            r.username@ == chosen_username(input.username),
            r.password == input.password,
            r.geo_location == input.geo_location,
    {
        RegistrationData::from_input(input)
    }
}

impl FromSpecImpl<RegisterInput> for RegistrationData {
    /// A missing username becomes a fresh empty string, which no spec value
    /// stands for; the conversion's contract is stated on `from` itself.
    open spec fn obeys_from_spec() -> bool {
        false
    }

    open spec fn from_spec(input: RegisterInput) -> Self {
        RegistrationData {
            email: input.email,
            username: match input.username {
                Some(u) => u,
                None => vstd::pervasive::arbitrary(),
            },
            password: input.password,
            geo_location: input.geo_location,
        }
    }
}

impl From<UpdateSettingsInput> for SettingsData {
    fn from(input: UpdateSettingsInput) -> (r: Self) {
        SettingsData {
            method: input.method,
            password: input.password,
            traits: input.traits,
            lookup_secret_confirm: input.lookup_secret_confirm,
            lookup_secret_disable: input.lookup_secret_disable,
            lookup_secret_regenerate: input.lookup_secret_regenerate,
            lookup_secret_reveal: input.lookup_secret_reveal,
            transient_payload: input.transient_payload,
        }
    }
}

impl FromSpecImpl<UpdateSettingsInput> for SettingsData {
    open spec fn obeys_from_spec() -> bool {
        true
    }

    open spec fn from_spec(input: UpdateSettingsInput) -> Self {
        SettingsData {
            method: input.method,
            password: input.password,
            traits: input.traits,
            lookup_secret_confirm: input.lookup_secret_confirm,
            lookup_secret_disable: input.lookup_secret_disable,
            lookup_secret_regenerate: input.lookup_secret_regenerate,
            lookup_secret_reveal: input.lookup_secret_reveal,
            transient_payload: input.transient_payload,
        }
    }
}

impl From<VerifyByLinkInput> for VerifyByLinkRequest {
    fn from(input: VerifyByLinkInput) -> (r: Self) {
        VerifyByLinkRequest { email: input.email, transient_payload: input.transient_payload }
    }
}

impl FromSpecImpl<VerifyByLinkInput> for VerifyByLinkRequest {
    open spec fn obeys_from_spec() -> bool {
        true
    }

    open spec fn from_spec(input: VerifyByLinkInput) -> Self {
        VerifyByLinkRequest { email: input.email, transient_payload: input.transient_payload }
    }
}

impl From<SendVerificationCodeInput> for SendCodeRequest {
    fn from(input: SendVerificationCodeInput) -> (r: Self) {
        SendCodeRequest { email: input.email, transient_payload: input.transient_payload }
    }
}

impl FromSpecImpl<SendVerificationCodeInput> for SendCodeRequest {
    open spec fn obeys_from_spec() -> bool {
        true
    }

    open spec fn from_spec(input: SendVerificationCodeInput) -> Self {
        SendCodeRequest { email: input.email, transient_payload: input.transient_payload }
    }
}

impl From<SubmitVerificationCodeInput> for SubmitCodeRequest {
    fn from(input: SubmitVerificationCodeInput) -> (r: Self) {
        SubmitCodeRequest { code: input.code, transient_payload: input.transient_payload }
    }
}

impl FromSpecImpl<SubmitVerificationCodeInput> for SubmitCodeRequest {
    open spec fn obeys_from_spec() -> bool {
        true
    }

    open spec fn from_spec(input: SubmitVerificationCodeInput) -> Self {
        SubmitCodeRequest { code: input.code, transient_payload: input.transient_payload }
    }
}

impl From<LoginPasswordInput> for LoginCommand {
    fn from(input: LoginPasswordInput) -> (r: Self) {
        LoginCommand::Password {
            identifier: input.identifier,
            password: input.password,
            address: input.address,
        }
    }
}

impl FromSpecImpl<LoginPasswordInput> for LoginCommand {
    open spec fn obeys_from_spec() -> bool {
        true
    }

    open spec fn from_spec(input: LoginPasswordInput) -> Self {
        LoginCommand::Password {
            identifier: input.identifier,
            password: input.password,
            address: input.address,
        }
    }
}

impl From<LoginCodeInput> for LoginCommand {
    fn from(input: LoginCodeInput) -> (r: Self) {
        LoginCommand::Code { code: input.code, resend: input.resend }
    }
}

impl FromSpecImpl<LoginCodeInput> for LoginCommand {
    open spec fn obeys_from_spec() -> bool {
        true
    }

    open spec fn from_spec(input: LoginCodeInput) -> Self {
        LoginCommand::Code { code: input.code, resend: input.resend }
    }
}

impl From<UpdatePasswordInput> for SettingsCommandData {
    fn from(input: UpdatePasswordInput) -> (r: Self) {
        SettingsCommandData {
            command: SettingsCommand::Password { password: input.password },
            transient_payload: input.transient_payload,
        }
    }
}

impl FromSpecImpl<UpdatePasswordInput> for SettingsCommandData {
    open spec fn obeys_from_spec() -> bool {
        true
    }

    open spec fn from_spec(input: UpdatePasswordInput) -> Self {
        SettingsCommandData {
            command: SettingsCommand::Password { password: input.password },
            transient_payload: input.transient_payload,
        }
    }
}

impl From<UpdateProfileInput> for SettingsCommandData {
    fn from(input: UpdateProfileInput) -> (r: Self) {
        SettingsCommandData {
            command: SettingsCommand::Profile { traits: input.traits },
            transient_payload: input.transient_payload,
        }
    }
}

impl FromSpecImpl<UpdateProfileInput> for SettingsCommandData {
    open spec fn obeys_from_spec() -> bool {
        true
    }

    open spec fn from_spec(input: UpdateProfileInput) -> Self {
        SettingsCommandData {
            command: SettingsCommand::Profile { traits: input.traits },
            transient_payload: input.transient_payload,
        }
    }
}

impl From<UpdateLookupSecretInput> for SettingsCommandData {
    fn from(input: UpdateLookupSecretInput) -> (r: Self) {
        SettingsCommandData {
            command: SettingsCommand::LookupSecret {
                confirm: input.confirm,
                disable: input.disable,
                regenerate: input.regenerate,
                reveal: input.reveal,
            },
            transient_payload: input.transient_payload,
        }
    }
}

impl FromSpecImpl<UpdateLookupSecretInput> for SettingsCommandData {
    open spec fn obeys_from_spec() -> bool {
        true
    }

    open spec fn from_spec(input: UpdateLookupSecretInput) -> Self {
        SettingsCommandData {
            command: SettingsCommand::LookupSecret {
                confirm: input.confirm,
                disable: input.disable,
                regenerate: input.regenerate,
                reveal: input.reveal,
            },
            transient_payload: input.transient_payload,
        }
    }
}

/// A transient payload given as plain JSON, wrapped.
pub open spec fn wrap_transient(v: Option<serde_json::Value>) -> Option<TransientPayload> {
    match v {
        Some(j) => Some(TransientPayload(j)),
        None => None,
    }
}

fn wrap_transient_exec(v: Option<serde_json::Value>) -> (r: Option<TransientPayload>)
    ensures
        r == wrap_transient(v),
{
    match v {
        Some(j) => Some(TransientPayload(j)),
        None => None,
    }
}

impl From<VerifyByLinkInput> for VerificationCommand {
    fn from(input: VerifyByLinkInput) -> (r: Self) {
        VerificationCommand::ByLink {
            email: input.email,
            transient_payload: wrap_transient_exec(input.transient_payload),
        }
    }
}

impl FromSpecImpl<VerifyByLinkInput> for VerificationCommand {
    open spec fn obeys_from_spec() -> bool {
        true
    }

    open spec fn from_spec(input: VerifyByLinkInput) -> Self {
        VerificationCommand::ByLink {
            email: input.email,
            transient_payload: wrap_transient(input.transient_payload),
        }
    }
}

impl From<SendVerificationCodeInput> for VerificationCommand {
    fn from(input: SendVerificationCodeInput) -> (r: Self) {
        VerificationCommand::SendCode {
            email: input.email,
            transient_payload: wrap_transient_exec(input.transient_payload),
        }
    }
}

impl FromSpecImpl<SendVerificationCodeInput> for VerificationCommand {
    open spec fn obeys_from_spec() -> bool {
        true
    }

    open spec fn from_spec(input: SendVerificationCodeInput) -> Self {
        VerificationCommand::SendCode {
            email: input.email,
            transient_payload: wrap_transient(input.transient_payload),
        }
    }
}

impl From<SubmitVerificationCodeInput> for VerificationCommand {
    fn from(input: SubmitVerificationCodeInput) -> (r: Self) {
        VerificationCommand::SubmitCode {
            code: input.code,
            transient_payload: wrap_transient_exec(input.transient_payload),
        }
    }
}

impl FromSpecImpl<SubmitVerificationCodeInput> for VerificationCommand {
    open spec fn obeys_from_spec() -> bool {
        true
    }

    open spec fn from_spec(input: SubmitVerificationCodeInput) -> Self {
        VerificationCommand::SubmitCode {
            code: input.code,
            transient_payload: wrap_transient(input.transient_payload),
        }
    }
}

} // verus!

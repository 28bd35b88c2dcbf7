//! The decisions the API's mutations take before and after running a use case.
use vstd::prelude::*;
use crate::application::commands::LoginCommand;
use crate::domain::errors::DomainError;
use crate::domain::ports::LoginCredentials;
use crate::presentation::inputs::LoginInput;
use crate::text::owned;

verus! {

/// Logging in through the API.
#[derive(Debug, Clone, Copy)]
pub struct LoginMutation;

impl LoginMutation {
    /// The login command for a login form and the caller's cookie.
    pub fn command(input: LoginInput, cookie: Option<String>) -> (r: LoginCommand)
        ensures
            r.credentials == (LoginCredentials {
                identifier: input.identifier,
                password: input.password,
                address: input.address,
                code: input.code,
                resend: input.resend,
            }),
            r.cookie == cookie,
    {
        LoginCommand { credentials: LoginCredentials::from(input), cookie }
    }
}

/// Verifying addresses through the API.
#[derive(Debug, Clone, Copy)]
pub struct VerificationMutation;

/// The message of the API error for a verification code handed in without a cookie.
pub open spec fn cookie_required_message() -> Seq<char> {
    "Cookie is required to submit verification code"@
}

impl VerificationMutation {
    /// A verification code can only be handed in with the session cookie that
    /// started the verification.
    pub fn submit_cookie(cookie: Option<String>) -> (r: Result<String, String>)
        ensures
            match cookie {
                None => r matches Err(m) && m@ == cookie_required_message(),
                Some(c) => r == Ok::<String, String>(c),
            },
    {
        match cookie {
            None => Err(owned("Cookie is required to submit verification code")),
            Some(c) => Ok(c),
        }
    }
}

/// The message of the API error for a failed use case.
pub fn api_error_message(e: &DomainError) -> (r: String)
    ensures
        r@ == e@.message(),
{
    e.message()
}

} // verus!

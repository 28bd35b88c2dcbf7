//! Telling who a session belongs to.
use vstd::prelude::*;
use crate::domain::errors::{DomainError, ErrorView};
use crate::domain::ports::UserProfile;
use crate::kratos::models::{HttpGet, HttpOutcome, SessionInfo, opt_view};
use crate::kratos::status::is_success_code;
use crate::kratos::urls::{spec_whoami_url, whoami_url};
use crate::text::owned;

verus! {

/// The request that asks Kratos who the session in `cookie` belongs to.
pub fn whoami_request(public_url: &str, cookie: &str) -> (r: HttpGet)
    ensures
        r.url@ == spec_whoami_url(public_url@),
        opt_view(r.cookie) == Some(cookie@),
{
    HttpGet { url: whoami_url(public_url), cookie: Some(owned(cookie)) }
}

/// How asking for the current user ends: a transport or decoding failure is a
/// network error, a refusal means the caller is not authenticated, and an
/// answer without an email or a username is an unknown error.
pub open spec fn current_user_result(
    outcome: HttpOutcome<SessionInfo>,
    r: Result<UserProfile, DomainError>,
) -> bool {
    match outcome {
        HttpOutcome::SendFailed(e) => r matches Err(d) && d@ == ErrorView::Network(e@),
        HttpOutcome::Replied(reply) => if !is_success_code(reply.status.spec_code()) {
            r matches Err(d) && d@ == ErrorView::NotAuthenticated
        } else {
            match reply.document {
                Err(e) => r matches Err(d) && d@ == ErrorView::Network(e@),
                Ok(info) => match (info.email, info.username) {
                    (None, _) => r matches Err(d) && d@ == ErrorView::Unknown("Email not found"@),
                    (Some(_), None) => r matches Err(d) && d@ == ErrorView::Unknown(
                        "Username not found"@,
                    ),
                    (Some(email), Some(username)) => r matches Ok(p) && p.email == email
                        && p.username == username && p.geo_location == info.geo_location,
                },
            }
        },
    }
}

/// The profile of the user that a `/sessions/whoami` answer describes.
pub fn current_user_outcome(outcome: HttpOutcome<SessionInfo>) -> (r: Result<
    UserProfile,
    DomainError,
>)
    ensures
        current_user_result(outcome, r),
{
    match outcome {
        HttpOutcome::SendFailed(e) => Err(DomainError::Network(e)),
        HttpOutcome::Replied(reply) => {
            if !reply.status.is_success() {
                return Err(DomainError::NotAuthenticated);
            }
            match reply.document {
                Err(e) => Err(DomainError::Network(e)),
                Ok(info) => match info.email {
                    None => Err(DomainError::Unknown(owned("Email not found"))),
                    Some(email) => match info.username {
                        None => Err(DomainError::Unknown(owned("Username not found"))),
                        Some(username) => Ok(
                            UserProfile { email, username, geo_location: info.geo_location },
                        ),
                    },
                },
            }
        },
    }
}

} // verus!

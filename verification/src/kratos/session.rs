//! Sessions: whether one is active or comes from account recovery, and logging out.
use vstd::prelude::*;
use crate::domain::errors::{DomainError, ErrorView};
use crate::domain::ports::UserProfile;
use crate::kratos::identity::whoami_request;
use crate::kratos::models::{HttpGet, HttpOutcome, LogoutFlowInfo, SessionInfo, opt_view};
use crate::kratos::status::{
    is_success_code, status_line, STATUS_FORBIDDEN, STATUS_FOUND, STATUS_SEE_OTHER,
    STATUS_TOO_MANY_REQUESTS, STATUS_UNAUTHORIZED,
};
use crate::kratos::urls::{logout_flow_url, spec_logout_flow_url, spec_whoami_url};
use crate::text::{owned, str_eq};

verus! {

/// The request that inspects the caller's session, where the caller sent a
/// cookie; without one there is nothing to ask and no session.
pub fn session_probe(public_url: &str, cookie: Option<&str>) -> (r: Option<HttpGet>)
    ensures
        r is Some <==> cookie is Some,
        r matches Some(g) ==> g.url@ == spec_whoami_url(public_url@) && opt_view(g.cookie) == Some(
            cookie.unwrap()@,
        ),
{
    match cookie {
        None => None,
        Some(c) => Some(whoami_request(public_url, c)),
    }
}

/// A session is active when asking for its user succeeded.
pub fn active_session_outcome(user: &Result<UserProfile, DomainError>) -> (r: bool)
    ensures
        r == user is Ok,
{
    user.is_ok()
}

/// An authentication method that account recovery grants.
pub open spec fn is_recovery_method(m: Option<String>) -> bool {
    m matches Some(s) && (s@ == "link_recovery"@ || s@ == "code_recovery"@)
}

/// The session was granted by account recovery: one of its authentication
/// methods is `link_recovery` or `code_recovery`.
pub open spec fn spec_is_recovery_session(outcome: HttpOutcome<SessionInfo>) -> bool {
    match outcome {
        HttpOutcome::SendFailed(_) => false,
        HttpOutcome::Replied(reply) => match reply.document {
            Err(_) => false,
            Ok(info) => match info.authentication_methods {
                None => false,
                Some(methods) => exists|i: int|
                    0 <= i < methods@.len() && is_recovery_method(#[trigger] methods@[i]),
            },
        },
    }
}

fn recovery_method(m: &Option<String>) -> (r: bool)
    ensures
        r == is_recovery_method(*m),
{
    match m {
        Some(s) => str_eq(s.as_str(), "link_recovery") || str_eq(s.as_str(), "code_recovery"),
        None => false,
    }
}

/// Whether the inspected session was granted by account recovery.
#[verifier::loop_isolation(false)]
pub fn is_recovery_session_outcome(outcome: HttpOutcome<SessionInfo>) -> (r: bool)
    ensures
        r == spec_is_recovery_session(outcome),
{
    match outcome {
        HttpOutcome::SendFailed(_) => false,
        HttpOutcome::Replied(reply) => match reply.document {
            Err(_) => false,
            Ok(info) => match info.authentication_methods {
                None => false,
                Some(methods) => {
                    let mut i: usize = 0;
                    while i < methods.len()
                        invariant
                            i <= methods.len(),
                            forall|j: int| 0 <= j < i ==> !is_recovery_method(#[trigger] methods@[j]),
                        decreases methods.len() - i,
                    {
                        if recovery_method(&methods[i]) {
                            return true;
                        }
                        i = i + 1;
                    }
                    false
                },
            },
        },
    }
}

/// The authentication methods an inspected session reported, where Kratos
/// answered with a readable session that lists them.
pub open spec fn session_methods(outcome: HttpOutcome<SessionInfo>) -> Option<Seq<Option<String>>> {
    match outcome {
        HttpOutcome::Replied(reply) => match reply.document {
            Ok(info) => match info.authentication_methods {
                Some(methods) => Some(methods@),
                None => None,
            },
            Err(_) => None,
        },
        HttpOutcome::SendFailed(_) => None,
    }
}

/// A session that lists `link_recovery` or `code_recovery` among its
/// methods, at whatever position, was granted by account recovery.
pub proof fn lemma_recovery_method_anywhere(outcome: HttpOutcome<SessionInfo>, i: int)
    requires
        session_methods(outcome) is Some,
        0 <= i < session_methods(outcome).unwrap().len(),
        session_methods(outcome).unwrap()[i] is Some,
        session_methods(outcome).unwrap()[i].unwrap()@ == "link_recovery"@
            || session_methods(outcome).unwrap()[i].unwrap()@ == "code_recovery"@,
    ensures
        spec_is_recovery_session(outcome),
{
    let ms = session_methods(outcome).unwrap();
    assert(is_recovery_method(ms[i]));
}

/// A session that lists no recovery method, or reports no methods at all,
/// was not granted by account recovery.
pub proof fn lemma_no_recovery_method(outcome: HttpOutcome<SessionInfo>)
    requires
        forall|i: int|
            session_methods(outcome) is Some && 0 <= i < session_methods(outcome).unwrap().len()
                && (#[trigger] session_methods(outcome).unwrap()[i]) is Some ==> {
                &&& session_methods(outcome).unwrap()[i].unwrap()@ != "link_recovery"@
                &&& session_methods(outcome).unwrap()[i].unwrap()@ != "code_recovery"@
            },
    ensures
        !spec_is_recovery_session(outcome),
{
    if spec_is_recovery_session(outcome) {
        let ms = session_methods(outcome).unwrap();
        let i = choose|i: int| 0 <= i < ms.len() && is_recovery_method(#[trigger] ms[i]);
        assert(ms[i] is Some);
    }
}

/// Listing more methods before or after those of a recovery session keeps
/// it a recovery session.
pub proof fn lemma_recovery_survives_more_methods(
    short: HttpOutcome<SessionInfo>,
    long: HttpOutcome<SessionInfo>,
    before: Seq<Option<String>>,
    after: Seq<Option<String>>,
)
    requires
        session_methods(short) is Some,
        session_methods(long) == Some(before + session_methods(short).unwrap() + after),
        spec_is_recovery_session(short),
    ensures
        spec_is_recovery_session(long),
{
    let ms = session_methods(short).unwrap();
    let ls = session_methods(long).unwrap();
    let i = choose|i: int| 0 <= i < ms.len() && is_recovery_method(#[trigger] ms[i]);
    assert(ls[before.len() + i] == ms[i]);
    assert(is_recovery_method(ls[before.len() + i]));
}

/// Kratos refusing to start a logout flow with 401 or 403 means the caller
/// is not logged in, whatever else the answer holds.
pub proof fn lemma_logout_refusal_is_not_authenticated(
    outcome: HttpOutcome<LogoutFlowInfo>,
    r: Result<String, DomainError>,
)
    requires
        logout_flow_result(outcome, r),
        outcome matches HttpOutcome::Replied(reply) && (reply.status.spec_code() == 401u16
            || reply.status.spec_code() == 403u16),
    ensures
        r matches Err(d) && d@ == ErrorView::NotAuthenticated,
{
}

/// A logout flow that Kratos started (a success status) with a logout URL
/// yields that very URL; a rate-limited request (429) is reported as such.
pub proof fn lemma_logout_flow_answers(outcome: HttpOutcome<LogoutFlowInfo>, r: Result<String, DomainError>)
    requires
        logout_flow_result(outcome, r),
        outcome is Replied,
    ensures
        200 <= outcome->Replied_0.status.spec_code() < 300 && outcome->Replied_0.document is Ok
            && outcome->Replied_0.document.unwrap().logout_url is Some ==> r == Ok::<
            String,
            DomainError,
        >(outcome->Replied_0.document.unwrap().logout_url.unwrap()),
        outcome->Replied_0.status.spec_code() == 429u16 ==> (r matches Err(d) && d@
            == ErrorView::ServiceUnavailable("Rate limit exceeded"@)),
{
}

/// The request that starts a logout flow for the session in `cookie`.
pub fn logout_flow_request(public_url: &str, cookie: &str) -> (r: HttpGet)
    ensures
        r.url@ == spec_logout_flow_url(public_url@),
        opt_view(r.cookie) == Some(cookie@),
{
    HttpGet { url: logout_flow_url(public_url), cookie: Some(owned(cookie)) }
}

/// How starting a logout flow ends: its logout URL, or the error for an
/// unauthenticated caller, a rate limit, another refusal or an unusable answer.
pub open spec fn logout_flow_result(
    outcome: HttpOutcome<LogoutFlowInfo>,
    r: Result<String, DomainError>,
) -> bool {
    match outcome {
        HttpOutcome::SendFailed(e) => r matches Err(d) && d@ == ErrorView::ServiceUnavailable(e@),
        HttpOutcome::Replied(reply) => {
            let code = reply.status.spec_code();
            if code == STATUS_UNAUTHORIZED || code == STATUS_FORBIDDEN {
                r matches Err(d) && d@ == ErrorView::NotAuthenticated
            } else if code == STATUS_TOO_MANY_REQUESTS {
                r matches Err(d) && d@ == ErrorView::ServiceUnavailable("Rate limit exceeded"@)
            } else if !is_success_code(code) {
                r matches Err(d) && d@ == ErrorView::ServiceUnavailable(
                    "Failed to get logout flow: "@ + status_line(code),
                )
            } else {
                match reply.document {
                    Err(e) => r matches Err(d) && d@ == ErrorView::ServiceUnavailable(e@),
                    Ok(info) => match info.logout_url {
                        None => r matches Err(d) && d@ == ErrorView::InvalidData(
                            "Logout URL not found"@,
                        ),
                        Some(u) => r == Ok::<String, DomainError>(u),
                    },
                }
            }
        },
    }
}

/// The logout URL of a freshly started logout flow.
pub fn logout_flow_outcome(outcome: HttpOutcome<LogoutFlowInfo>) -> (r: Result<
    String,
    DomainError,
>)
    ensures
        logout_flow_result(outcome, r),
{
    match outcome {
        HttpOutcome::SendFailed(e) => Err(DomainError::ServiceUnavailable(e)),
        HttpOutcome::Replied(reply) => {
            let code = reply.status.code();
            if code == STATUS_UNAUTHORIZED || code == STATUS_FORBIDDEN {
                return Err(DomainError::NotAuthenticated);
            }
            if code == STATUS_TOO_MANY_REQUESTS {
                return Err(DomainError::ServiceUnavailable(owned("Rate limit exceeded")));
            }
            if !reply.status.is_success() {
                let mut m = owned("Failed to get logout flow: ");
                let st = reply.status.display();
                m.append(st.as_str());
                return Err(DomainError::ServiceUnavailable(m));
            }
            match reply.document {
                Err(e) => Err(DomainError::ServiceUnavailable(e)),
                Ok(info) => match info.logout_url {
                    None => Err(DomainError::InvalidData(owned("Logout URL not found"))),
                    Some(u) => Ok(u),
                },
            }
        },
    }
}

/// The request that follows a logout URL, with the session cookie.
pub fn logout_request(logout_url: String, cookie: &str) -> (r: HttpGet)
    ensures
        r.url == logout_url,
        opt_view(r.cookie) == Some(cookie@),
{
    HttpGet { url: logout_url, cookie: Some(owned(cookie)) }
}

/// How following the logout URL ends: any success or redirect logs out; an
/// unauthenticated caller is refused; anything else is reported with the
/// answer's text, or with the status where the text could not be read.
pub open spec fn logout_result(outcome: HttpOutcome<()>, r: Result<(), DomainError>) -> bool {
    match outcome {
        HttpOutcome::SendFailed(e) => r matches Err(d) && d@ == ErrorView::ServiceUnavailable(e@),
        HttpOutcome::Replied(reply) => {
            let code = reply.status.spec_code();
            if is_success_code(code) || code == STATUS_FOUND || code == STATUS_SEE_OTHER {
                r is Ok
            } else if code == STATUS_UNAUTHORIZED || code == STATUS_FORBIDDEN {
                r matches Err(d) && d@ == ErrorView::NotAuthenticated
            } else {
                r matches Err(d) && d@ == ErrorView::ServiceUnavailable(
                    "Logout failed: "@ + match reply.body_text {
                        Some(t) => t@,
                        None => status_line(code),
                    },
                )
            }
        },
    }
}

/// Whether following the logout URL logged the session out.
pub fn logout_outcome(outcome: HttpOutcome<()>) -> (r: Result<(), DomainError>)
    ensures
        logout_result(outcome, r),
{
    match outcome {
        HttpOutcome::SendFailed(e) => Err(DomainError::ServiceUnavailable(e)),
        HttpOutcome::Replied(reply) => {
            let code = reply.status.code();
            if reply.status.is_success() || code == STATUS_FOUND || code == STATUS_SEE_OTHER {
                Ok(())
            } else if code == STATUS_UNAUTHORIZED || code == STATUS_FORBIDDEN {
                Err(DomainError::NotAuthenticated)
            } else {
                let text = match reply.body_text {
                    Some(t) => t,
                    None => reply.status.display(),
                };
                let mut m = owned("Logout failed: ");
                m.append(text.as_str());
                Err(DomainError::ServiceUnavailable(m))
            }
        },
    }
}

} // verus!

//! Logging in through a Kratos login flow.
use vstd::prelude::*;
use crate::domain::errors::{DomainError, ErrorView};
use crate::domain::ports::LoginCredentials;
use crate::kratos::models::{FlowPayload, FlowResult, FlowSubmission, KratosFlowError, PostFlowResult};
use crate::kratos::status::{STATUS_BAD_REQUEST, STATUS_GONE, STATUS_UNAUTHORIZED};
use crate::text::{contains_str, owned, seq_contains, seq_starts_with, starts_with_str};

verus! {

/// Kratos's message id for credentials that do not match an identity.
pub const MESSAGE_INVALID_CREDENTIALS: u64 = 4000006;

/// A second message id with which Kratos refuses a login.
pub const MESSAGE_LOGIN_REFUSED: u64 = 4000010;

/// A login may begin unless the caller already holds an active session that
/// is not a recovery session.
pub fn initiate_login_gate(active_session: bool, recovery_session: bool) -> (r: Result<
    (),
    DomainError,
>)
    ensures
        r is Err <==> active_session && !recovery_session,
        r matches Err(e) ==> e@ == ErrorView::AlreadyLoggedIn,
{
    if active_session && !recovery_session {
        Err(DomainError::AlreadyLoggedIn)
    } else {
        Ok(())
    }
}

/// The id of a freshly fetched login flow.
pub fn initiate_login_outcome(flow: Result<FlowResult, String>) -> (r: Result<String, DomainError>)
    ensures
        match flow {
            Err(e) => r matches Err(d) && d@ == ErrorView::Network(e@),
            Ok(f) => match f.flow.id {
                None => r matches Err(d) && d@ == ErrorView::FlowNotFound,
                Some(id) => r == Ok::<String, DomainError>(id),
            },
        },
{
    match flow {
        Err(e) => Err(DomainError::Network(e)),
        Ok(f) => match f.flow.id {
            None => Err(DomainError::FlowNotFound),
            Some(id) => Ok(id),
        },
    }
}

/// `p` submits `credentials` with the flow's CSRF token: by password, or by
/// code where a code is given; the address, code and resend fields go along
/// where given.
pub open spec fn is_login_payload(p: FlowPayload, credentials: LoginCredentials, csrf: String) -> bool {
    &&& p.method@ == (if credentials.code is Some {
        "code"@
    } else {
        "password"@
    })
    &&& p.csrf_token == csrf
    &&& p.identifier == Some(credentials.identifier)
    &&& p.password == Some(credentials.password)
    &&& p.address == credentials.address
    &&& p.code == credentials.code
    &&& p.resend == credentials.resend
    &&& p.email is None
    &&& p.traits is None
    &&& p.lookup_secret_confirm is None
    &&& p.lookup_secret_disable is None
    &&& p.lookup_secret_regenerate is None
    &&& p.lookup_secret_reveal is None
    &&& p.transient_payload is None
}

/// A login payload carries every credential the user gave: the identifier
/// and password, and the address, code and resend fields exactly as given
/// (present where given, absent where not), under the method `code` when a
/// code is given and `password` otherwise.
pub proof fn lemma_login_payload_keeps_credentials(
    p: FlowPayload,
    credentials: LoginCredentials,
    csrf: String,
)
    requires
        is_login_payload(p, credentials, csrf),
    ensures
        p.csrf_token == csrf,
        p.identifier == Some(credentials.identifier),
        p.password == Some(credentials.password),
        p.address == credentials.address,
        p.code == credentials.code,
        p.resend == credentials.resend,
        (p.address is Some) <==> (credentials.address is Some),
        credentials.code is Some ==> p.method@ == "code"@,
        credentials.code is None ==> p.method@ == "password"@,
{
}

/// The payload that submits `credentials` to a login flow.
pub fn login_payload(credentials: LoginCredentials, csrf_token: String) -> (p: FlowPayload)
    ensures
        is_login_payload(p, credentials, csrf_token),
{
    let method = if credentials.code.is_some() {
        owned("code")
    } else {
        owned("password")
    };
    let mut p = FlowPayload::new(method, csrf_token);
    p.identifier = Some(credentials.identifier);
    p.password = Some(credentials.password);
    p.address = credentials.address;
    p.code = credentials.code;
    p.resend = credentials.resend;
    p
}

/// The submission that completes the login flow `flow_id`, given the login
/// flow fetched for its CSRF token and cookies.
pub fn complete_login_submission(
    flow_id: &str,
    flow: Result<FlowResult, String>,
    credentials: LoginCredentials,
) -> (r: Result<FlowSubmission, DomainError>)
    ensures
        match flow {
            Err(e) => r matches Err(d) && d@ == ErrorView::Network(e@),
            Ok(f) => r matches Ok(s) && s.flow_id@ == flow_id@ && s.cookies == f.cookies
                && is_login_payload(s.payload, credentials, f.csrf_token),
        },
{
    match flow {
        Err(e) => Err(DomainError::Network(e)),
        Ok(f) => Ok(
            FlowSubmission {
                flow_id: owned(flow_id),
                payload: login_payload(credentials, f.csrf_token),
                cookies: f.cookies,
            },
        ),
    }
}

/// The error that a refused login submission stands for.
pub open spec fn spec_login_error(e: KratosFlowError) -> ErrorView {
    let code = e.status.spec_code();
    if code == STATUS_BAD_REQUEST {
        if e.spec_message_id() == MESSAGE_INVALID_CREDENTIALS || e.spec_message_id()
            == MESSAGE_LOGIN_REFUSED {
            ErrorView::InvalidCredentials
        } else {
            ErrorView::InvalidData(e.spec_message_text())
        }
    } else if code == STATUS_GONE {
        ErrorView::FlowNotFound
    } else if code == STATUS_UNAUTHORIZED {
        ErrorView::NotAuthenticated
    } else {
        ErrorView::Network(e.spec_display())
    }
}

/// The error that a refused login submission stands for.
pub fn map_login_error(e: &KratosFlowError) -> (r: DomainError)
    ensures
        r@ == spec_login_error(*e),
{
    let code = e.status.code();
    if code == STATUS_BAD_REQUEST {
        let id = e.message_id();
        if id == MESSAGE_INVALID_CREDENTIALS || id == MESSAGE_LOGIN_REFUSED {
            DomainError::InvalidCredentials
        } else {
            DomainError::InvalidData(owned(e.message_text()))
        }
    } else if code == STATUS_GONE {
        DomainError::FlowNotFound
    } else if code == STATUS_UNAUTHORIZED {
        DomainError::NotAuthenticated
    } else {
        DomainError::Network(e.display())
    }
}

/// A cookie that carries a session: its text contains `session` or it starts with `ory_`.
pub open spec fn is_session_cookie(c: Seq<char>) -> bool {
    seq_contains(c, "session"@) || seq_starts_with(c, "ory_"@)
}

/// The index of the first session cookie from `i` on.
pub open spec fn session_cookie_from(cookies: Seq<Seq<char>>, i: int) -> Option<int>
    decreases cookies.len() - i,
{
    if i < 0 || i >= cookies.len() {
        None
    } else if is_session_cookie(cookies[i]) {
        Some(i)
    } else {
        session_cookie_from(cookies, i + 1)
    }
}

/// The index of the first session cookie from `i` on is one, and none before it is.
pub proof fn lemma_session_cookie_from(cookies: Seq<Seq<char>>, i: int)
    requires
        0 <= i,
    ensures
        session_cookie_from(cookies, i) matches Some(j) ==> {
            &&& i <= j < cookies.len()
            &&& is_session_cookie(cookies[j])
            &&& forall|q: int| i <= q < j ==> !is_session_cookie(#[trigger] cookies[q])
        },
        session_cookie_from(cookies, i) is None ==> forall|q: int|
            i <= q < cookies.len() ==> !is_session_cookie(#[trigger] cookies[q]),
    decreases cookies.len() - i,
{
    if i < cookies.len() && !is_session_cookie(cookies[i]) {
        lemma_session_cookie_from(cookies, i + 1);
    }
}

/// How a login submission ends: the refusal's error, an error where the
/// answer set no cookie or no session cookie, or the first session cookie.
#[verifier::loop_isolation(false)]
pub fn complete_login_outcome(post: Result<PostFlowResult, KratosFlowError>) -> (r: Result<
    String,
    DomainError,
>)
    ensures
        match post {
            Err(e) => r matches Err(d) && d@ == spec_login_error(e),
            Ok(res) => if res.cookies@.len() == 0 {
                r matches Err(d) && d@ == ErrorView::Unknown("No cookies received from server"@)
            } else {
                match session_cookie_from(res.cookies.deep_view(), 0) {
                    None => r matches Err(d) && d@ == ErrorView::Unknown(
                        "Session token not found"@,
                    ),
                    Some(i) => r matches Ok(c) && c == res.cookies@[i],
                }
            },
        },
{
    match post {
        Err(e) => Err(map_login_error(&e)),
        Ok(res) => {
            if res.cookies.len() == 0 {
                return Err(DomainError::Unknown(owned("No cookies received from server")));
            }
            let ghost dv = res.cookies.deep_view();
            let mut i: usize = 0;
            while i < res.cookies.len()
                invariant
                    i <= res.cookies.len(),
                    dv == res.cookies.deep_view(),
                    session_cookie_from(dv, 0) == session_cookie_from(dv, i as int),
                decreases res.cookies.len() - i,
            {
                let c = res.cookies[i].as_str();
                assert(dv[i as int] == c@);
                if contains_str(c, "session") || starts_with_str(c, "ory_") {
                    assert(session_cookie_from(dv, i as int) == Some(i as int));
                    return Ok(res.cookies[i].clone());
                }
                i = i + 1;
            }
            Err(DomainError::Unknown(owned("Session token not found")))
        },
    }
}

} // verus!

//! Verifying an address through a Kratos verification flow.
use vstd::prelude::*;
use crate::domain::commands::{TransientPayload, VerificationCommand};
use crate::domain::errors::{DomainError, ErrorView};
use crate::domain::ports::{SendCodeRequest, SubmitCodeRequest, VerifyByLinkRequest};
use crate::kratos::models::{FlowPayload, FlowResult, FlowSubmission, KratosFlowError, PostFlowResult};
use crate::kratos::status::{STATUS_BAD_REQUEST, STATUS_GONE, STATUS_UNAUTHORIZED};
use crate::text::owned;

verus! {

/// Kratos's message id for a wrong verification code.
pub const MESSAGE_INVALID_VERIFICATION_CODE: u64 = 4070006;

/// Kratos's message id for an address it cannot verify.
pub const MESSAGE_INVALID_VERIFICATION_ADDRESS: u64 = 4070001;

/// `s` submits to the fetched flow `f`, with its id and cookies.
pub open spec fn submits_to(s: FlowSubmission, f: FlowResult) -> bool {
    &&& f.flow.id matches Some(id) && s.flow_id == id
    &&& s.cookies == f.cookies
    &&& s.payload.csrf_token == f.csrf_token
}

/// `p` carries only a method, a CSRF token, an email or a code, and a transient payload.
pub open spec fn is_verification_payload(
    p: FlowPayload,
    method: Seq<char>,
    email: Option<String>,
    code: Option<String>,
    transient: Option<serde_json::Value>,
) -> bool {
    &&& p.method@ == method
    &&& p.email == email
    &&& p.code == code
    &&& p.transient_payload == transient
    &&& p.identifier is None
    &&& p.password is None
    &&& p.address is None
    &&& p.resend is None
    &&& p.traits is None
    &&& p.lookup_secret_confirm is None
    &&& p.lookup_secret_disable is None
    &&& p.lookup_secret_regenerate is None
    &&& p.lookup_secret_reveal is None
}

/// A verification or recovery payload submits the method, address, code and
/// transient payload it was built with, each under its own field, and no
/// credentials.
pub proof fn lemma_verification_payload_fields(
    p: FlowPayload,
    method: Seq<char>,
    email: Option<String>,
    code: Option<String>,
    transient: Option<serde_json::Value>,
)
    requires
        is_verification_payload(p, method, email, code, transient),
    ensures
        p.method@ == method,
        p.email == email,
        p.code == code,
        p.transient_payload == transient,
        p.password is None,
        p.identifier is None,
        p.traits is None,
{
}

/// How a fetched verification flow turns into a submission: a failed fetch
/// means the service is unavailable, a flow without id was not found.
pub open spec fn verification_submission_result(
    flow: Result<FlowResult, String>,
    r: Result<FlowSubmission, DomainError>,
    method: Seq<char>,
    email: Option<String>,
    code: Option<String>,
    transient: Option<serde_json::Value>,
) -> bool {
    match flow {
        Err(e) => r matches Err(d) && d@ == ErrorView::ServiceUnavailable(e@),
        Ok(f) => match f.flow.id {
            None => r matches Err(d) && d@ == ErrorView::NotFound("verification flow"@),
            Some(_) => r matches Ok(s) && submits_to(s, f) && is_verification_payload(
                s.payload,
                method,
                email,
                code,
                transient,
            ),
        },
    }
}

fn verification_submission(
    flow: Result<FlowResult, String>,
    method: &str,
    email: Option<String>,
    code: Option<String>,
    transient: Option<serde_json::Value>,
) -> (r: Result<FlowSubmission, DomainError>)
    ensures
        verification_submission_result(flow, r, method@, email, code, transient),
{
    match flow {
        Err(e) => Err(DomainError::ServiceUnavailable(e)),
        Ok(f) => match f.flow.id {
            None => Err(DomainError::NotFound(owned("verification flow"))),
            Some(id) => {
                let mut payload = FlowPayload::new(owned(method), f.csrf_token);
                payload.email = email;
                payload.code = code;
                payload.transient_payload = transient;
                Ok(FlowSubmission { flow_id: id, payload, cookies: f.cookies })
            },
        },
    }
}

/// The submission that asks for a verification link to be sent to an address.
pub fn verify_by_link_submission(flow: Result<FlowResult, String>, request: VerifyByLinkRequest) -> (r:
    Result<FlowSubmission, DomainError>)
    ensures
        verification_submission_result(
            flow,
            r,
            "link"@,
            Some(request.email),
            None,
            request.transient_payload,
        ),
{
    verification_submission(flow, "link", Some(request.email), None, request.transient_payload)
}

/// The submission that asks for a verification code to be sent to an address.
pub fn send_code_submission(flow: Result<FlowResult, String>, request: SendCodeRequest) -> (r:
    Result<FlowSubmission, DomainError>)
    ensures
        verification_submission_result(
            flow,
            r,
            "code"@,
            Some(request.email),
            None,
            request.transient_payload,
        ),
{
    verification_submission(flow, "code", Some(request.email), None, request.transient_payload)
}

/// The submission that hands in a verification code.
pub fn submit_code_submission(flow: Result<FlowResult, String>, request: SubmitCodeRequest) -> (r:
    Result<FlowSubmission, DomainError>)
    ensures
        verification_submission_result(
            flow,
            r,
            "code"@,
            None,
            Some(request.code),
            request.transient_payload,
        ),
{
    verification_submission(flow, "code", None, Some(request.code), request.transient_payload)
}

/// The error that a refused verification submission stands for.
pub open spec fn spec_verification_error(e: KratosFlowError) -> ErrorView {
    let code = e.status.spec_code();
    if code == STATUS_BAD_REQUEST {
        if e.spec_message_id() == MESSAGE_INVALID_VERIFICATION_CODE {
            ErrorView::InvalidData("Invalid verification code"@)
        } else if e.spec_message_id() == MESSAGE_INVALID_VERIFICATION_ADDRESS {
            ErrorView::InvalidData("Invalid email address"@)
        } else {
            ErrorView::InvalidData(e.spec_message_text())
        }
    } else if code == STATUS_GONE {
        ErrorView::NotFound("verification flow"@)
    } else if code == STATUS_UNAUTHORIZED {
        ErrorView::NotAuthenticated
    } else {
        ErrorView::ServiceUnavailable(e.spec_display())
    }
}

/// The error that a refused verification submission stands for.
pub fn map_verification_error(e: &KratosFlowError) -> (r: DomainError)
    ensures
        r@ == spec_verification_error(*e),
{
    let code = e.status.code();
    if code == STATUS_BAD_REQUEST {
        let id = e.message_id();
        if id == MESSAGE_INVALID_VERIFICATION_CODE {
            DomainError::InvalidData(owned("Invalid verification code"))
        } else if id == MESSAGE_INVALID_VERIFICATION_ADDRESS {
            DomainError::InvalidData(owned("Invalid email address"))
        } else {
            DomainError::InvalidData(owned(e.message_text()))
        }
    } else if code == STATUS_GONE {
        DomainError::NotFound(owned("verification flow"))
    } else if code == STATUS_UNAUTHORIZED {
        DomainError::NotAuthenticated
    } else {
        DomainError::ServiceUnavailable(e.display())
    }
}

/// How a verification submission ends.
pub fn verification_outcome(post: Result<PostFlowResult, KratosFlowError>) -> (r: Result<
    (),
    DomainError,
>)
    ensures
        match post {
            Ok(_) => r is Ok,
            Err(e) => r matches Err(d) && d@ == spec_verification_error(e),
        },
{
    match post {
        Ok(_) => Ok(()),
        Err(e) => Err(map_verification_error(&e)),
    }
}

/// The id, CSRF token and cookies of a fetched verification flow, where a
/// failed fetch is a network error and a flow without id was not found.
pub fn fetch_verification_flow(flow: Result<FlowResult, String>) -> (r: Result<
    (String, String, Vec<String>),
    DomainError,
>)
    ensures
        match flow {
            Err(e) => r matches Err(d) && d@ == ErrorView::Network(e@),
            Ok(f) => match f.flow.id {
                None => r matches Err(d) && d@ == ErrorView::FlowNotFound,
                Some(id) => r == Ok::<(String, String, Vec<String>), DomainError>(
                    (id, f.csrf_token, f.cookies),
                ),
            },
        },
{
    match flow {
        Err(e) => Err(DomainError::Network(e)),
        Ok(f) => match f.flow.id {
            None => Err(DomainError::FlowNotFound),
            Some(id) => Ok((id, f.csrf_token, f.cookies)),
        },
    }
}

/// The JSON of a transient payload.
pub open spec fn transient_json(t: Option<TransientPayload>) -> Option<serde_json::Value> {
    match t {
        Some(TransientPayload(v)) => Some(v),
        None => None,
    }
}

/// The payload of a verification step: by link or by code to an email, or
/// the code itself, with its transient payload.
pub open spec fn is_command_payload(p: FlowPayload, command: VerificationCommand, csrf: String) -> bool {
    &&& p.csrf_token == csrf
    &&& match command {
        VerificationCommand::ByLink { email, transient_payload } => is_verification_payload(
            p,
            "link"@,
            Some(email),
            None,
            transient_json(transient_payload),
        ),
        VerificationCommand::SendCode { email, transient_payload } => is_verification_payload(
            p,
            "code"@,
            Some(email),
            None,
            transient_json(transient_payload),
        ),
        VerificationCommand::SubmitCode { code, transient_payload } => is_verification_payload(
            p,
            "code"@,
            None,
            Some(code),
            transient_json(transient_payload),
        ),
    }
}

fn transient_value(t: Option<TransientPayload>) -> (r: Option<serde_json::Value>)
    ensures
        r == transient_json(t),
{
    match t {
        Some(TransientPayload(v)) => Some(v),
        None => None,
    }
}

/// A verification step asks for a link exactly when it is `ByLink`; sending
/// a code and handing one in both submit the method `code`. The address goes
/// along when a link or a code is to be sent, the code when one is handed in,
/// and the CSRF token and transient payload always.
pub proof fn lemma_verification_step_method(p: FlowPayload, command: VerificationCommand, csrf: String)
    requires
        is_command_payload(p, command, csrf),
    ensures
        p.csrf_token == csrf,
        (p.method@ == "link"@) <==> command is ByLink,
        (p.method@ == "code"@) <==> !(command is ByLink),
        p.transient_payload == transient_json(
            match command {
                VerificationCommand::ByLink { transient_payload, .. } => transient_payload,
                VerificationCommand::SendCode { transient_payload, .. } => transient_payload,
                VerificationCommand::SubmitCode { transient_payload, .. } => transient_payload,
            },
        ),
        match command {
            VerificationCommand::ByLink { email, .. } => p.email == Some(email) && p.code is None,
            VerificationCommand::SendCode { email, .. } => p.method@ == "code"@ && p.email == Some(
                email,
            ) && p.code is None,
            VerificationCommand::SubmitCode { code, .. } => p.method@ == "code"@ && p.code == Some(
                code,
            ) && p.email is None,
        },
{
    assert("link"@ != "code"@) by {
        reveal_strlit("link");
        reveal_strlit("code");
        assert("link"@[0] != "code"@[0]);
    }
}

/// A `SendCode` step submits the same payload that `send_code_submission`
/// builds for a code request to the same address.
pub proof fn lemma_send_code_step_matches_code_request(
    p: FlowPayload,
    email: String,
    transient: Option<TransientPayload>,
    csrf: String,
)
    requires
        is_command_payload(
            p,
            VerificationCommand::SendCode { email, transient_payload: transient },
            csrf,
        ),
    ensures
        is_verification_payload(p, "code"@, Some(email), None, transient_json(transient)),
        p.method@ == "code"@,
        p.email == Some(email),
{
}

/// The payload of a verification step.
pub fn verification_command_payload(command: VerificationCommand, csrf_token: String) -> (p:
    FlowPayload)
    ensures
        is_command_payload(p, command, csrf_token),
{
    match command {
        VerificationCommand::ByLink { email, transient_payload } => {
            let mut p = FlowPayload::new(owned("link"), csrf_token);
            p.email = Some(email);
            p.transient_payload = transient_value(transient_payload);
            p
        },
        VerificationCommand::SendCode { email, transient_payload } => {
            let mut p = FlowPayload::new(owned("code"), csrf_token);
            p.email = Some(email);
            p.transient_payload = transient_value(transient_payload);
            p
        },
        VerificationCommand::SubmitCode { code, transient_payload } => {
            let mut p = FlowPayload::new(owned("code"), csrf_token);
            p.code = Some(code);
            p.transient_payload = transient_value(transient_payload);
            p
        },
    }
}

/// The submission of a verification step to a fetched verification flow.
pub fn verify_command_submission(flow: Result<FlowResult, String>, command: VerificationCommand) -> (r:
    Result<FlowSubmission, DomainError>)
    ensures
        match flow {
            Err(e) => r matches Err(d) && d@ == ErrorView::Network(e@),
            Ok(f) => match f.flow.id {
                None => r matches Err(d) && d@ == ErrorView::FlowNotFound,
                Some(_) => r matches Ok(s) && submits_to(s, f) && is_command_payload(
                    s.payload,
                    command,
                    f.csrf_token,
                ),
            },
        },
{
    match fetch_verification_flow(flow) {
        Err(e) => Err(e),
        Ok((flow_id, csrf_token, cookies)) => Ok(
            FlowSubmission {
                flow_id,
                payload: verification_command_payload(command, csrf_token),
                cookies,
            },
        ),
    }
}

/// The error that a refused verification step stands for.
pub open spec fn spec_verification_command_error(e: KratosFlowError) -> ErrorView {
    let code = e.status.spec_code();
    if code == STATUS_BAD_REQUEST {
        if e.spec_message_id() == MESSAGE_INVALID_VERIFICATION_CODE {
            ErrorView::InvalidData("Invalid verification code"@)
        } else if e.spec_message_id() == MESSAGE_INVALID_VERIFICATION_ADDRESS {
            ErrorView::InvalidData("Invalid email address"@)
        } else {
            ErrorView::InvalidData(e.spec_message_text())
        }
    } else if code == STATUS_GONE {
        ErrorView::FlowNotFound
    } else if code == STATUS_UNAUTHORIZED {
        ErrorView::NotAuthenticated
    } else {
        ErrorView::Network(e.spec_display())
    }
}

/// The error that a refused verification step stands for.
pub fn map_verification_command_error(e: &KratosFlowError) -> (r: DomainError)
    ensures
        r@ == spec_verification_command_error(*e),
{
    let code = e.status.code();
    if code == STATUS_BAD_REQUEST {
        let id = e.message_id();
        if id == MESSAGE_INVALID_VERIFICATION_CODE {
            DomainError::InvalidData(owned("Invalid verification code"))
        } else if id == MESSAGE_INVALID_VERIFICATION_ADDRESS {
            DomainError::InvalidData(owned("Invalid email address"))
        } else {
            DomainError::InvalidData(owned(e.message_text()))
        }
    } else if code == STATUS_GONE {
        DomainError::FlowNotFound
    } else if code == STATUS_UNAUTHORIZED {
        DomainError::NotAuthenticated
    } else {
        DomainError::Network(e.display())
    }
}

/// How a verification step ends.
pub fn verify_command_outcome(post: Result<PostFlowResult, KratosFlowError>) -> (r: Result<
    (),
    DomainError,
>)
    ensures
        match post {
            Ok(_) => r is Ok,
            Err(e) => r matches Err(d) && d@ == spec_verification_command_error(e),
        },
{
    match post {
        Ok(_) => Ok(()),
        Err(e) => Err(map_verification_command_error(&e)),
    }
}

} // verus!

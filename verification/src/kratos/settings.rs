//! Changing account settings through a Kratos settings flow.
use vstd::prelude::*;
use crate::domain::commands::{SettingsCommand, SettingsData as SettingsCommandData};
use crate::domain::errors::{DomainError, ErrorView};
use crate::domain::ports::SettingsData;
use crate::kratos::models::{FlowPayload, FlowResult, FlowSubmission, KratosFlowError, PostFlowResult};
use crate::kratos::status::{STATUS_BAD_REQUEST, STATUS_FORBIDDEN, STATUS_GONE, STATUS_UNAUTHORIZED};
use crate::text::owned;

verus! {

/// The message id with which Kratos refuses a new password.
pub const MESSAGE_PASSWORD_REFUSED: u64 = 4000010;

/// The id of a freshly fetched settings flow; a failed fetch means the
/// service is unavailable and a flow without id was not found.
pub fn initiate_settings_outcome(flow: Result<FlowResult, String>) -> (r: Result<String, DomainError>)
    ensures
        match flow {
            Err(e) => r matches Err(d) && d@ == ErrorView::ServiceUnavailable(e@),
            Ok(f) => match f.flow.id {
                None => r matches Err(d) && d@ == ErrorView::NotFound("settings flow"@),
                Some(id) => r == Ok::<String, DomainError>(id),
            },
        },
{
    match flow {
        Err(e) => Err(DomainError::ServiceUnavailable(e)),
        Ok(f) => match f.flow.id {
            None => Err(DomainError::NotFound(owned("settings flow"))),
            Some(id) => Ok(id),
        },
    }
}

/// `p` submits the settings change `data`, field by field, with the token `csrf`.
pub open spec fn is_settings_payload(p: FlowPayload, data: SettingsData, csrf: String) -> bool {
    &&& p.method == data.method
    &&& p.csrf_token == csrf
    &&& p.password == data.password
    &&& p.traits == data.traits
    &&& p.lookup_secret_confirm == data.lookup_secret_confirm
    &&& p.lookup_secret_disable == data.lookup_secret_disable
    &&& p.lookup_secret_regenerate == data.lookup_secret_regenerate
    &&& p.lookup_secret_reveal == data.lookup_secret_reveal
    &&& p.transient_payload == data.transient_payload
    &&& p.identifier is None
    &&& p.address is None
    &&& p.code is None
    &&& p.resend is None
    &&& p.email is None
}

/// A settings payload hands on each field of the change under the field of
/// the same name: the method, the new password and traits, and each of the
/// four lookup-secret flags, present exactly where the change gives them.
pub proof fn lemma_settings_fields_kept(p: FlowPayload, data: SettingsData, csrf: String)
    requires
        is_settings_payload(p, data, csrf),
    ensures
        p.method == data.method,
        p.csrf_token == csrf,
        p.password == data.password,
        p.traits == data.traits,
        p.lookup_secret_confirm == data.lookup_secret_confirm,
        p.lookup_secret_disable == data.lookup_secret_disable,
        p.lookup_secret_regenerate == data.lookup_secret_regenerate,
        p.lookup_secret_reveal == data.lookup_secret_reveal,
        (p.lookup_secret_regenerate is Some) <==> (data.lookup_secret_regenerate is Some),
        p.transient_payload == data.transient_payload,
        p.email is None,
        p.identifier is None,
{
}

/// The payload that submits a settings change.
pub fn settings_payload(data: SettingsData, csrf_token: String) -> (p: FlowPayload)
    ensures
        is_settings_payload(p, data, csrf_token),
{
    let mut p = FlowPayload::new(data.method, csrf_token);
    p.password = data.password;
    p.traits = data.traits;
    p.lookup_secret_confirm = data.lookup_secret_confirm;
    p.lookup_secret_disable = data.lookup_secret_disable;
    p.lookup_secret_regenerate = data.lookup_secret_regenerate;
    p.lookup_secret_reveal = data.lookup_secret_reveal;
    p.transient_payload = data.transient_payload;
    p
}

/// The submission of a settings change to the flow `flow_id`, given the
/// settings flow fetched for its CSRF token and cookies.
pub fn update_settings_submission(
    flow_id: &str,
    flow: Result<FlowResult, String>,
    data: SettingsData,
) -> (r: Result<FlowSubmission, DomainError>)
    ensures
        match flow {
            Err(e) => r matches Err(d) && d@ == ErrorView::ServiceUnavailable(e@),
            Ok(f) => r matches Ok(s) && s.flow_id@ == flow_id@ && s.cookies == f.cookies
                && is_settings_payload(s.payload, data, f.csrf_token),
        },
{
    match flow {
        Err(e) => Err(DomainError::ServiceUnavailable(e)),
        Ok(f) => Ok(
            FlowSubmission {
                flow_id: owned(flow_id),
                payload: settings_payload(data, f.csrf_token),
                cookies: f.cookies,
            },
        ),
    }
}

/// The error that a refused settings submission stands for.
pub open spec fn spec_settings_error(e: KratosFlowError) -> ErrorView {
    let code = e.status.spec_code();
    if code == STATUS_FORBIDDEN {
        ErrorView::PrivilegedSessionRequired
    } else if code == STATUS_UNAUTHORIZED {
        ErrorView::NotAuthenticated
    } else if code == STATUS_GONE {
        ErrorView::NotFound("settings flow"@)
    } else if code == STATUS_BAD_REQUEST {
        if e.spec_message_id() == MESSAGE_PASSWORD_REFUSED {
            ErrorView::InvalidData("Password is too weak"@)
        } else {
            ErrorView::InvalidData(e.spec_message_text())
        }
    } else {
        ErrorView::ServiceUnavailable(e.spec_display())
    }
}

/// The error that a refused settings submission stands for.
pub fn map_settings_error(e: &KratosFlowError) -> (r: DomainError)
    ensures
        r@ == spec_settings_error(*e),
{
    let code = e.status.code();
    if code == STATUS_FORBIDDEN {
        DomainError::PrivilegedSessionRequired
    } else if code == STATUS_UNAUTHORIZED {
        DomainError::NotAuthenticated
    } else if code == STATUS_GONE {
        DomainError::NotFound(owned("settings flow"))
    } else if code == STATUS_BAD_REQUEST {
        if e.message_id() == MESSAGE_PASSWORD_REFUSED {
            DomainError::InvalidData(owned("Password is too weak"))
        } else {
            DomainError::InvalidData(owned(e.message_text()))
        }
    } else {
        DomainError::ServiceUnavailable(e.display())
    }
}

/// How a settings submission ends: the new state of the flow and the cookies
/// the answer set, or the error.
pub fn update_settings_outcome(post: Result<PostFlowResult, KratosFlowError>) -> (r: Result<
    (String, Vec<String>),
    DomainError,
>)
    ensures
        match post {
            Err(e) => r matches Err(d) && d@ == spec_settings_error(e),
            Ok(res) => match res.data.state {
                None => r matches Err(d) && d@ == ErrorView::ServiceUnavailable(
                    "No state in response"@,
                ),
                Some(st) => r == Ok::<(String, Vec<String>), DomainError>((st, res.cookies)),
            },
        },
{
    match post {
        Err(e) => Err(map_settings_error(&e)),
        Ok(res) => match res.data.state {
            None => Err(DomainError::ServiceUnavailable(owned("No state in response"))),
            Some(st) => Ok((st, res.cookies)),
        },
    }
}

/// The id of a freshly fetched settings flow; a failed fetch is a network
/// error and a flow without id was not found.
pub fn initiate_settings_command_outcome(flow: Result<FlowResult, String>) -> (r: Result<
    String,
    DomainError,
>)
    ensures
        match flow {
            Err(e) => r matches Err(d) && d@ == ErrorView::Network(e@),
            Ok(f) => match f.flow.id {
                None => r matches Err(d) && d@ == ErrorView::FlowNotFound,
                Some(id) => r == Ok::<String, DomainError>(id),
            },
        },
{
    match flow {
        Err(e) => Err(DomainError::Network(e)),
        Ok(f) => match f.flow.id {
            None => Err(DomainError::FlowNotFound),
            Some(id) => Ok(id),
        },
    }
}

/// `p` submits one kind of settings change with the token `csrf`: a new
/// password, new profile traits, or lookup-secret flags where given.
pub open spec fn is_settings_command_payload(
    p: FlowPayload,
    data: SettingsCommandData,
    csrf: String,
) -> bool {
    &&& p.csrf_token == csrf
    &&& p.transient_payload == data.transient_payload
    &&& p.identifier is None
    &&& p.address is None
    &&& p.code is None
    &&& p.resend is None
    &&& p.email is None
    &&& match data.command {
        SettingsCommand::Password { password } => {
            &&& p.method@ == "password"@
            &&& p.password == Some(password)
            &&& p.traits is None
            &&& p.lookup_secret_confirm is None
            &&& p.lookup_secret_disable is None
            &&& p.lookup_secret_regenerate is None
            &&& p.lookup_secret_reveal is None
        },
        SettingsCommand::Profile { traits } => {
            &&& p.method@ == "profile"@
            &&& p.traits == Some(traits)
            &&& p.password is None
            &&& p.lookup_secret_confirm is None
            &&& p.lookup_secret_disable is None
            &&& p.lookup_secret_regenerate is None
            &&& p.lookup_secret_reveal is None
        },
        SettingsCommand::LookupSecret { confirm, disable, regenerate, reveal } => {
            &&& p.method@ == "lookup_secret"@
            &&& p.password is None
            &&& p.traits is None
            &&& p.lookup_secret_confirm == confirm
            &&& p.lookup_secret_disable == disable
            &&& p.lookup_secret_regenerate == regenerate
            &&& p.lookup_secret_reveal == reveal
        },
    }
}

/// A settings payload asks Kratos for exactly the change the command names:
/// a new password under the method `password`, new traits under `profile`,
/// and for lookup secrets each of the four flags in the payload field of the
/// same name (so `regenerate` is sent as `lookup_secret_regenerate` and only
/// where it was given), with the CSRF token and transient payload handed on.
pub proof fn lemma_settings_payload_carries_command(
    p: FlowPayload,
    data: SettingsCommandData,
    csrf: String,
)
    requires
        is_settings_command_payload(p, data, csrf),
    ensures
        p.csrf_token == csrf,
        p.transient_payload == data.transient_payload,
        data.command matches SettingsCommand::Password { password } ==> p.method@ == "password"@
            && p.password == Some(password) && p.traits is None && p.lookup_secret_regenerate is None
            && p.lookup_secret_confirm is None,
        data.command matches SettingsCommand::Profile { traits } ==> p.method@ == "profile"@
            && p.traits == Some(traits) && p.password is None && p.lookup_secret_regenerate is None
            && p.lookup_secret_confirm is None,
        data.command matches SettingsCommand::LookupSecret { confirm, disable, regenerate, reveal }
            ==> {
            &&& p.method@ == "lookup_secret"@
            &&& p.lookup_secret_confirm == confirm
            &&& p.lookup_secret_disable == disable
            &&& p.lookup_secret_regenerate == regenerate
            &&& p.lookup_secret_reveal == reveal
            &&& (p.lookup_secret_regenerate is Some <==> regenerate is Some)
            &&& (p.lookup_secret_confirm is Some <==> confirm is Some)
            &&& p.password is None
            &&& p.traits is None
        },
{
}

/// The payload that submits one kind of settings change.
pub fn settings_command_payload(data: SettingsCommandData, csrf_token: String) -> (p: FlowPayload)
    ensures
        is_settings_command_payload(p, data, csrf_token),
{
    let mut p = match data.command {
        SettingsCommand::Password { password } => {
            let mut p = FlowPayload::new(owned("password"), csrf_token);
            p.password = Some(password);
            p
        },
        SettingsCommand::Profile { traits } => {
            let mut p = FlowPayload::new(owned("profile"), csrf_token);
            p.traits = Some(traits);
            p
        },
        SettingsCommand::LookupSecret { confirm, disable, regenerate, reveal } => {
            let mut p = FlowPayload::new(owned("lookup_secret"), csrf_token);
            p.lookup_secret_confirm = confirm;
            p.lookup_secret_disable = disable;
            p.lookup_secret_regenerate = regenerate;
            p.lookup_secret_reveal = reveal;
            p
        },
    };
    p.transient_payload = data.transient_payload;
    p
}

/// The submission of one kind of settings change to the flow `flow_id`.
pub fn update_settings_command_submission(
    flow_id: &str,
    flow: Result<FlowResult, String>,
    data: SettingsCommandData,
) -> (r: Result<FlowSubmission, DomainError>)
    ensures
        match flow {
            Err(e) => r matches Err(d) && d@ == ErrorView::Network(e@),
            Ok(f) => r matches Ok(s) && s.flow_id@ == flow_id@ && s.cookies == f.cookies
                && is_settings_command_payload(s.payload, data, f.csrf_token),
        },
{
    match flow {
        Err(e) => Err(DomainError::Network(e)),
        Ok(f) => Ok(
            FlowSubmission {
                flow_id: owned(flow_id),
                payload: settings_command_payload(data, f.csrf_token),
                cookies: f.cookies,
            },
        ),
    }
}

/// The error that a refused settings change stands for.
pub open spec fn spec_settings_command_error(e: KratosFlowError) -> ErrorView {
    let code = e.status.spec_code();
    if code == STATUS_FORBIDDEN {
        ErrorView::PrivilegedSessionRequired
    } else if code == STATUS_UNAUTHORIZED {
        ErrorView::NotAuthenticated
    } else if code == STATUS_GONE {
        ErrorView::FlowNotFound
    } else if code == STATUS_BAD_REQUEST {
        if e.spec_message_id() == MESSAGE_PASSWORD_REFUSED {
            ErrorView::InvalidData("Password is too weak"@)
        } else {
            ErrorView::InvalidData(e.spec_message_text())
        }
    } else {
        ErrorView::Network(e.spec_display())
    }
}

/// The error that a refused settings change stands for.
pub fn map_settings_command_error(e: &KratosFlowError) -> (r: DomainError)
    ensures
        r@ == spec_settings_command_error(*e),
{
    let code = e.status.code();
    if code == STATUS_FORBIDDEN {
        DomainError::PrivilegedSessionRequired
    } else if code == STATUS_UNAUTHORIZED {
        DomainError::NotAuthenticated
    } else if code == STATUS_GONE {
        DomainError::FlowNotFound
    } else if code == STATUS_BAD_REQUEST {
        if e.message_id() == MESSAGE_PASSWORD_REFUSED {
            DomainError::InvalidData(owned("Password is too weak"))
        } else {
            DomainError::InvalidData(owned(e.message_text()))
        }
    } else {
        DomainError::Network(e.display())
    }
}

/// How a settings change ends: the new state of the flow and the cookies the
/// answer set, or the error.
pub fn update_settings_command_outcome(post: Result<PostFlowResult, KratosFlowError>) -> (r: Result<
    (String, Vec<String>),
    DomainError,
>)
    ensures
        match post {
            Err(e) => r matches Err(d) && d@ == spec_settings_command_error(e),
            Ok(res) => match res.data.state {
                None => r matches Err(d) && d@ == ErrorView::Unknown("No state in response"@),
                Some(st) => r == Ok::<(String, Vec<String>), DomainError>((st, res.cookies)),
            },
        },
{
    match post {
        Err(e) => Err(map_settings_command_error(&e)),
        Ok(res) => match res.data.state {
            None => Err(DomainError::Unknown(owned("No state in response"))),
            Some(st) => Ok((st, res.cookies)),
        },
    }
}

} // verus!

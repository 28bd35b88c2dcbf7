use kratos_auth::domain::commands::{SettingsCommand, SettingsData as SettingsCommandData, TransientPayload, VerificationCommand};
use kratos_auth::domain::errors::DomainError;
use kratos_auth::domain::ports::{
    LoginCredentials, RecoveryRequest, SendCodeRequest, SettingsData, SubmitCodeRequest,
    VerifyByLinkRequest,
};
use kratos_auth::kratos::identity::{current_user_outcome, whoami_request};
use kratos_auth::kratos::login::{
    complete_login_outcome, complete_login_submission, initiate_login_gate, initiate_login_outcome,
    login_payload, map_login_error,
};
use kratos_auth::kratos::models::{
    FlowDocument, FlowResult, FlowUiNode, HttpOutcome, HttpReply, KratosFlowError,
    KratosResponseBody, LogoutFlowInfo, PostFlowResult, SessionInfo,
};
use kratos_auth::kratos::recovery::{map_recovery_error, recovery_outcome, recovery_submission};
use kratos_auth::kratos::session::{
    active_session_outcome, is_recovery_session_outcome, logout_flow_outcome, logout_flow_request,
    logout_outcome, logout_request, session_probe,
};
use kratos_auth::kratos::settings::{
    initiate_settings_command_outcome, initiate_settings_outcome, map_settings_command_error,
    map_settings_error, settings_command_payload, update_settings_command_outcome,
    update_settings_command_submission, update_settings_outcome, update_settings_submission,
};
use kratos_auth::kratos::status::HttpStatus;
use kratos_auth::kratos::verification::{
    fetch_verification_flow, map_verification_command_error, map_verification_error,
    send_code_submission, submit_code_submission, verification_command_payload,
    verify_by_link_submission, verify_command_outcome, verify_command_submission,
};
use serde_json::Value;

fn obj(key: &str, value: Value) -> Value {
    let mut m = serde_json::Map::new();
    m.insert(key.to_string(), value);
    Value::Object(m)
}

fn fetched(id: Option<&str>) -> Result<FlowResult, String> {
    Ok(FlowResult {
        flow: FlowDocument {
            id: id.map(|s| s.to_string()),
            ui_nodes: Some(vec![FlowUiNode { name: Some("csrf_token".into()), value: Some("tok".into()) }]),
        },
        csrf_token: "tok".to_string(),
        cookies: vec!["c=1".to_string()],
    })
}

fn refusal(code: u16, id: Option<u64>, text: Option<&str>) -> KratosFlowError {
    KratosFlowError {
        status: HttpStatus::new(code).unwrap(),
        body: KratosResponseBody {
            state: None,
            first_message_id: id,
            first_message_text: text.map(|t| t.to_string()),
            rendered: "{\"ui\":{}}".to_string(),
        },
    }
}

fn accepted(cookies: &[&str], state: Option<&str>) -> Result<PostFlowResult, KratosFlowError> {
    Ok(PostFlowResult {
        data: KratosResponseBody {
            state: state.map(|s| s.to_string()),
            first_message_id: None,
            first_message_text: None,
            rendered: "{}".to_string(),
        },
        cookies: cookies.iter().map(|c| c.to_string()).collect(),
    })
}

fn reply<T>(code: u16, body: Option<&str>, doc: Result<T, String>) -> HttpOutcome<T> {
    HttpOutcome::Replied(HttpReply {
        status: HttpStatus::new(code).unwrap(),
        set_cookies: vec![],
        location: None,
        body_text: body.map(|b| b.to_string()),
        document: doc,
    })
}

fn credentials(code: Option<&str>) -> LoginCredentials {
    LoginCredentials {
        identifier: "a@example.com".into(),
        password: "pw".into(),
        address: None,
        code: code.map(|c| c.to_string()),
        resend: None,
    }
}

#[test]
fn login_is_refused_with_an_active_non_recovery_session() {
    assert_eq!(initiate_login_gate(true, false), Err(DomainError::AlreadyLoggedIn));
    assert_eq!(initiate_login_gate(true, true), Ok(()));
    assert_eq!(initiate_login_gate(false, false), Ok(()));
}

#[test]
fn login_flow_id_and_payload() {
    assert_eq!(initiate_login_outcome(fetched(Some("f-1"))), Ok("f-1".to_string()));
    assert_eq!(initiate_login_outcome(fetched(None)), Err(DomainError::FlowNotFound));
    assert_eq!(
        initiate_login_outcome(Err("down".into())),
        Err(DomainError::Network("down".into()))
    );
    let p = login_payload(credentials(None), "tok".into());
    assert_eq!(p.method, "password");
    assert_eq!(p.identifier, Some("a@example.com".to_string()));
    let p = login_payload(credentials(Some("123456")), "tok".into());
    assert_eq!(p.method, "code");
    assert_eq!(p.code, Some("123456".to_string()));
    let s = complete_login_submission("given-id", fetched(Some("other")), credentials(None)).unwrap();
    assert_eq!(s.flow_id, "given-id");
    assert_eq!(s.cookies, vec!["c=1".to_string()]);
    assert_eq!(s.payload.csrf_token, "tok");
}

#[test]
fn login_errors_and_session_cookie() {
    assert_eq!(map_login_error(&refusal(400, Some(4000006), Some("x"))), DomainError::InvalidCredentials);
    assert_eq!(map_login_error(&refusal(400, Some(4000010), None)), DomainError::InvalidCredentials);
    assert_eq!(
        map_login_error(&refusal(400, Some(4000001), Some("bad identifier"))),
        DomainError::InvalidData("bad identifier".into())
    );
    assert_eq!(map_login_error(&refusal(410, None, None)), DomainError::FlowNotFound);
    assert_eq!(map_login_error(&refusal(401, None, None)), DomainError::NotAuthenticated);
    assert_eq!(
        map_login_error(&refusal(503, None, None)),
        DomainError::Network("Kratos error (status 503 Service Unavailable): {\"ui\":{}}".into())
    );
    assert_eq!(
        complete_login_outcome(accepted(&["csrf=1", "ory_kratos_session=s", "other_session=t"], None)),
        Ok("ory_kratos_session=s".to_string())
    );
    assert_eq!(
        complete_login_outcome(accepted(&["csrf=1", "ory_x=1"], None)),
        Ok("ory_x=1".to_string())
    );
    assert_eq!(
        complete_login_outcome(accepted(&[], None)),
        Err(DomainError::Unknown("No cookies received from server".into()))
    );
    assert_eq!(
        complete_login_outcome(accepted(&["csrf=1"], None)),
        Err(DomainError::Unknown("Session token not found".into()))
    );
}

#[test]
fn identity_outcomes() {
    let r = whoami_request("http://localhost:4433", "sid=1");
    assert_eq!(r.url, "http://127.0.0.1:4433/sessions/whoami");
    assert_eq!(r.cookie, Some("sid=1".to_string()));
    let info = |email: Option<&str>, username: Option<&str>| SessionInfo {
        email: email.map(|s| s.to_string()),
        username: username.map(|s| s.to_string()),
        geo_location: Some("Berlin".into()),
        authentication_methods: None,
    };
    let profile = current_user_outcome(reply(200, None, Ok(info(Some("a@b.c"), Some("ann"))))).unwrap();
    assert_eq!(profile.email, "a@b.c");
    assert_eq!(profile.username, "ann");
    assert_eq!(profile.geo_location, Some("Berlin".to_string()));
    assert_eq!(
        current_user_outcome(reply(200, None, Ok(info(None, Some("ann"))))).unwrap_err(),
        DomainError::Unknown("Email not found".into())
    );
    assert_eq!(
        current_user_outcome(reply(200, None, Ok(info(Some("a"), None)))).unwrap_err(),
        DomainError::Unknown("Username not found".into())
    );
    assert_eq!(
        current_user_outcome(reply(401, None, Ok(info(Some("a"), Some("b"))))).unwrap_err(),
        DomainError::NotAuthenticated
    );
    assert_eq!(
        current_user_outcome(HttpOutcome::SendFailed("refused".into())).unwrap_err(),
        DomainError::Network("refused".into())
    );
}

#[test]
fn session_outcomes() {
    assert!(session_probe("http://kratos", None).is_none());
    assert_eq!(session_probe("http://kratos", Some("c")).unwrap().url, "http://kratos/sessions/whoami");
    assert!(active_session_outcome(&Ok(kratos_auth::domain::ports::UserProfile {
        email: "e".into(),
        username: "u".into(),
        geo_location: None
    })));
    assert!(!active_session_outcome(&Err(DomainError::NotAuthenticated)));
    let methods = |ms: Vec<Option<&str>>| SessionInfo {
        email: None,
        username: None,
        geo_location: None,
        authentication_methods: Some(ms.into_iter().map(|m| m.map(|s| s.to_string())).collect()),
    };
    assert!(is_recovery_session_outcome(reply(200, None, Ok(methods(vec![Some("password"), Some("code_recovery")])))));
    assert!(is_recovery_session_outcome(reply(401, None, Ok(methods(vec![Some("link_recovery")])))));
    assert!(!is_recovery_session_outcome(reply(200, None, Ok(methods(vec![Some("password"), None])))));
    assert!(!is_recovery_session_outcome(HttpOutcome::SendFailed("x".into())));

    assert_eq!(logout_flow_request("http://localhost", "c").url, "http://127.0.0.1/self-service/logout/browser");
    let info = |u: Option<&str>| LogoutFlowInfo { logout_url: u.map(|s| s.to_string()) };
    assert_eq!(logout_flow_outcome(reply(200, None, Ok(info(Some("http://k/logout?token=t"))))), Ok("http://k/logout?token=t".to_string()));
    assert_eq!(logout_flow_outcome(reply(403, None, Ok(info(None)))), Err(DomainError::NotAuthenticated));
    assert_eq!(
        logout_flow_outcome(reply(429, None, Ok(info(None)))),
        Err(DomainError::ServiceUnavailable("Rate limit exceeded".into()))
    );
    assert_eq!(
        logout_flow_outcome(reply(500, None, Ok(info(None)))),
        Err(DomainError::ServiceUnavailable("Failed to get logout flow: 500 Internal Server Error".into()))
    );
    assert_eq!(
        logout_flow_outcome(reply(200, None, Ok(info(None)))),
        Err(DomainError::InvalidData("Logout URL not found".into()))
    );
    assert_eq!(logout_request("http://localhost/x".into(), "c").url, "http://localhost/x");
    assert_eq!(logout_outcome(reply(303, None, Ok(()))), Ok(()));
    assert_eq!(logout_outcome(reply(204, None, Ok(()))), Ok(()));
    assert_eq!(logout_outcome(reply(401, None, Ok(()))), Err(DomainError::NotAuthenticated));
    assert_eq!(
        logout_outcome(reply(400, Some("bad token"), Ok(()))),
        Err(DomainError::ServiceUnavailable("Logout failed: bad token".into()))
    );
    assert_eq!(
        logout_outcome(reply(400, None, Ok(()))),
        Err(DomainError::ServiceUnavailable("Logout failed: 400 Bad Request".into()))
    );
}

#[test]
fn verification_submissions_and_errors() {
    let s = verify_by_link_submission(
        fetched(Some("v-1")),
        VerifyByLinkRequest { email: "a@b.c".into(), transient_payload: Some(obj("k", Value::from(1))) },
    )
    .unwrap();
    assert_eq!(s.flow_id, "v-1");
    assert_eq!(s.payload.method, "link");
    assert_eq!(s.payload.email, Some("a@b.c".to_string()));
    assert_eq!(s.payload.transient_payload, Some(obj("k", Value::from(1))));
    let s = send_code_submission(fetched(Some("v-1")), SendCodeRequest { email: "a".into(), transient_payload: None }).unwrap();
    assert_eq!(s.payload.method, "code");
    let s = submit_code_submission(fetched(Some("v-1")), SubmitCodeRequest { code: "42".into(), transient_payload: None }).unwrap();
    assert_eq!(s.payload.code, Some("42".to_string()));
    assert_eq!(s.payload.email, None);
    assert_eq!(
        submit_code_submission(fetched(None), SubmitCodeRequest { code: "42".into(), transient_payload: None }).unwrap_err(),
        DomainError::NotFound("verification flow".into())
    );
    assert_eq!(
        verify_by_link_submission(Err("down".into()), VerifyByLinkRequest { email: "a".into(), transient_payload: None }).unwrap_err(),
        DomainError::ServiceUnavailable("down".into())
    );
    assert_eq!(map_verification_error(&refusal(400, Some(4070006), None)), DomainError::InvalidData("Invalid verification code".into()));
    assert_eq!(map_verification_error(&refusal(400, Some(4070001), None)), DomainError::InvalidData("Invalid email address".into()));
    assert_eq!(map_verification_error(&refusal(400, None, None)), DomainError::InvalidData("Unknown error".into()));
    assert_eq!(map_verification_error(&refusal(410, None, None)), DomainError::NotFound("verification flow".into()));
    assert_eq!(map_verification_command_error(&refusal(410, None, None)), DomainError::FlowNotFound);
    assert_eq!(
        map_verification_command_error(&refusal(500, None, None)),
        DomainError::Network("Kratos error (status 500 Internal Server Error): {\"ui\":{}}".into())
    );

    assert_eq!(fetch_verification_flow(fetched(None)).unwrap_err(), DomainError::FlowNotFound);
    assert_eq!(fetch_verification_flow(Err("x".into())).unwrap_err(), DomainError::Network("x".into()));
    let p = verification_command_payload(
        VerificationCommand::SubmitCode { code: "1".into(), transient_payload: Some(TransientPayload(Value::Bool(true))) },
        "tok".into(),
    );
    assert_eq!(p.method, "code");
    assert_eq!(p.code, Some("1".to_string()));
    assert_eq!(p.transient_payload, Some(Value::Bool(true)));
    let s = verify_command_submission(
        fetched(Some("v-2")),
        VerificationCommand::ByLink { email: "e".into(), transient_payload: None },
    )
    .unwrap();
    assert_eq!(s.payload.method, "link");
    assert_eq!(s.flow_id, "v-2");
    assert_eq!(verify_command_outcome(accepted(&[], None)), Ok(()));
    assert_eq!(verify_command_outcome(Err(refusal(401, None, None))), Err(DomainError::NotAuthenticated));
}

#[test]
fn recovery_submissions_and_errors() {
    let s = recovery_submission(fetched(Some("r-1")), RecoveryRequest { email: "a@b.c".into() }).unwrap();
    assert_eq!(s.payload.method, "link");
    assert_eq!(s.payload.email, Some("a@b.c".to_string()));
    assert_eq!(recovery_submission(fetched(None), RecoveryRequest { email: "x".into() }).unwrap_err(), DomainError::FlowNotFound);
    assert_eq!(map_recovery_error(&refusal(400, Some(4060001), None)), DomainError::InvalidData("Invalid email address".into()));
    assert_eq!(map_recovery_error(&refusal(400, Some(1), Some("nope"))), DomainError::InvalidData("nope".into()));
    assert_eq!(map_recovery_error(&refusal(410, None, None)), DomainError::FlowNotFound);
    assert_eq!(recovery_outcome(accepted(&[], None)), Ok(()));
}

#[test]
fn settings_submissions_and_errors() {
    assert_eq!(initiate_settings_outcome(fetched(Some("s-1"))), Ok("s-1".to_string()));
    assert_eq!(initiate_settings_outcome(fetched(None)), Err(DomainError::NotFound("settings flow".into())));
    assert_eq!(initiate_settings_command_outcome(fetched(None)), Err(DomainError::FlowNotFound));
    let data = SettingsData {
        method: "password".into(),
        password: Some("NewPass1234!".into()),
        traits: None,
        lookup_secret_confirm: Some(true),
        lookup_secret_disable: None,
        lookup_secret_regenerate: None,
        lookup_secret_reveal: None,
        transient_payload: None,
    };
    let s = update_settings_submission("s-1", fetched(Some("x")), data).unwrap();
    assert_eq!(s.flow_id, "s-1");
    assert_eq!(s.payload.method, "password");
    assert_eq!(s.payload.password, Some("NewPass1234!".to_string()));
    assert_eq!(s.payload.lookup_secret_confirm, Some(true));
    assert_eq!(map_settings_error(&refusal(403, None, None)), DomainError::PrivilegedSessionRequired);
    assert_eq!(map_settings_error(&refusal(400, Some(4000010), None)), DomainError::InvalidData("Password is too weak".into()));
    assert_eq!(map_settings_error(&refusal(410, None, None)), DomainError::NotFound("settings flow".into()));
    assert_eq!(map_settings_command_error(&refusal(410, None, None)), DomainError::FlowNotFound);
    assert_eq!(
        update_settings_outcome(accepted(&["k=v"], Some("success"))),
        Ok(("success".to_string(), vec!["k=v".to_string()]))
    );
    assert_eq!(
        update_settings_outcome(accepted(&[], None)),
        Err(DomainError::ServiceUnavailable("No state in response".into()))
    );
    assert_eq!(
        update_settings_command_outcome(accepted(&[], None)),
        Err(DomainError::Unknown("No state in response".into()))
    );
    let p = settings_command_payload(
        SettingsCommandData {
            command: SettingsCommand::LookupSecret { confirm: None, disable: Some(true), regenerate: None, reveal: Some(false) },
            transient_payload: None,
        },
        "tok".into(),
    );
    assert_eq!(p.method, "lookup_secret");
    assert_eq!(p.lookup_secret_disable, Some(true));
    assert_eq!(p.lookup_secret_reveal, Some(false));
    let p = settings_command_payload(
        SettingsCommandData { command: SettingsCommand::Profile { traits: obj("email", Value::from("e")) }, transient_payload: None },
        "tok".into(),
    );
    assert_eq!(p.method, "profile");
    assert_eq!(p.traits, Some(obj("email", Value::from("e"))));
}

#[test]
fn settings_command_submission_carries_flow_cookies_and_token() {
    let data = SettingsCommandData {
        command: SettingsCommand::Password { password: "NewPass1234!".into() },
        transient_payload: Some(obj("k", Value::from(1))),
    };
    let s = update_settings_command_submission("s-9", fetched(Some("s-9")), data).unwrap();
    assert_eq!(s.flow_id, "s-9");
    assert_eq!(s.cookies, vec!["c=1".to_string()]);
    assert_eq!(s.payload.csrf_token, "tok");
    assert_eq!(s.payload.method, "password");
    assert_eq!(s.payload.password, Some("NewPass1234!".to_string()));
    assert_eq!(s.payload.traits, None);
    assert!(s.payload.transient_payload.is_some());
    let down = update_settings_command_submission(
        "s-9",
        Err("connection refused".to_string()),
        SettingsCommandData { command: SettingsCommand::Password { password: "p".into() }, transient_payload: None },
    );
    assert_eq!(down.unwrap_err(), DomainError::Network("connection refused".into()));
}

#[test]
fn every_flow_reads_refusals_alike() {
    let unauthorized = refusal(401, Some(4070006), Some("t"));
    for e in [
        map_login_error(&unauthorized),
        map_recovery_error(&unauthorized),
        map_verification_error(&unauthorized),
        map_verification_command_error(&unauthorized),
        map_settings_error(&unauthorized),
        map_settings_command_error(&unauthorized),
    ] {
        assert_eq!(e, DomainError::NotAuthenticated);
    }
    let gone = refusal(410, None, None);
    for e in [
        map_login_error(&gone),
        map_recovery_error(&gone),
        map_verification_error(&gone),
        map_verification_command_error(&gone),
        map_settings_error(&gone),
        map_settings_command_error(&gone),
    ] {
        assert!(matches!(e, DomainError::FlowNotFound | DomainError::NotFound(_)));
    }
    let bad = refusal(400, Some(4000002), Some("Property email is missing."));
    for e in [
        map_login_error(&bad),
        map_recovery_error(&bad),
        map_verification_error(&bad),
        map_verification_command_error(&bad),
        map_settings_error(&bad),
        map_settings_command_error(&bad),
    ] {
        assert_eq!(e, DomainError::InvalidData("Property email is missing.".into()));
    }
}

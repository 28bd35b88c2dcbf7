use kratos_auth::application::commands::{LoginCommandHandler, UpdateSettingsResult};
use kratos_auth::application::queries::{HealthCheckQuery, HealthCheckQueryHandler};
use kratos_auth::application::usecases::{
    after_initiate, require_cookie, require_owned_cookie, AfterInitiate, GetCurrentUserUseCase,
    LoginUseCase, LogoutUseCase, RecoveryUseCase,
};
use kratos_auth::container::{validate_config, ContainerError};
use kratos_auth::domain::commands::{LoginCommand, SettingsCommand, SettingsData as SettingsCommandData, VerificationCommand};
use kratos_auth::domain::errors::DomainError;
use kratos_auth::domain::ports::{LoginCredentials, RecoveryRequest, RegistrationData, SettingsData};
use kratos_auth::kratos::client::RetryState;
use kratos_auth::presentation::inputs::{
    LoginCodeInput, LoginInput, LoginPasswordInput, RecoveryInput, RegisterInput,
    SubmitVerificationCodeInput, UpdateLookupSecretInput, UpdatePasswordInput, UpdateSettingsInput,
    VerifyByLinkInput,
};
use kratos_auth::presentation::mutations::{api_error_message, LoginMutation, VerificationMutation};
use std::sync::Arc;

#[test]
fn domain_error_messages() {
    assert_eq!(DomainError::NotAuthenticated.message(), "Not authenticated");
    assert_eq!(DomainError::AlreadyLoggedIn.message(), "Already logged in");
    assert_eq!(DomainError::FlowNotFound.message(), "Flow not found");
    assert_eq!(DomainError::InvalidData("x".into()).message(), "Invalid data: x");
    assert_eq!(DomainError::NotFound("settings flow".into()).message(), "Not found: settings flow");
    assert_eq!(DomainError::Network("e".into()).message(), "Network error: e");
    assert_eq!(DomainError::Unknown("e".into()).message(), "Unknown error: e");
    assert_eq!(DomainError::ServiceUnavailable("e".into()).message(), "Service unavailable: e");
    assert_eq!(DomainError::PrivilegedSessionRequired.message(), "Privileged session required");
    assert_eq!(DomainError::Conflict("c".into()).message(), "Conflict: c");
    assert_eq!(DomainError::SessionExpired.message(), "Session expired");
    assert_eq!(DomainError::InvalidCredentials.message(), "Invalid credentials");
    assert_eq!(api_error_message(&DomainError::NotAuthenticated), "Not authenticated");
}

#[test]
fn cookie_is_required_for_own_session() {
    assert_eq!(require_cookie(None), Err(DomainError::NotAuthenticated));
    assert_eq!(require_cookie(Some("sid=1")), Ok("sid=1"));
    assert_eq!(require_owned_cookie(None), Err(DomainError::NotAuthenticated));
    assert_eq!(require_owned_cookie(Some("c".into())), Ok("c".to_string()));
}

#[test]
fn completion_follows_initiation() {
    match after_initiate(Ok("flow-7".to_string()), 5u8) {
        AfterInitiate::Complete { flow_id, input } => {
            assert_eq!(flow_id, "flow-7");
            assert_eq!(input, 5);
        }
        AfterInitiate::Fail(e) => panic!("unexpected failure {:?}", e),
    }
    match after_initiate::<u8>(Err(DomainError::AlreadyLoggedIn), 5) {
        AfterInitiate::Fail(e) => assert_eq!(e, DomainError::AlreadyLoggedIn),
        AfterInitiate::Complete { .. } => panic!("completed after a failed start"),
    }
}

#[test]
fn use_cases_hold_their_ports() {
    let port = Arc::new(3u32);
    assert_eq!(**GetCurrentUserUseCase::new(port.clone()).identity_port(), 3);
    assert_eq!(**LoginUseCase::new(port.clone()).auth_port(), 3);
    assert_eq!(**LogoutUseCase::new(port.clone()).session_port(), 3);
    assert_eq!(**RecoveryUseCase::new(port.clone()).recovery_port(), 3);
    assert_eq!(**LoginCommandHandler::new(port).auth_port(), 3);
    let unsized_port: Arc<str> = Arc::from("port");
    assert_eq!(&**LoginUseCase::new(unsized_port).auth_port(), "port");
}

#[test]
fn health_check_is_ok() {
    assert_eq!(HealthCheckQueryHandler.handle(HealthCheckQuery), Ok("OK".to_string()));
}

#[test]
fn settings_result_from_outcome() {
    let r = UpdateSettingsResult::from_outcome(("success".into(), vec!["a".into()]));
    assert_eq!(r.flow_id, "success");
    assert_eq!(r.messages, vec!["a".to_string()]);
}

#[test]
fn config_needs_public_url() {
    assert_eq!(
        validate_config(""),
        Err(ContainerError::InvalidConfig("Kratos public URL cannot be empty".into()))
    );
    assert_eq!(validate_config("http://127.0.0.1:4433"), Ok(()));
    assert_eq!(
        ContainerError::InvalidConfig("x".into()).message(),
        "Invalid configuration: x"
    );
    assert_eq!(ContainerError::Initialization("y".into()).message(), "Initialization failed: y");
    assert_eq!(ContainerError::FactoryCreation("z".into()).message(), "Factory creation failed: z");
}

#[test]
fn retries_stop_after_max_retries_attempts() {
    let mut s = RetryState::new(3);
    assert!(s.on_failure());
    assert!(s.on_failure());
    assert!(!s.on_failure());
    assert_eq!(s.attempts, 3);
    let mut once = RetryState::new(0);
    assert!(!once.on_failure());
    assert_eq!(once.attempts, 1);
}

#[test]
fn inputs_become_domain_values() {
    let creds: LoginCredentials = LoginInput {
        identifier: "id".into(),
        password: "pw".into(),
        address: None,
        code: Some("1".into()),
        resend: None,
    }
    .into();
    assert_eq!(creds.identifier, "id");
    assert_eq!(creds.code, Some("1".to_string()));
    let r: RecoveryRequest = RecoveryInput { email: "e".into() }.into();
    assert_eq!(r.email, "e");
    let reg: RegistrationData = RegisterInput {
        email: "e".into(),
        username: None,
        password: "p".into(),
        geo_location: Some("g".into()),
    }
    .into();
    assert_eq!(reg.username, "");
    assert_eq!(reg.geo_location, Some("g".to_string()));
    let reg = RegistrationData::from_input(RegisterInput {
        email: "e".into(),
        username: Some("ann".into()),
        password: "p".into(),
        geo_location: None,
    });
    assert_eq!(reg.username, "ann");
    let s: SettingsData = UpdateSettingsInput {
        method: "password".into(),
        password: Some("x".into()),
        traits: None,
        lookup_secret_confirm: None,
        lookup_secret_disable: None,
        lookup_secret_regenerate: None,
        lookup_secret_reveal: Some(true),
        transient_payload: None,
    }
    .into();
    assert_eq!(s.method, "password");
    assert_eq!(s.lookup_secret_reveal, Some(true));
    match LoginCommand::from(LoginPasswordInput { identifier: "i".into(), password: "p".into(), address: None }) {
        LoginCommand::Password { identifier, .. } => assert_eq!(identifier, "i"),
        other => panic!("unexpected {:?}", other),
    }
    match LoginCommand::from(LoginCodeInput { code: "c".into(), resend: Some("r".into()) }) {
        LoginCommand::Code { code, resend } => {
            assert_eq!(code, "c");
            assert_eq!(resend, Some("r".to_string()));
        }
        other => panic!("unexpected {:?}", other),
    }
    let p: SettingsCommandData = UpdatePasswordInput { password: "new".into(), transient_payload: None }.into();
    assert!(matches!(p.command, SettingsCommand::Password { ref password } if password == "new"));
    let l: SettingsCommandData = UpdateLookupSecretInput {
        confirm: Some(true),
        disable: None,
        regenerate: None,
        reveal: None,
        transient_payload: None,
    }
    .into();
    assert!(matches!(l.command, SettingsCommand::LookupSecret { confirm: Some(true), .. }));
    let v: VerificationCommand = VerifyByLinkInput { email: "e".into(), transient_payload: Some(serde_json::Value::from(1)) }.into();
    match v {
        VerificationCommand::ByLink { email, transient_payload } => {
            assert_eq!(email, "e");
            assert_eq!(transient_payload.unwrap().0, serde_json::Value::from(1));
        }
        other => panic!("unexpected {:?}", other),
    }
    let v: VerificationCommand = SubmitVerificationCodeInput { code: "9".into(), transient_payload: None }.into();
    assert!(matches!(v, VerificationCommand::SubmitCode { ref code, transient_payload: None } if code == "9"));
}

#[test]
fn mutation_decisions() {
    let c = LoginMutation::command(
        LoginInput { identifier: "i".into(), password: "p".into(), address: None, code: None, resend: None },
        Some("sid=1".into()),
    );
    assert_eq!(c.credentials.identifier, "i");
    assert_eq!(c.cookie, Some("sid=1".to_string()));
    assert_eq!(
        VerificationMutation::submit_cookie(None),
        Err("Cookie is required to submit verification code".to_string())
    );
    assert_eq!(VerificationMutation::submit_cookie(Some("c".into())), Ok("c".to_string()));
}

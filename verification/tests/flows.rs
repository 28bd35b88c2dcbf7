use kratos_auth::kratos::flows::{
    extract_csrf_token, flow_cookies, post_outcome, prepare_post, FlowFetch, FlowFetchStage,
    FlowFetchStep,
};
use kratos_auth::kratos::models::{
    FlowDocument, FlowPayload, FlowUiNode, HttpOutcome, HttpReply, KratosFlowError,
    KratosResponseBody,
};
use kratos_auth::kratos::status::HttpStatus;

fn node(name: Option<&str>, value: Option<&str>) -> FlowUiNode {
    FlowUiNode {
        name: name.map(|s| s.to_string()),
        value: value.map(|s| s.to_string()),
    }
}

fn flow_doc(id: &str, csrf: &str) -> FlowDocument {
    FlowDocument {
        id: Some(id.to_string()),
        ui_nodes: Some(vec![
            node(Some("identifier"), Some("")),
            node(Some("csrf_token"), Some(csrf)),
        ]),
    }
}

fn reply<T>(code: u16, cookies: &[&str], location: Option<&str>, body: &str, doc: Result<T, String>) -> HttpReply<T> {
    HttpReply {
        status: HttpStatus::new(code).unwrap(),
        set_cookies: cookies.iter().map(|c| c.to_string()).collect(),
        location: location.map(|s| s.to_string()),
        body_text: Some(body.to_string()),
        document: doc,
    }
}

#[test]
fn csrf_token_is_first_csrf_node_value() {
    assert_eq!(extract_csrf_token(&flow_doc("f", "tok")), Ok("tok".to_string()));
    let first_without_value = FlowDocument {
        id: None,
        ui_nodes: Some(vec![node(Some("csrf_token"), None), node(Some("csrf_token"), Some("later"))]),
    };
    assert_eq!(
        extract_csrf_token(&first_without_value),
        Err("CSRF token not found in flow response".to_string())
    );
    let no_nodes = FlowDocument { id: None, ui_nodes: None };
    assert!(extract_csrf_token(&no_nodes).is_err());
    let unnamed = FlowDocument {
        id: None,
        ui_nodes: Some(vec![node(None, Some("x")), node(Some("csrf_token"), Some("y"))]),
    };
    assert_eq!(extract_csrf_token(&unnamed), Ok("y".to_string()));
}

#[test]
fn fetched_flow_cookies_put_the_callers_cookie_first() {
    let extra = vec!["a=1".to_string(), "b=2".to_string()];
    assert_eq!(
        flow_cookies(&Some("mine=0".to_string()), &extra),
        vec!["mine=0".to_string(), "a=1".to_string(), "b=2".to_string()]
    );
    assert_eq!(flow_cookies(&None, &extra), extra);
}

#[test]
fn fetch_flow_direct_success() {
    let (fetch, get) = FlowFetch::start("http://localhost:4433", "login", Some("sid=1"));
    assert_eq!(get.url, "http://127.0.0.1:4433/self-service/login/browser");
    assert_eq!(get.cookie, Some("sid=1".to_string()));
    let step = fetch.on_outcome(HttpOutcome::Replied(reply(
        200,
        &["csrf=abc"],
        None,
        "{}",
        Ok(flow_doc("flow-1", "tok")),
    )));
    match step {
        FlowFetchStep::Done(Ok(result)) => {
            assert_eq!(result.csrf_token, "tok");
            assert_eq!(result.flow.id, Some("flow-1".to_string()));
            assert_eq!(result.cookies, vec!["sid=1".to_string(), "csrf=abc".to_string()]);
        }
        other => panic!("unexpected step {:?}", other),
    }
}

#[test]
fn fetch_flow_follows_redirect_to_existing_flow() {
    let (fetch, _) = FlowFetch::start("http://localhost:4433", "settings", Some("sid=1"));
    let step = fetch.on_outcome(HttpOutcome::Replied(reply(
        303,
        &["csrf=abc", "x=y"],
        Some("http://127.0.0.1:4455/settings?flow=f-9&return_to=z"),
        "",
        Err("not json".to_string()),
    )));
    let fetch = match step {
        FlowFetchStep::Send(next, get) => {
            assert_eq!(get.url, "http://127.0.0.1:4433/self-service/settings/flows?id=f-9");
            assert_eq!(get.cookie, Some("csrf=abc; x=y".to_string()));
            match &next.stage {
                FlowFetchStage::Redirected { flow_cookies } => {
                    assert_eq!(flow_cookies, &vec!["csrf=abc".to_string(), "x=y".to_string()])
                }
                FlowFetchStage::Browser => panic!("still at the browser stage"),
            }
            next
        }
        other => panic!("unexpected step {:?}", other),
    };
    let step = fetch.on_outcome(HttpOutcome::Replied(reply(
        200,
        &["ignored=1"],
        None,
        "{}",
        Ok(flow_doc("f-9", "tok2")),
    )));
    match step {
        FlowFetchStep::Done(Ok(result)) => {
            assert_eq!(result.csrf_token, "tok2");
            assert_eq!(
                result.cookies,
                vec!["sid=1".to_string(), "csrf=abc".to_string(), "x=y".to_string()]
            );
        }
        other => panic!("unexpected step {:?}", other),
    }
}

#[test]
fn redirect_without_cookies_sends_the_callers_cookie() {
    let (fetch, _) = FlowFetch::start("http://kratos", "login", Some("sid=1"));
    match fetch.on_outcome(HttpOutcome::Replied(reply::<FlowDocument>(
        302,
        &[],
        Some("/login?flow=f"),
        "",
        Err("x".to_string()),
    ))) {
        FlowFetchStep::Send(_, get) => assert_eq!(get.cookie, Some("sid=1".to_string())),
        other => panic!("unexpected step {:?}", other),
    }
}

#[test]
fn fetch_flow_failures() {
    let (fetch, _) = FlowFetch::start("http://localhost:4433", "login", None);
    match fetch.on_outcome(HttpOutcome::SendFailed("connection refused".to_string())) {
        FlowFetchStep::Done(Err(m)) => assert_eq!(
            m,
            "Failed to connect to Kratos at http://127.0.0.1:4433/self-service/login/browser: connection refused. Make sure Kratos is running."
        ),
        other => panic!("unexpected step {:?}", other),
    }
    let (fetch, _) = FlowFetch::start("http://kratos", "login", None);
    match fetch.on_outcome(HttpOutcome::Replied(reply::<FlowDocument>(303, &[], None, "", Err("x".into())))) {
        FlowFetchStep::Done(Err(m)) => assert_eq!(m, "No redirect location found"),
        other => panic!("unexpected step {:?}", other),
    }
    let (fetch, _) = FlowFetch::start("http://kratos", "login", None);
    match fetch.on_outcome(HttpOutcome::Replied(reply::<FlowDocument>(
        303,
        &[],
        Some("/login?id=1"),
        "",
        Err("x".into()),
    ))) {
        FlowFetchStep::Done(Err(m)) => assert_eq!(m, "Flow ID not found in redirect URL: /login?id=1"),
        other => panic!("unexpected step {:?}", other),
    }
    let (fetch, _) = FlowFetch::start("http://kratos", "login", None);
    match fetch.on_outcome(HttpOutcome::Replied(reply::<FlowDocument>(
        404,
        &[],
        None,
        "missing",
        Err("x".into()),
    ))) {
        FlowFetchStep::Done(Err(m)) => {
            assert_eq!(m, "Failed to fetch login flow (status 404 Not Found): missing")
        }
        other => panic!("unexpected step {:?}", other),
    }
    let (fetch, _) = FlowFetch::start("http://kratos", "recovery", None);
    match fetch.on_outcome(HttpOutcome::Replied(reply::<FlowDocument>(
        200,
        &[],
        None,
        "<html>",
        Err("error decoding response body".into()),
    ))) {
        FlowFetchStep::Done(Err(m)) => assert_eq!(
            m,
            "Failed to parse recovery flow response: error decoding response body"
        ),
        other => panic!("unexpected step {:?}", other),
    }
    let (fetch, _) = FlowFetch::start("http://kratos", "login", None);
    let step = fetch.on_outcome(HttpOutcome::Replied(reply(303, &[], Some("?flow=f"), "", Err::<FlowDocument, String>("x".into()))));
    let FlowFetchStep::Send(fetch, _) = step else { panic!("expected a redirect") };
    match fetch.on_outcome(HttpOutcome::SendFailed("timed out".to_string())) {
        FlowFetchStep::Done(Err(m)) => assert_eq!(m, "timed out"),
        other => panic!("unexpected step {:?}", other),
    }
}

#[test]
fn post_preparation_and_outcomes() {
    let payload = FlowPayload::new("password".to_string(), "tok".to_string());
    let cookies = vec!["a=1".to_string(), "b=2".to_string()];
    let post = prepare_post("http://localhost:4433", "login", "f-1", payload, &cookies);
    assert_eq!(post.url, "http://127.0.0.1:4433/self-service/login?flow=f-1");
    assert_eq!(post.cookie_header, "a=1; b=2");
    assert_eq!(post.payload.method, "password");

    let body = KratosResponseBody {
        state: Some("success".to_string()),
        first_message_id: None,
        first_message_text: None,
        rendered: "{\"state\":\"success\"}".to_string(),
    };
    let ok = post_outcome(HttpOutcome::Replied(reply(200, &["s=1"], None, "", Ok(body.clone())))).unwrap();
    assert_eq!(ok.cookies, vec!["s=1".to_string()]);
    assert_eq!(ok.data.state, Some("success".to_string()));

    let refused = post_outcome(HttpOutcome::Replied(reply(400, &[], None, "", Ok(body)))).unwrap_err();
    assert_eq!(refused.status.code(), 400);
    assert_eq!(refused.body.state, Some("success".to_string()));

    let refused_not_json =
        post_outcome(HttpOutcome::Replied(reply::<KratosResponseBody>(502, &[], None, "", Err("bad".into())))).unwrap_err();
    assert_eq!(refused_not_json.body.rendered, "{}");
    assert_eq!(refused_not_json.message_id(), 0);
    assert_eq!(refused_not_json.message_text(), "Unknown error");

    let undecodable =
        post_outcome(HttpOutcome::Replied(reply::<KratosResponseBody>(200, &[], None, "", Err("bad body".into())))).unwrap_err();
    assert_eq!(undecodable.status.code(), 500);
    assert_eq!(undecodable.body.rendered, "{\"error\":\"bad body\"}");

    let unsent = post_outcome(HttpOutcome::SendFailed("refused \"here\"".to_string())).unwrap_err();
    assert_eq!(unsent.body.rendered, "{\"error\":\"refused \\\"here\\\"\"}");
}

#[test]
fn kratos_flow_error_display_and_messages() {
    let e = KratosFlowError::network("boom");
    assert_eq!(e.display(), "Kratos error (status 500 Internal Server Error): {\"error\":\"boom\"}");
    let refused = KratosFlowError {
        status: HttpStatus::new(400).unwrap(),
        body: KratosResponseBody {
            state: None,
            first_message_id: Some(4000006),
            first_message_text: Some("The provided credentials are invalid.".to_string()),
            rendered: "{}".to_string(),
        },
    };
    assert_eq!(refused.message_id(), 4000006);
    assert_eq!(refused.message_text(), "The provided credentials are invalid.");
    assert_eq!(refused.display(), "Kratos error (status 400 Bad Request): {}");
}

#[test]
fn status_codes() {
    assert!(HttpStatus::new(99).is_none());
    assert!(HttpStatus::new(1000).is_none());
    let s = HttpStatus::new(204).unwrap();
    assert!(s.is_success());
    assert_eq!(s.code(), 204);
    assert!(!HttpStatus::new(302).unwrap().is_success());
    assert_eq!(HttpStatus::new(799).unwrap().display(), "799 <unknown status code>");
    assert_eq!(HttpStatus::new(429).unwrap().display(), "429 Too Many Requests");
}

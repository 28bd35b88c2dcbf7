use kratos_auth::kratos::urls::{
    browser_flow_url, flow_by_id_url, flow_id_from_location, logout_flow_url, submit_flow_url,
    to_loopback, whoami_url,
};
use kratos_auth::text::{contains_str, join_strings, replace_all_str, starts_with_str, str_eq, to_chars};

#[test]
fn replace_rewrites_every_occurrence() {
    assert_eq!(replace_all_str("localhost/localhost", "localhost", "127.0.0.1"), "127.0.0.1/127.0.0.1");
    assert_eq!(replace_all_str("aaa", "aa", "b"), "ba");
    assert_eq!(replace_all_str("no match here", "xyz", "q"), "no match here");
    assert_eq!(replace_all_str("", "x", "y"), "");
}

#[test]
fn loopback_rewrites_localhost() {
    assert_eq!(to_loopback("http://localhost:4433"), "http://127.0.0.1:4433");
    assert_eq!(to_loopback("http://kratos:4433"), "http://kratos:4433");
    let once = to_loopback("http://localhostlocalhost");
    assert_eq!(once, "http://127.0.0.1127.0.0.1");
    assert_eq!(to_loopback(&once), once);
    assert!(!contains_str(&to_loopback("localhost.localhost"), "localhost"));
}

#[test]
fn text_search_and_join() {
    assert!(contains_str("ory_kratos_session=abc", "session"));
    assert!(!contains_str("csrf_token=abc", "session"));
    assert!(contains_str("abc", ""));
    assert!(starts_with_str("ory_x=1", "ory_"));
    assert!(!starts_with_str("x_ory_", "ory_"));
    assert!(str_eq("csrf_token", "csrf_token"));
    assert!(!str_eq("csrf_token", "csrf"));
    assert_eq!(to_chars("héllo"), vec!['h', 'é', 'l', 'l', 'o']);
    let parts = vec!["a=1".to_string(), "b=2".to_string(), "c=3".to_string()];
    assert_eq!(join_strings(&parts, "; "), "a=1; b=2; c=3");
    assert_eq!(join_strings(&vec!["only".to_string()], "; "), "only");
    assert_eq!(join_strings(&Vec::new(), "; "), "");
}

#[test]
fn kratos_urls() {
    assert_eq!(
        browser_flow_url("http://localhost:4433", "login"),
        "http://127.0.0.1:4433/self-service/login/browser"
    );
    assert_eq!(
        submit_flow_url("http://localhost:4433", "settings", "f-1"),
        "http://127.0.0.1:4433/self-service/settings?flow=f-1"
    );
    assert_eq!(
        flow_by_id_url("http://localhost:4433", "login", "f-2"),
        "http://127.0.0.1:4433/self-service/login/flows?id=f-2"
    );
    assert_eq!(
        flow_by_id_url("http://kratos", "localhost", "id"),
        "http://kratos/self-service/localhost/flows?id=id"
    );
    assert_eq!(whoami_url("http://localhost:4433"), "http://127.0.0.1:4433/sessions/whoami");
    assert_eq!(
        logout_flow_url("https://auth.example.com"),
        "https://auth.example.com/self-service/logout/browser"
    );
}

#[test]
fn flow_id_in_redirect_location() {
    assert_eq!(
        flow_id_from_location("http://127.0.0.1:4455/login?flow=abc-123&return_to=x"),
        Some("abc-123".to_string())
    );
    assert_eq!(flow_id_from_location("/ui/login?flow=xyz"), Some("xyz".to_string()));
    assert_eq!(flow_id_from_location("/ui/login?id=xyz"), None);
    assert_eq!(flow_id_from_location("?flow=a&flow=b"), Some("a".to_string()));
    assert_eq!(flow_id_from_location("?flow=aflow=b"), Some("a".to_string()));
    assert_eq!(flow_id_from_location("?flow=&x"), Some("".to_string()));
}

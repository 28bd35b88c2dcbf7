//! What this service reads of Kratos's answers and what it sends back.
use vstd::prelude::*;
use crate::json::{encode_json_string, json_string_literal};
use crate::kratos::status::{HttpStatus, status_line, STATUS_INTERNAL_SERVER_ERROR};

verus! {

/// The attributes of one node of a self-service flow's UI
/// (`ui.nodes[i].attributes`): its `name` and `value` where they are strings.
#[derive(Debug, Clone)]
pub struct FlowUiNode {
    pub name: Option<String>,
    pub value: Option<String>,
}

/// What this service reads of a self-service flow document: its `id` where it
/// is a string, and `ui.nodes` where it is an array.
#[derive(Debug, Clone)]
pub struct FlowDocument {
    pub id: Option<String>,
    pub ui_nodes: Option<Vec<FlowUiNode>>,
}

/// A fetched self-service flow, its CSRF token and the cookies that belong to it.
#[derive(Debug, Clone)]
pub struct FlowResult {
    pub flow: FlowDocument,
    pub csrf_token: String,
    pub cookies: Vec<String>,
}

/// What this service reads of the JSON body of an answer to a flow submission:
/// `state` where it is a string, the `id` and `text` of `ui.messages[0]` where
/// they are an unsigned integer and a string, and the body as compact JSON text.
#[derive(Debug, Clone)]
pub struct KratosResponseBody {
    pub state: Option<String>,
    pub first_message_id: Option<u64>,
    pub first_message_text: Option<String>,
    pub rendered: String,
}

/// The answer to a successful flow submission and the cookies it set.
#[derive(Debug, Clone)]
pub struct PostFlowResult {
    pub data: KratosResponseBody,
    pub cookies: Vec<String>,
}

/// A flow submission that Kratos refused, or that never reached it.
#[derive(Debug, Clone)]
pub struct KratosFlowError {
    pub status: HttpStatus,
    pub body: KratosResponseBody,
}

/// What this service reads of a `/sessions/whoami` answer: the identity's
/// `email`, `username` and `geo_location` traits and the `method` of each
/// entry of `authentication_methods`, each where it is a string.
#[derive(Debug, Clone)]
pub struct SessionInfo {
    pub email: Option<String>,
    pub username: Option<String>,
    pub geo_location: Option<String>,
    pub authentication_methods: Option<Vec<Option<String>>>,
}

/// What this service reads of a logout flow: its `logout_url` where it is a string.
#[derive(Debug, Clone)]
pub struct LogoutFlowInfo {
    pub logout_url: Option<String>,
}

/// The answer to an HTTP request, as far as this service reads it.
#[derive(Debug)]
pub struct HttpReply<T> {
    pub status: HttpStatus,
    /// The `Set-Cookie` header values that are valid strings, in order.
    pub set_cookies: Vec<String>,
    /// The `Location` header, where it is present and a valid string.
    pub location: Option<String>,
    /// The body as text, or `None` where it could not be read.
    pub body_text: Option<String>,
    /// The body read as a JSON document, or the text of the decoding error.
    pub document: Result<T, String>,
}

/// How an HTTP request ended.
#[derive(Debug)]
pub enum HttpOutcome<T> {
    /// The request could not be sent; the text of the transport error.
    SendFailed(String),
    Replied(HttpReply<T>),
}

/// A GET request to send, with the `Cookie` header to send with it.
#[derive(Debug, Clone)]
pub struct HttpGet {
    pub url: String,
    pub cookie: Option<String>,
}

/// The JSON object submitted to a self-service flow. A field that is `None`
/// is left out of the object.
#[derive(Debug)]
pub struct FlowPayload {
    pub method: String,
    pub csrf_token: String,
    pub identifier: Option<String>,
    pub password: Option<String>,
    pub address: Option<String>,
    pub code: Option<String>,
    pub resend: Option<String>,
    pub email: Option<String>,
    pub traits: Option<serde_json::Value>,
    pub lookup_secret_confirm: Option<bool>,
    pub lookup_secret_disable: Option<bool>,
    pub lookup_secret_regenerate: Option<bool>,
    pub lookup_secret_reveal: Option<bool>,
    pub transient_payload: Option<serde_json::Value>,
}

/// A flow submission to make: the payload goes to the flow `flow_id` of the
/// given endpoint with the given cookies.
#[derive(Debug)]
pub struct FlowSubmission {
    pub flow_id: String,
    pub payload: FlowPayload,
    pub cookies: Vec<String>,
}

impl FlowPayload {
    /// A payload with only its method and CSRF token set.
    pub fn new(method: String, csrf_token: String) -> (r: FlowPayload)
        ensures
            r.method == method,
            r.csrf_token == csrf_token,
            r.is_bare(),
    {
        FlowPayload {
            method,
            csrf_token,
            identifier: None,
            password: None,
            address: None,
            code: None,
            resend: None,
            email: None,
            traits: None,
            lookup_secret_confirm: None,
            lookup_secret_disable: None,
            lookup_secret_regenerate: None,
            lookup_secret_reveal: None,
            transient_payload: None,
        }
    }

    /// Every field but the method and the CSRF token is absent.
    pub open spec fn is_bare(&self) -> bool {
        &&& self.identifier is None
        &&& self.password is None
        &&& self.address is None
        &&& self.code is None
        &&& self.resend is None
        &&& self.email is None
        &&& self.traits is None
        &&& self.lookup_secret_confirm is None
        &&& self.lookup_secret_disable is None
        &&& self.lookup_secret_regenerate is None
        &&& self.lookup_secret_reveal is None
        &&& self.transient_payload is None
    }
}

/// The text of an `Option<String>` as a sequence.
pub open spec fn opt_view(o: Option<String>) -> Option<Seq<char>> {
    match o {
        Some(s) => Some(s@),
        None => None,
    }
}

impl KratosResponseBody {
    /// The body is the empty JSON object `{}`.
    pub open spec fn is_empty_object(&self) -> bool {
        &&& self.state is None
        &&& self.first_message_id is None
        &&& self.first_message_text is None
        &&& self.rendered@ == "{}"@
    }

    /// The empty JSON object `{}`.
    pub fn empty_object() -> (r: KratosResponseBody)
        ensures
            r.is_empty_object(),
    {
        KratosResponseBody {
            state: None,
            first_message_id: None,
            first_message_text: None,
            rendered: String::from_str("{}"),
        }
    }
}

impl KratosFlowError {
    /// The error stands for a failure before Kratos answered, with the given
    /// message: status 500 and the body `{"error": <message>}`.
    pub open spec fn is_network(&self, message: Seq<char>) -> bool {
        &&& self.status.spec_code() == STATUS_INTERNAL_SERVER_ERROR
        &&& self.body.state is None
        &&& self.body.first_message_id is None
        &&& self.body.first_message_text is None
        &&& self.body.rendered@ == "{\"error\":"@ + json_string_literal(message) + "}"@
    }

    /// The error for a submission that failed before Kratos answered: status
    /// 500 and the body `{"error": <message>}`.
    pub fn network(message: &str) -> (r: KratosFlowError)
        ensures
            r.is_network(message@),
    {
        let status = HttpStatus::new(STATUS_INTERNAL_SERVER_ERROR).unwrap();
        let mut rendered = String::from_str("{\"error\":");
        let quoted = encode_json_string(message);
        rendered.append(quoted.as_str());
        rendered.append("}");
        KratosFlowError {
            status,
            body: KratosResponseBody {
                state: None,
                first_message_id: None,
                first_message_text: None,
                rendered,
            },
        }
    }

    /// The id of the first UI message, or 0 where there is none.
    pub open spec fn spec_message_id(&self) -> u64 {
        match self.body.first_message_id {
            Some(id) => id,
            None => 0,
        }
    }

    /// The id of the first UI message, or 0 where there is none.
    pub fn message_id(&self) -> (r: u64)
        ensures
            r == self.spec_message_id(),
    {
        match self.body.first_message_id {
            Some(id) => id,
            None => 0,
        }
    }

    /// The text of the first UI message, or `Unknown error` where there is none.
    pub open spec fn spec_message_text(&self) -> Seq<char> {
        match self.body.first_message_text {
            Some(t) => t@,
            None => "Unknown error"@,
        }
    }

    /// The text of the first UI message, or `Unknown error` where there is none.
    pub fn message_text(&self) -> (r: &str)
        ensures
            r@ == self.spec_message_text(),
    {
        match &self.body.first_message_text {
            Some(t) => t.as_str(),
            None => "Unknown error",
        }
    }

    /// How the error is displayed.
    pub open spec fn spec_display(&self) -> Seq<char> {
        "Kratos error (status "@ + status_line(self.status.spec_code()) + "): "@
            + self.body.rendered@
    }

    /// How the error is displayed: its status and its body.
    pub fn display(&self) -> (r: String)
        ensures
            r@ == self.spec_display(),
    {
        let mut s = String::from_str("Kratos error (status ");
        let st = self.status.display();
        s.append(st.as_str());
        s.append("): ");
        s.append(self.body.rendered.as_str());
        s
    }
}

} // verus!

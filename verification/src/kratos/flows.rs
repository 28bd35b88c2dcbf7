//! The self-service flow protocol: fetching a flow (following Kratos's
//! redirect to an existing flow), reading its CSRF token, and submitting it.
use vstd::prelude::*;
use crate::kratos::models::{
    FlowDocument, FlowPayload, FlowResult, FlowUiNode, HttpGet, HttpOutcome, HttpReply,
    KratosFlowError, KratosResponseBody, PostFlowResult, opt_view,
};
use crate::kratos::status::{HttpStatus, is_success_code, status_line, STATUS_FOUND, STATUS_SEE_OTHER};
use crate::kratos::urls::{
    browser_flow_url, flow_by_id_url, flow_id_from_location, spec_browser_flow_url,
    spec_flow_by_id_url, spec_flow_id_from_location, spec_submit_flow_url, submit_flow_url,
};
use crate::text::{join_seqs, join_strings, str_eq};

verus! {

/// The node that carries a flow's CSRF token.
pub open spec fn is_csrf_node(n: FlowUiNode) -> bool {
    n.name matches Some(nm) && nm@ == "csrf_token"@
}

/// The index of the first CSRF node from `i` on.
pub open spec fn csrf_node_from(nodes: Seq<FlowUiNode>, i: int) -> Option<int>
    decreases nodes.len() - i,
{
    if i < 0 || i >= nodes.len() {
        None
    } else if is_csrf_node(nodes[i]) {
        Some(i)
    } else {
        csrf_node_from(nodes, i + 1)
    }
}

/// The node `csrf_node_from` finds from `i` on is a CSRF node and the first
/// one from `i` on; where it finds none, there is none.
pub proof fn lemma_csrf_node_from(nodes: Seq<FlowUiNode>, i: int)
    requires
        0 <= i,
    ensures
        csrf_node_from(nodes, i) matches Some(j) ==> {
            &&& i <= j < nodes.len()
            &&& is_csrf_node(nodes[j])
            &&& forall|q: int| i <= q < j ==> !is_csrf_node(#[trigger] nodes[q])
        },
        csrf_node_from(nodes, i) is None ==> forall|q: int|
            i <= q < nodes.len() ==> !is_csrf_node(#[trigger] nodes[q]),
    decreases nodes.len() - i,
{
    if i < nodes.len() && !is_csrf_node(nodes[i]) {
        lemma_csrf_node_from(nodes, i + 1);
    }
}

/// The CSRF token of a flow: the value of its first node named `csrf_token`.
pub open spec fn spec_csrf_token(flow: FlowDocument) -> Option<Seq<char>> {
    match flow.ui_nodes {
        None => None,
        Some(nodes) => match csrf_node_from(nodes@, 0) {
            None => None,
            Some(i) => opt_view(nodes@[i].value),
        },
    }
}

/// The message for a flow without a CSRF token.
pub open spec fn csrf_missing_message() -> Seq<char> {
    "CSRF token not found in flow response"@
}

/// The CSRF token of a flow: the value of its first node named `csrf_token`.
pub fn extract_csrf_token(flow: &FlowDocument) -> (r: Result<String, String>)
    ensures
        match spec_csrf_token(*flow) {
            Some(t) => r matches Ok(v) && v@ == t,
            None => r matches Err(m) && m@ == csrf_missing_message(),
        },
{
    let missing = String::from_str("CSRF token not found in flow response");
    match &flow.ui_nodes {
        None => Err(missing),
        Some(nodes) => {
            let mut i: usize = 0;
            while i < nodes.len()
                invariant
                    i <= nodes.len(),
                    flow.ui_nodes == Some(*nodes),
                    missing@ == csrf_missing_message(),
                    csrf_node_from(nodes@, 0) == csrf_node_from(nodes@, i as int),
                decreases nodes.len() - i,
            {
                let is_csrf = match &nodes[i].name {
                    Some(nm) => str_eq(nm.as_str(), "csrf_token"),
                    None => false,
                };
                if is_csrf {
                    proof {
                        assert(is_csrf_node(nodes@[i as int]));
                        assert(csrf_node_from(nodes@, i as int) == Some(i as int));
                        assert(flow.ui_nodes == Some(*nodes));
                        assert(spec_csrf_token(*flow) == opt_view(nodes@[i as int].value));
                    }
                    return match &nodes[i].value {
                        Some(v) => Ok(v.clone()),
                        None => Err(missing),
                    };
                }
                i = i + 1;
            }
            Err(missing)
        },
    }
}

/// The cookies of a fetched flow: the caller's cookie, if any, then `extra`.
pub open spec fn spec_flow_cookies(cookie: Option<Seq<char>>, extra: Seq<Seq<char>>) -> Seq<
    Seq<char>,
> {
    match cookie {
        Some(c) => seq![c] + extra,
        None => extra,
    }
}

/// The cookies of a fetched flow: the caller's cookie, if any, then `extra`.
pub fn flow_cookies(cookie: &Option<String>, extra: &Vec<String>) -> (r: Vec<String>)
    ensures
        r.deep_view() == spec_flow_cookies(opt_view(*cookie), extra.deep_view()),
{
    let mut out: Vec<String> = Vec::new();
    match cookie {
        Some(c) => out.push(c.clone()),
        None => {},
    }
    let ghost start = out.deep_view();
    let mut i: usize = 0;
    while i < extra.len()
        invariant
            i <= extra.len(),
            out.deep_view() == start + extra.deep_view().take(i as int),
        decreases extra.len() - i,
    {
        let ghost before = out.deep_view();
        let ghost before_v = out@;
        let item = extra[i].clone();
        out.push(item);
        proof {
            assert forall|k: int| 0 <= k < before.len() implies out.deep_view()[k] == before[k] by {
                assert(out@[k] == before_v[k]);
            }
            assert(out.deep_view()[before.len() as int] == extra.deep_view()[i as int]);
            assert(out.deep_view() =~= before.push(extra.deep_view()[i as int]));
            assert(start + extra.deep_view().take(i + 1) =~= (start + extra.deep_view().take(
                i as int,
            )).push(extra.deep_view()[i as int]));
        }
        i = i + 1;
    }
    assert(extra.deep_view().take(extra.len() as int) =~= extra.deep_view());
    assert(out.deep_view() =~= spec_flow_cookies(opt_view(*cookie), extra.deep_view()));
    out
}

/// The message for a flow fetch that could not reach Kratos.
pub open spec fn connect_failed_message(url: Seq<char>, e: Seq<char>) -> Seq<char> {
    "Failed to connect to Kratos at "@ + url + ": "@ + e + ". Make sure Kratos is running."@
}

/// The message for a flow fetch that Kratos refused.
pub open spec fn fetch_refused_message(endpoint: Seq<char>, code: u16, body: Seq<char>) -> Seq<
    char,
> {
    "Failed to fetch "@ + endpoint + " flow (status "@ + status_line(code) + "): "@ + body
}

/// The message for a flow whose JSON could not be decoded.
pub open spec fn parse_failed_message(endpoint: Seq<char>, e: Seq<char>) -> Seq<char> {
    "Failed to parse "@ + endpoint + " flow response: "@ + e
}

/// The message for a redirect without a location.
pub open spec fn no_location_message() -> Seq<char> {
    "No redirect location found"@
}

/// The message for a redirect location that names no flow.
pub open spec fn no_flow_id_message(location: Seq<char>) -> Seq<char> {
    "Flow ID not found in redirect URL: "@ + location
}

/// The text of a body that may not have been readable, empty where it was not.
pub open spec fn body_or_empty(body: Option<String>) -> Seq<char> {
    match body {
        Some(b) => b@,
        None => Seq::empty(),
    }
}

/// How a flow fetch ends once Kratos has answered with what should be the
/// flow: a refusal, an undecodable body, a flow without a CSRF token, or the
/// flow with its token and its cookies (the caller's, then `extra`).
pub open spec fn flow_reply_result(
    endpoint: Seq<char>,
    cookie: Option<Seq<char>>,
    extra: Seq<Seq<char>>,
    status: HttpStatus,
    body_text: Option<String>,
    document: Result<FlowDocument, String>,
    r: Result<FlowResult, String>,
) -> bool {
    if !is_success_code(status.spec_code()) {
        r matches Err(m) && m@ == fetch_refused_message(
            endpoint,
            status.spec_code(),
            body_or_empty(body_text),
        )
    } else {
        match document {
            Err(e) => r matches Err(m) && m@ == parse_failed_message(endpoint, e@),
            Ok(doc) => match spec_csrf_token(doc) {
                None => r matches Err(m) && m@ == csrf_missing_message(),
                Some(t) => r matches Ok(fr) && fr.flow == doc && fr.csrf_token@ == t
                    && fr.cookies.deep_view() == spec_flow_cookies(cookie, extra),
            },
        }
    }
}

fn finish_flow_reply(
    endpoint: &str,
    cookie: &Option<String>,
    extra: &Vec<String>,
    status: HttpStatus,
    body_text: Option<String>,
    document: Result<FlowDocument, String>,
) -> (r: Result<FlowResult, String>)
    ensures
        flow_reply_result(
            endpoint@,
            opt_view(*cookie),
            extra.deep_view(),
            status,
            body_text,
            document,
            r,
        ),
{
    if !status.is_success() {
        let mut m = String::from_str("Failed to fetch ");
        m.append(endpoint);
        m.append(" flow (status ");
        let st = status.display();
        m.append(st.as_str());
        m.append("): ");
        match &body_text {
            Some(b) => m.append(b.as_str()),
            None => {},
        }
        proof {
            if body_text is None {
                assert(m@ =~= fetch_refused_message(
                    endpoint@,
                    status.spec_code(),
                    body_or_empty(body_text),
                ));
            }
        }
        return Err(m);
    }
    match document {
        Err(e) => {
            let mut m = String::from_str("Failed to parse ");
            m.append(endpoint);
            m.append(" flow response: ");
            m.append(e.as_str());
            Err(m)
        },
        Ok(doc) => {
            match extract_csrf_token(&doc) {
                Err(m) => Err(m),
                Ok(token) => {
                    let cookies = flow_cookies(cookie, extra);
                    Ok(FlowResult { flow: doc, csrf_token: token, cookies })
                },
            }
        },
    }
}

/// Where a flow fetch stands.
#[derive(Debug)]
pub enum FlowFetchStage {
    /// The browser endpoint has been asked for a new flow.
    Browser,
    /// Kratos redirected to an existing flow, which has been asked for; the
    /// cookies that the redirect set are kept.
    Redirected { flow_cookies: Vec<String> },
}

/// A self-service flow being fetched for an endpoint (`login`, `settings`, ...).
#[derive(Debug)]
pub struct FlowFetch {
    pub public_url: String,
    pub endpoint: String,
    pub cookie: Option<String>,
    pub stage: FlowFetchStage,
}

/// What to do next in a flow fetch.
#[derive(Debug)]
pub enum FlowFetchStep {
    /// Send the request and report how it ended to the fetch.
    Send(FlowFetch, HttpGet),
    /// The fetch is over.
    Done(Result<FlowResult, String>),
}

/// The message for a redirect location that names no flow.
fn no_flow_id(location: &str) -> (m: String)
    ensures
        m@ == no_flow_id_message(location@),
{
    let mut m = String::from_str("Flow ID not found in redirect URL: ");
    m.append(location);
    m
}

impl FlowFetch {
    /// How the fetch goes on after `outcome`, the outcome of its last request.
    pub open spec fn step_result(self, outcome: HttpOutcome<FlowDocument>, r: FlowFetchStep) -> bool {
        let cookie = opt_view(self.cookie);
        match self.stage {
            FlowFetchStage::Browser => match outcome {
                HttpOutcome::SendFailed(e) => r matches FlowFetchStep::Done(Err(m)) && m@
                    == connect_failed_message(
                    spec_browser_flow_url(self.public_url@, self.endpoint@),
                    e@,
                ),
                HttpOutcome::Replied(reply) => {
                    let code = reply.status.spec_code();
                    if code == STATUS_SEE_OTHER || code == STATUS_FOUND {
                        match reply.location {
                            None => r matches FlowFetchStep::Done(Err(m)) && m@
                                == no_location_message(),
                            Some(loc) => match spec_flow_id_from_location(loc@) {
                                None => r matches FlowFetchStep::Done(Err(m)) && m@
                                    == no_flow_id_message(loc@),
                                Some(id) => r matches FlowFetchStep::Send(next, get) && {
                                    &&& next.public_url == self.public_url
                                    &&& next.endpoint == self.endpoint
                                    &&& next.cookie == self.cookie
                                    &&& next.stage matches FlowFetchStage::Redirected {
                                        flow_cookies,
                                    } && flow_cookies == reply.set_cookies
                                    &&& get.url@ == spec_flow_by_id_url(
                                        self.public_url@,
                                        self.endpoint@,
                                        id,
                                    )
                                    &&& opt_view(get.cookie) == if reply.set_cookies@.len() > 0 {
                                        Some(join_seqs(reply.set_cookies.deep_view(), "; "@))
                                    } else {
                                        cookie
                                    }
                                },
                            },
                        }
                    } else {
                        r matches FlowFetchStep::Done(res) && flow_reply_result(
                            self.endpoint@,
                            cookie,
                            reply.set_cookies.deep_view(),
                            reply.status,
                            reply.body_text,
                            reply.document,
                            res,
                        )
                    }
                },
            },
            FlowFetchStage::Redirected { flow_cookies } => match outcome {
                HttpOutcome::SendFailed(e) => r matches FlowFetchStep::Done(Err(m)) && m@ == e@,
                HttpOutcome::Replied(reply) => r matches FlowFetchStep::Done(res)
                    && flow_reply_result(
                    self.endpoint@,
                    cookie,
                    flow_cookies.deep_view(),
                    reply.status,
                    reply.body_text,
                    reply.document,
                    res,
                ),
            },
        }
    }

    /// Starts fetching a flow: ask the browser endpoint, with the caller's cookie.
    pub fn start(public_url: &str, endpoint: &str, cookie: Option<&str>) -> (r: (
        FlowFetch,
        HttpGet,
    ))
        ensures
            r.0.public_url@ == public_url@,
            r.0.endpoint@ == endpoint@,
            opt_view(r.0.cookie) == (match cookie {
                Some(c) => Some(c@),
                None => None::<Seq<char>>,
            }),
            r.0.stage is Browser,
            r.1.url@ == spec_browser_flow_url(public_url@, endpoint@),
            opt_view(r.1.cookie) == opt_view(r.0.cookie),
    {
        let url = browser_flow_url(public_url, endpoint);
        let c: Option<String> = match cookie {
            Some(c) => Some(String::from_str(c)),
            None => None,
        };
        let header: Option<String> = match &c {
            Some(v) => Some(v.clone()),
            None => None,
        };
        (
            FlowFetch {
                public_url: String::from_str(public_url),
                endpoint: String::from_str(endpoint),
                cookie: c,
                stage: FlowFetchStage::Browser,
            },
            HttpGet { url, cookie: header },
        )
    }

    /// Goes on after the outcome of the last request.
    pub fn on_outcome(self, outcome: HttpOutcome<FlowDocument>) -> (r: FlowFetchStep)
        ensures
            self.step_result(outcome, r),
    {
        match self.stage {
            FlowFetchStage::Browser => match outcome {
                HttpOutcome::SendFailed(e) => {
                    let url = browser_flow_url(self.public_url.as_str(), self.endpoint.as_str());
                    let mut m = String::from_str("Failed to connect to Kratos at ");
                    m.append(url.as_str());
                    m.append(": ");
                    m.append(e.as_str());
                    m.append(". Make sure Kratos is running.");
                    FlowFetchStep::Done(Err(m))
                },
                HttpOutcome::Replied(reply) => {
                    let code = reply.status.code();
                    if code == STATUS_SEE_OTHER || code == STATUS_FOUND {
                        match &reply.location {
                            None => FlowFetchStep::Done(
                                Err(String::from_str("No redirect location found")),
                            ),
                            Some(loc) => match flow_id_from_location(loc.as_str()) {
                                None => FlowFetchStep::Done(Err(no_flow_id(loc.as_str()))),
                                Some(id) => {
                                    let url = flow_by_id_url(
                                        self.public_url.as_str(),
                                        self.endpoint.as_str(),
                                        id.as_str(),
                                    );
                                    let header: Option<String> = if reply.set_cookies.len() > 0 {
                                        Some(join_strings(&reply.set_cookies, "; "))
                                    } else {
                                        match &self.cookie {
                                            Some(v) => Some(v.clone()),
                                            None => None,
                                        }
                                    };
                                    let next = FlowFetch {
                                        public_url: self.public_url,
                                        endpoint: self.endpoint,
                                        cookie: self.cookie,
                                        stage: FlowFetchStage::Redirected {
                                            flow_cookies: reply.set_cookies,
                                        },
                                    };
                                    FlowFetchStep::Send(next, HttpGet { url, cookie: header })
                                },
                            },
                        }
                    } else {
                        let res = finish_flow_reply(
                            self.endpoint.as_str(),
                            &self.cookie,
                            &reply.set_cookies,
                            reply.status,
                            reply.body_text,
                            reply.document,
                        );
                        FlowFetchStep::Done(res)
                    }
                },
            },
            FlowFetchStage::Redirected { flow_cookies } => match outcome {
                HttpOutcome::SendFailed(e) => FlowFetchStep::Done(Err(e)),
                HttpOutcome::Replied(reply) => {
                    let res = finish_flow_reply(
                        self.endpoint.as_str(),
                        &self.cookie,
                        &flow_cookies,
                        reply.status,
                        reply.body_text,
                        reply.document,
                    );
                    FlowFetchStep::Done(res)
                },
            },
        }
    }
}

/// A flow submission as it goes out: where it is posted and the `Cookie`
/// header it carries (the flow's cookies joined by `; `).
#[derive(Debug)]
pub struct FlowPost {
    pub url: String,
    pub cookie_header: String,
    pub payload: FlowPayload,
}

/// Prepares the submission of `payload` to the flow `flow_id` of `endpoint`.
pub fn prepare_post(
    public_url: &str,
    endpoint: &str,
    flow_id: &str,
    payload: FlowPayload,
    cookies: &Vec<String>,
) -> (r: FlowPost)
    ensures
        r.url@ == spec_submit_flow_url(public_url@, endpoint@, flow_id@),
        r.cookie_header@ == join_seqs(cookies.deep_view(), "; "@),
        r.payload == payload,
{
    let url = submit_flow_url(public_url, endpoint, flow_id);
    let cookie_header = join_strings(cookies, "; ");
    FlowPost { url, cookie_header, payload }
}

/// How a flow submission ends: a transport failure, a refusal with the
/// answer's body (or `{}` where it was not JSON), or the answer and its cookies.
pub open spec fn post_outcome_result(
    outcome: HttpOutcome<KratosResponseBody>,
    r: Result<PostFlowResult, KratosFlowError>,
) -> bool {
    match outcome {
        HttpOutcome::SendFailed(e) => r matches Err(err) && err.is_network(e@),
        HttpOutcome::Replied(reply) => if !is_success_code(reply.status.spec_code()) {
            r matches Err(err) && err.status == reply.status && match reply.document {
                Ok(body) => err.body == body,
                Err(_) => err.body.is_empty_object(),
            }
        } else {
            match reply.document {
                Ok(body) => r matches Ok(res) && res.data == body && res.cookies
                    == reply.set_cookies,
                Err(e) => r matches Err(err) && err.is_network(e@),
            }
        },
    }
}

/// How a flow submission ends, given the outcome of the request.
pub fn post_outcome(outcome: HttpOutcome<KratosResponseBody>) -> (r: Result<
    PostFlowResult,
    KratosFlowError,
>)
    ensures
        post_outcome_result(outcome, r),
{
    match outcome {
        HttpOutcome::SendFailed(e) => Err(KratosFlowError::network(e.as_str())),
        HttpOutcome::Replied(reply) => {
            if !reply.status.is_success() {
                let body = match reply.document {
                    Ok(b) => b,
                    Err(_) => KratosResponseBody::empty_object(),
                };
                Err(KratosFlowError { status: reply.status, body })
            } else {
                match reply.document {
                    Ok(data) => Ok(PostFlowResult { data, cookies: reply.set_cookies }),
                    Err(e) => Err(KratosFlowError::network(e.as_str())),
                }
            }
        },
    }
}

} // verus!

//! The URLs of the Kratos endpoints this service calls, and what it reads of
//! the URLs Kratos redirects it to.
use vstd::prelude::*;
use crate::kratos::models::opt_view;
use crate::text::{
    lemma_replace_absent_is_identity, lemma_replace_leaves_no_occurrence, occurs_at, occurs_at_exec, replace_all, replace_all_str,
    seq_contains, to_chars,
};

verus! {

/// `s` with every `localhost` replaced by `127.0.0.1`.
pub open spec fn loopback(s: Seq<char>) -> Seq<char> {
    replace_all(s, "localhost"@, "127.0.0.1"@)
}

/// `s` with every `localhost` replaced by `127.0.0.1`.
pub fn to_loopback(s: &str) -> (r: String)
    ensures
        r@ == loopback(s@),
{
    proof {
        reveal_strlit("localhost");
    }
    replace_all_str(s, "localhost", "127.0.0.1")
}

/// A rewritten URL never names `localhost`.
pub proof fn lemma_loopback_has_no_localhost(s: Seq<char>)
    ensures
        !seq_contains(loopback(s), "localhost"@),
{
    reveal_strlit("localhost");
    reveal_strlit("127.0.0.1");
    let from = "localhost"@;
    let to = "127.0.0.1"@;
    assert forall|k: int| 0 <= k < to.len() implies !from.contains(#[trigger] to[k]) by {
        assert forall|i: int| 0 <= i < from.len() implies from[i] != to[k] by {}
    }
    lemma_replace_leaves_no_occurrence(s, from, to);
}

/// Rewriting a URL a second time changes nothing.
pub proof fn lemma_loopback_idempotent(s: Seq<char>)
    ensures
        loopback(loopback(s)) == loopback(s),
{
    reveal_strlit("localhost");
    lemma_loopback_has_no_localhost(s);
    lemma_replace_absent_is_identity(loopback(s), "localhost"@, "127.0.0.1"@);
}

/// The URL that starts a browser self-service flow.
pub open spec fn spec_browser_flow_url(public_url: Seq<char>, endpoint: Seq<char>) -> Seq<char> {
    loopback(public_url + "/self-service/"@ + endpoint + "/browser"@)
}

/// The URL that starts a browser self-service flow.
pub fn browser_flow_url(public_url: &str, endpoint: &str) -> (r: String)
    ensures
        r@ == spec_browser_flow_url(public_url@, endpoint@),
{
    let mut u = String::from_str(public_url);
    u.append("/self-service/");
    u.append(endpoint);
    u.append("/browser");
    to_loopback(u.as_str())
}

/// The URL that a flow submission is posted to.
pub open spec fn spec_submit_flow_url(
    public_url: Seq<char>,
    endpoint: Seq<char>,
    flow_id: Seq<char>,
) -> Seq<char> {
    loopback(public_url + "/self-service/"@ + endpoint + "?flow="@ + flow_id)
}

/// The URL that a flow submission is posted to.
pub fn submit_flow_url(public_url: &str, endpoint: &str, flow_id: &str) -> (r: String)
    ensures
        r@ == spec_submit_flow_url(public_url@, endpoint@, flow_id@),
{
    let mut u = String::from_str(public_url);
    u.append("/self-service/");
    u.append(endpoint);
    u.append("?flow=");
    u.append(flow_id);
    to_loopback(u.as_str())
}

/// The URL that fetches an existing flow by its id. Only the base URL is rewritten.
pub open spec fn spec_flow_by_id_url(
    public_url: Seq<char>,
    endpoint: Seq<char>,
    flow_id: Seq<char>,
) -> Seq<char> {
    loopback(public_url) + "/self-service/"@ + endpoint + "/flows?id="@ + flow_id
}

/// The URL that fetches an existing flow by its id.
pub fn flow_by_id_url(public_url: &str, endpoint: &str, flow_id: &str) -> (r: String)
    ensures
        r@ == spec_flow_by_id_url(public_url@, endpoint@, flow_id@),
{
    let mut u = to_loopback(public_url);
    u.append("/self-service/");
    u.append(endpoint);
    u.append("/flows?id=");
    u.append(flow_id);
    u
}

/// The URL that tells who a session belongs to.
pub open spec fn spec_whoami_url(public_url: Seq<char>) -> Seq<char> {
    loopback(public_url + "/sessions/whoami"@)
}

/// The URL that tells who a session belongs to.
pub fn whoami_url(public_url: &str) -> (r: String)
    ensures
        r@ == spec_whoami_url(public_url@),
{
    let mut u = String::from_str(public_url);
    u.append("/sessions/whoami");
    to_loopback(u.as_str())
}

/// The URL that starts a browser logout flow.
pub open spec fn spec_logout_flow_url(public_url: Seq<char>) -> Seq<char> {
    loopback(public_url + "/self-service/logout/browser"@)
}

/// The URL that starts a browser logout flow.
pub fn logout_flow_url(public_url: &str) -> (r: String)
    ensures
        r@ == spec_logout_flow_url(public_url@),
{
    let mut u = String::from_str(public_url);
    u.append("/self-service/logout/browser");
    to_loopback(u.as_str())
}

/// No URL that starts a flow, submits one, asks who a session belongs to or
/// starts a logout names `localhost`, whatever the configured base URL.
pub proof fn lemma_kratos_urls_avoid_localhost(
    public_url: Seq<char>,
    endpoint: Seq<char>,
    flow_id: Seq<char>,
)
    ensures
        !seq_contains(spec_browser_flow_url(public_url, endpoint), "localhost"@),
        !seq_contains(spec_submit_flow_url(public_url, endpoint, flow_id), "localhost"@),
        !seq_contains(spec_whoami_url(public_url), "localhost"@),
        !seq_contains(spec_logout_flow_url(public_url), "localhost"@),
{
    lemma_loopback_has_no_localhost(public_url + "/self-service/"@ + endpoint + "/browser"@);
    lemma_loopback_has_no_localhost(
        public_url + "/self-service/"@ + endpoint + "?flow="@ + flow_id,
    );
    lemma_loopback_has_no_localhost(public_url + "/sessions/whoami"@);
    lemma_loopback_has_no_localhost(public_url + "/self-service/logout/browser"@);
}

/// The first index from `i` on where `pat` occurs in `s`.
pub open spec fn find_from(s: Seq<char>, pat: Seq<char>, i: int) -> Option<int>
    decreases s.len() + 1 - i,
{
    if i < 0 || i + pat.len() > s.len() {
        None
    } else if occurs_at(s, pat, i) {
        Some(i)
    } else {
        find_from(s, pat, i + 1)
    }
}

/// `s` up to the first occurrence of `pat`, or all of `s` where there is none:
/// the first piece of `s` split at `pat`.
pub open spec fn before_first(s: Seq<char>, pat: Seq<char>) -> Seq<char> {
    match find_from(s, pat, 0) {
        Some(j) => s.take(j),
        None => s,
    }
}

/// The flow id that a redirect location names: the text between the first
/// `flow=` and the next `flow=` (or the end), cut at the first `&`.
pub open spec fn spec_flow_id_from_location(location: Seq<char>) -> Option<Seq<char>> {
    match find_from(location, "flow="@, 0) {
        None => None,
        Some(k) => Some(
            before_first(before_first(location.skip(k + "flow="@.len()), "flow="@), seq!['&']),
        ),
    }
}

/// What `find_from` returns is the first occurrence from `i` on.
pub proof fn lemma_find_from(s: Seq<char>, pat: Seq<char>, i: int)
    requires
        0 <= i,
    ensures
        find_from(s, pat, i) matches Some(j) ==> {
            &&& i <= j
            &&& occurs_at(s, pat, j)
            &&& forall|q: int| i <= q < j ==> !occurs_at(s, pat, q)
        },
        find_from(s, pat, i) is None ==> forall|q: int| i <= q ==> !occurs_at(s, pat, q),
    decreases s.len() + 1 - i,
{
    if i + pat.len() > s.len() {
    } else if occurs_at(s, pat, i) {
    } else {
        lemma_find_from(s, pat, i + 1);
    }
}

fn find_exec(s: &Vec<char>, pat: &Vec<char>, start: usize) -> (r: Option<usize>)
    requires
        start <= s.len(),
    ensures
        match r {
            Some(j) => find_from(s@, pat@, start as int) == Some(j as int),
            None => find_from(s@, pat@, start as int) is None,
        },
{
    let mut i = start;
    loop
        invariant
            start <= i <= s.len(),
            find_from(s@, pat@, start as int) == find_from(s@, pat@, i as int),
        decreases s.len() - i,
    {
        if pat.len() > s.len() - i {
            return None;
        }
        if occurs_at_exec(s, pat, i) {
            return Some(i);
        }
        proof {
            if pat@.len() == 0 {
                assert(s@.subrange(i as int, i as int) =~= pat@);
            }
        }
        i = i + 1;
    }
}

fn copy_range(s: &Vec<char>, from: usize, to: usize) -> (r: Vec<char>)
    requires
        from <= to <= s.len(),
    ensures
        r@ == s@.subrange(from as int, to as int),
{
    let mut r: Vec<char> = Vec::new();
    let mut i = from;
    while i < to
        invariant
            from <= i <= to <= s.len(),
            r@ == s@.subrange(from as int, i as int),
        decreases to - i,
    {
        r.push(s[i]);
        i = i + 1;
        assert(r@ =~= s@.subrange(from as int, i as int));
    }
    r
}

/// The flow id that a redirect location names, if it names one.
pub fn flow_id_from_location(location: &str) -> (r: Option<String>)
    ensures
        opt_view(r) == spec_flow_id_from_location(location@),
{
    proof {
        reveal_strlit("flow=");
    }
    let cs = to_chars(location);
    let key = to_chars("flow=");
    let amp = to_chars("&");
    proof {
        reveal_strlit("&");
        assert(amp@ =~= seq!['&']);
    }
    match find_exec(&cs, &key, 0) {
        None => None,
        Some(k) => {
            proof {
                lemma_find_from(cs@, key@, 0);
                assert(find_from(cs@, key@, 0) == Some(k as int));
                assert(occurs_at(cs@, key@, k as int));
            }
            let klen = key.len();
            assert(k + klen <= cs.len());
            let start = k + klen;
            let rest = copy_range(&cs, start, cs.len());
            assert(rest@ =~= location@.skip(start as int));
            proof {
                lemma_find_from(rest@, key@, 0);
            }
            let seg_len = match find_exec(&rest, &key, 0) {
                Some(j) => j,
                None => rest.len(),
            };
            let seg = copy_range(&rest, 0, seg_len);
            assert(seg@ =~= before_first(rest@, key@));
            proof {
                lemma_find_from(seg@, amp@, 0);
            }
            let id_len = match find_exec(&seg, &amp, 0) {
                Some(j) => j,
                None => seg.len(),
            };
            assert(seg@.take(id_len as int) =~= before_first(seg@, amp@));
            assert(location@.subrange(start as int, start + id_len) =~= seg@.take(id_len as int));
            Some(location.substring_char(start, start + id_len).to_owned())
        },
    }
}

/// A redirect location of the form `<prefix>flow=<id><tail>` names the flow
/// `id`, where `prefix` holds no `flow=`, `id` holds no `flow=` and no `&`,
/// and `tail` is empty or starts with `&`.
pub proof fn lemma_flow_id_round_trip(prefix: Seq<char>, id: Seq<char>, tail: Seq<char>)
    requires
        !seq_contains(prefix, "flow="@),
        !seq_contains(id, "flow="@),
        !id.contains('&'),
        tail.len() == 0 || tail[0] == '&',
    ensures
        spec_flow_id_from_location(prefix + "flow="@ + id + tail) == Some(id),
{
    reveal_strlit("flow=");
    let key = "flow="@;
    let loc = prefix + key + id + tail;
    let n = prefix.len() as int;
    assert(loc.subrange(n, n + 5) =~= key);
    assert(occurs_at(loc, key, n));
    assert forall|q: int| 0 <= q < n implies !occurs_at(loc, key, q) by {
        if occurs_at(loc, key, q) {
            if q + 5 <= n {
                assert(prefix.subrange(q, q + 5) =~= loc.subrange(q, q + 5));
                assert(occurs_at(prefix, key, q));
            } else {
                assert(loc[n] == 'f');
                assert(loc.subrange(q, q + 5)[n - q] == loc[n]);
            }
        }
    }
    lemma_find_from(loc, key, 0);
    assert(find_from(loc, key, 0) == Some(n));
    let rest = loc.skip(n + 5);
    assert(rest =~= id + tail);
    let m = id.len() as int;
    assert forall|j: int| 0 <= j < m implies !occurs_at(rest, key, j) by {
        if occurs_at(rest, key, j) {
            if j + 5 <= m {
                assert(id.subrange(j, j + 5) =~= rest.subrange(j, j + 5));
                assert(occurs_at(id, key, j));
            } else {
                assert(rest[m] == tail[0]);
                assert(rest.subrange(j, j + 5)[m - j] == rest[m]);
            }
        }
    }
    lemma_find_from(rest, key, 0);
    let seg = before_first(rest, key);
    assert(seg.len() >= m);
    assert(seg.take(m) =~= id);
    assert(seg.len() > m ==> seg[m] == '&');
    let amp = seq!['&'];
    assert forall|j: int| 0 <= j < m implies !occurs_at(seg, amp, j) by {
        if occurs_at(seg, amp, j) {
            assert(seg.subrange(j, j + 1)[0] == seg[j]);
            assert(id[j] == seg[j]);
        }
    }
    lemma_find_from(seg, amp, 0);
    if seg.len() > m {
        assert(seg.subrange(m, m + 1) =~= amp);
        assert(occurs_at(seg, amp, m));
        assert(find_from(seg, amp, 0) == Some(m));
        assert(before_first(seg, amp) =~= id);
    } else {
        assert(find_from(seg, amp, 0) is None);
        assert(seg =~= id);
    }
}

/// The flow id read from a redirect location never holds `&`.
pub proof fn lemma_flow_id_has_no_ampersand(location: Seq<char>)
    ensures
        spec_flow_id_from_location(location) matches Some(id) ==> !id.contains('&'),
{
    reveal_strlit("flow=");
    let key = "flow="@;
    let amp = seq!['&'];
    match find_from(location, key, 0) {
        None => {},
        Some(k) => {
            let seg = before_first(location.skip(k + key.len()), key);
            lemma_find_from(seg, amp, 0);
            let id = before_first(seg, amp);
            assert forall|i: int| 0 <= i < id.len() implies id[i] != '&' by {
                if id[i] == '&' {
                    assert(seg.subrange(i, i + 1) =~= amp);
                    assert(occurs_at(seg, amp, i));
                }
            }
        },
    }
}

} // verus!

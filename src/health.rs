//! Classification of health-endpoint replies.
use vstd::prelude::*;

verus! {

pub const FIXED_API_BASE: &'static str = "http://127.0.0.1:8000";

pub const HEALTH_URL: &'static str = "http://127.0.0.1:8000/health";

/// Upper bound on the first health probe of a flow.
pub const PROBE_TIMEOUT_MS: u64 = 2000;

/// Upper bound on each poll made while the backend is starting.
pub const POLL_TIMEOUT_MS: u64 = 500;

/// The loose marker that a healthy body must hold somewhere.
pub const OK_MARKER: &'static str = "ok";

/// The compact JSON encoding of the healthy status.
pub const OK_STATUS_COMPACT: &'static str = "\"status\":\"ok\"";

/// The JSON encoding of the healthy status with a space after the colon.
pub const OK_STATUS_SPACED: &'static str = "\"status\": \"ok\"";

/// What the endpoint answered: the status code, and the body where it could be read.
pub struct HttpReply {
    pub status: u16,
    pub body: Option<String>,
}

/// A 2xx status code.
pub open spec fn is_success_spec(code: u16) -> bool {
    200 <= code && code < 300
}

/// `pat` occurs in `s` as a contiguous run of characters.
pub open spec fn contains_spec(s: Seq<char>, pat: Seq<char>) -> bool {
    exists|i: int| 0 <= i && i + pat.len() <= s.len() && #[trigger] s.subrange(i, i + pat.len()) == pat
}

pub open spec fn ok_marker() -> Seq<char> {
    seq!['o', 'k']
}

/// A reply that counts as healthy.
pub open spec fn probe_ok_spec(reply: Option<(u16, Option<Seq<char>>)>) -> bool {
    match reply {
        Some((status, Some(body))) => is_success_spec(status) && contains_spec(body, ok_marker()),
        _ => false,
    }
}

/// The view of an optional reply: its code and the characters of its body.
pub open spec fn reply_view(reply: Option<&HttpReply>) -> Option<(u16, Option<Seq<char>>)> {
    match reply {
        Some(r) => Some(
            (
                r.status,
                match r.body {
                    Some(b) => Some(b@),
                    None => None,
                },
            ),
        ),
        None => None,
    }
}

/// Whether a status code is in the success class, as `http::StatusCode::is_success` decides.
pub fn is_success(code: u16) -> (r: bool)
    ensures
        r == is_success_spec(code),
{
    200 <= code && code < 300
}

/// Whether `pat` occurs in `hay` starting at character `at`.
fn matches_at(hay: &str, pat: &str, at: usize) -> (r: bool)
    requires
        at + pat@.len() <= hay@.len(),
    ensures
        r == (hay@.subrange(at as int, at + pat@.len()) == pat@),
{
    let n = hay.unicode_len();
    let m = pat.unicode_len();
    let mut j: usize = 0;
    while j < m
        invariant
            n == hay@.len(),
            m == pat@.len(),
            at + m <= n,
            j <= m,
            forall|k: int| 0 <= k < j ==> hay@[at + k] == pat@[k],
        decreases m - j,
    {
        if hay.get_char(at + j) != pat.get_char(j) {
            assert(hay@.subrange(at as int, at + m)[j as int] != pat@[j as int]);
            return false;
        }
        j = j + 1;
    }
    assert(hay@.subrange(at as int, at + m) =~= pat@);
    true
}

/// Whether `pat` occurs anywhere in `hay`.
pub fn contains_text(hay: &str, pat: &str) -> (r: bool)
    ensures
        r == contains_spec(hay@, pat@),
{
    let n = hay.unicode_len();
    let m = pat.unicode_len();
    if m > n {
        return false;
    }
    if m == 0 {
        assert(hay@.subrange(0, 0 + pat@.len() as int) =~= pat@);
        return true;
    }
    let mut i: usize = 0;
    while i <= n - m
        invariant
            n == hay@.len(),
            m == pat@.len(),
            1 <= m <= n,
            i <= n - m + 1,
            forall|k: int| 0 <= k < i ==> #[trigger] hay@.subrange(k, k + m) != pat@,
        decreases n - m + 1 - i,
    {
        if matches_at(hay, pat, i) {
            return true;
        }
        i = i + 1;
    }
    false
}

/// A marker found inside a longer run is found in the whole text.
proof fn lemma_contains_inner(s: Seq<char>, outer: Seq<char>, off: int, inner: Seq<char>)
    requires
        contains_spec(s, outer),
        0 <= off,
        off + inner.len() <= outer.len(),
        outer.subrange(off, off + inner.len()) == inner,
    ensures
        contains_spec(s, inner),
{
    let i = choose|i: int|
        0 <= i && i + outer.len() <= s.len() && #[trigger] s.subrange(i, i + outer.len()) == outer;
    assert(s.subrange(i + off, i + off + inner.len()) =~= outer.subrange(off, off + inner.len()));
}

/// Whether a body carries the healthy marker. The two JSON encodings of
/// `"status": "ok"` are looked for first; the bare `ok` that follows accepts
/// every body that holds those two letters anywhere, a deliberate looseness.
pub fn body_has_ok_marker(body: &str) -> (r: bool)
    ensures
        r == contains_spec(body@, ok_marker()),
{
    proof {
        reveal_strlit("ok");
        reveal_strlit("\"status\":\"ok\"");
        reveal_strlit("\"status\": \"ok\"");
        assert(OK_MARKER@ =~= ok_marker());
    }
    if contains_text(body, OK_STATUS_COMPACT) {
        proof {
            assert(OK_STATUS_COMPACT@.subrange(10, 12) =~= ok_marker());
            lemma_contains_inner(body@, OK_STATUS_COMPACT@, 10, ok_marker());
        }
        return true;
    }
    if contains_text(body, OK_STATUS_SPACED) {
        proof {
            assert(OK_STATUS_SPACED@.subrange(11, 13) =~= ok_marker());
            lemma_contains_inner(body@, OK_STATUS_SPACED@, 11, ok_marker());
        }
        return true;
    }
    contains_text(body, OK_MARKER)
}

/// A reply counts as healthy exactly when its code is a success and its body
/// holds the marker; both JSON encodings of the healthy status qualify, and a
/// failed request, an unread body or another code never does.
pub proof fn law_probe_healthy(status: u16, body: Seq<char>)
    ensures
        probe_ok_spec(Some((status, Some(body)))) <==> is_success_spec(status) && contains_spec(
            body,
            ok_marker(),
        ),
        is_success_spec(status) && (contains_spec(body, OK_STATUS_COMPACT@) || contains_spec(
            body,
            OK_STATUS_SPACED@,
        )) ==> probe_ok_spec(Some((status, Some(body)))),
        !probe_ok_spec(None),
        !probe_ok_spec(Some((status, None))),
        !is_success_spec(status) ==> !probe_ok_spec(Some((status, Some(body)))),
{
    reveal_strlit("\"status\":\"ok\"");
    reveal_strlit("\"status\": \"ok\"");
    if contains_spec(body, OK_STATUS_COMPACT@) {
        assert(OK_STATUS_COMPACT@.subrange(10, 12) =~= ok_marker());
        lemma_contains_inner(body, OK_STATUS_COMPACT@, 10, ok_marker());
    }
    if contains_spec(body, OK_STATUS_SPACED@) {
        assert(OK_STATUS_SPACED@.subrange(11, 13) =~= ok_marker());
        lemma_contains_inner(body, OK_STATUS_SPACED@, 11, ok_marker());
    }
}

/// The base URL of the backend's API, which never changes.
pub fn get_backend_base_url() -> (r: Result<String, String>)
    ensures
        r matches Ok(u) && u@ == FIXED_API_BASE@,
{
    Ok(String::from_str(FIXED_API_BASE))
}

/// Classifies a health probe, the first of a flow as well as each poll while
/// the backend starts: `None` stands for a request that failed or timed out.
/// Healthy means a success code and a body, read in full, that carries the marker.
pub fn probe_health_ok(reply: Option<&HttpReply>) -> (r: bool)
    ensures
        r == probe_ok_spec(reply_view(reply)),
{
    match reply {
        None => false,
        Some(rep) => {
            if !is_success(rep.status) {
                return false;
            }
            match &rep.body {
                None => false,
                Some(b) => body_has_ok_marker(b.as_str()),
            }
        },
    }
}

} // verus!

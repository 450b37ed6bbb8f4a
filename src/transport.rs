use vstd::prelude::*;
use vstd::string::*;

verus! {

/// The wire transport that carries the RPC traffic of one session.
#[derive(Debug, Clone, Copy, PartialEq, Eq, Structural)]
pub enum TransportType {
    /// Server-sent events.
    Sse,
    /// Streamable HTTP.
    StreamableHttp,
}

/// `p` occurs in `s` starting at position `i`.
pub open spec fn occurs_at(s: Seq<char>, p: Seq<char>, i: int) -> bool {
    0 <= i && i + p.len() <= s.len() && s.subrange(i, i + p.len()) == p
}

/// `p` occurs somewhere in `s`.
pub open spec fn contains_seq(s: Seq<char>, p: Seq<char>) -> bool {
    exists|i: int| #[trigger] occurs_at(s, p, i)
}

/// The path fragment that marks an event-stream endpoint.
pub open spec fn sse_marker() -> Seq<char> {
    "/sse"@
}

/// The hint that asks for the event-stream transport.
pub open spec fn sse_hint() -> Seq<char> {
    "sse"@
}

/// The hint that asks for the streamable HTTP transport.
pub open spec fn http_hint() -> Seq<char> {
    "http"@
}

/// The transport chosen for `url`: a recognized hint wins; otherwise a URL
/// that holds the event-stream marker gets server-sent events, and any other
/// URL gets streamable HTTP.
pub open spec fn transport_for(url: Seq<char>, hint: Option<Seq<char>>) -> TransportType {
    if hint == Some(sse_hint()) {
        TransportType::Sse
    } else if hint == Some(http_hint()) {
        TransportType::StreamableHttp
    } else if contains_seq(url, sse_marker()) {
        TransportType::Sse
    } else {
        TransportType::StreamableHttp
    }
}

/// The characters of `s`, in order.
fn chars_of(s: &str) -> (r: Vec<char>)
    ensures
        r@ == s@,
{
    let n = s.unicode_len();
    let mut out: Vec<char> = Vec::new();
    let mut i: usize = 0;
    while i < n
        invariant
            n == s@.len(),
            i <= n,
            out@ == s@.subrange(0, i as int),
        decreases n - i,
    {
        out.push(s.get_char(i));
        i = i + 1;
    }
    assert(out@ == s@);
    out
}

/// Whether `p` equals `s` from position `i` on, over `p`'s length.
fn matches_at(s: &Vec<char>, p: &Vec<char>, i: usize) -> (r: bool)
    requires
        i + p@.len() <= s@.len(),
    ensures
        r == occurs_at(s@, p@, i as int),
{
    let n = s.len();
    let mut j: usize = 0;
    while j < p.len()
        invariant
            n == s@.len(),
            i + p@.len() <= s@.len(),
            j <= p@.len(),
            forall|k: int| 0 <= k < j ==> s@[i + k] == p@[k],
        decreases p@.len() - j,
    {
        if s[i + j] != p[j] {
            assert(s@.subrange(i as int, i + p@.len())[j as int] != p@[j as int]);
            return false;
        }
        j = j + 1;
    }
    assert(s@.subrange(i as int, i + p@.len()) =~= p@);
    true
}

/// Whether `p` occurs in `s`.
pub fn contains_text(s: &str, p: &str) -> (r: bool)
    ensures
        r == contains_seq(s@, p@),
{
    let sc = chars_of(s);
    let pc = chars_of(p);
    if pc.len() > sc.len() {
        return false;
    }
    let last = sc.len() - pc.len();
    let mut i: usize = 0;
    loop
        invariant
            sc@ == s@,
            pc@ == p@,
            last == sc@.len() - pc@.len(),
            i <= last,
            forall|k: int| 0 <= k < i ==> !occurs_at(s@, p@, k),
        decreases last - i,
    {
        if matches_at(&sc, &pc, i) {
            return true;
        }
        if i == last {
            assert forall|k: int| !occurs_at(s@, p@, k) by {
                if 0 <= k < i {
                }
            }
            return false;
        }
        i = i + 1;
    }
}

/// Whether `a` and `b` hold the same characters.
pub fn same_text(a: &str, b: &str) -> (r: bool)
    ensures
        r == (a@ == b@),
{
    let ac = chars_of(a);
    let bc = chars_of(b);
    if ac.len() != bc.len() {
        return false;
    }
    let mut i: usize = 0;
    while i < ac.len()
        invariant
            ac@ == a@,
            bc@ == b@,
            ac@.len() == bc@.len(),
            i <= ac@.len(),
            forall|k: int| 0 <= k < i ==> ac@[k] == bc@[k],
        decreases ac@.len() - i,
    {
        if ac[i] != bc[i] {
            return false;
        }
        i = i + 1;
    }
    assert(ac@ =~= bc@);
    true
}

/// Chooses the transport for a session at `url`. A hint of `"sse"` or
/// `"http"` is followed whatever the URL looks like; any other hint, or none,
/// leaves the choice to the URL: one that holds `/sse` gets server-sent
/// events, any other gets streamable HTTP.
pub fn select_transport(url: &str, hint: Option<&str>) -> (r: TransportType)
    ensures
        r == transport_for(url@, match hint {
            Some(h) => Some(h@),
            None => None,
        }),
{
    let sse = "sse";
    let http = "http";
    let marker = "/sse";
    match hint {
        Some(h) => {
            if same_text(h, sse) {
                return TransportType::Sse;
            }
            if same_text(h, http) {
                proof {
                    reveal_strlit("sse");
                    reveal_strlit("http");
                }
                return TransportType::StreamableHttp;
            }
        },
        None => {},
    }
    if contains_text(url, marker) {
        TransportType::Sse
    } else {
        TransportType::StreamableHttp
    }
}

/// Without a hint, a URL that holds `/sse` gets server-sent events and any
/// other URL gets streamable HTTP; with either recognized hint, the hint
/// decides whatever the URL looks like.
pub proof fn lemma_transport_choice(url: Seq<char>)
    ensures
        contains_seq(url, sse_marker()) ==> transport_for(url, None) == TransportType::Sse,
        !contains_seq(url, sse_marker()) ==> transport_for(url, None)
            == TransportType::StreamableHttp,
        transport_for(url, Some(sse_hint())) == TransportType::Sse,
        transport_for(url, Some(http_hint())) == TransportType::StreamableHttp,
{
    reveal_strlit("sse");
    reveal_strlit("http");
    assert(sse_hint().len() != http_hint().len());
}

} // verus!

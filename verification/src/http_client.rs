//! Connector client HTTP: a request that a connector's login flow asks the
//! desktop to perform. Redirects are followed by hand, at most five times;
//! every target must pass the runtime's remote-URL check before it is
//! contacted, a host name is looked up once and the request pinned to the
//! public addresses that passed, and credentials are dropped when a
//! redirect leaves the origin.
//!
//! The flow is a state machine: [`ClientHttpState::begin`] validates the
//! request and checks its URL, [`ClientHttpState::step`] consumes each
//! lookup and each response and says what to do next. The caller performs
//! the lookups and the requests.

use vstd::prelude::*;

use base64::Engine;

use crate::model::{ClientHttpRequest, ClientHttpResponse};
use crate::net::{
    ip_is_private, port_or_https, rejects_with, remote_url_allowed, resolution_is_public,
    resolves_host, IpAddress, RemoteCheck, RemoteUrl, UrlParts,
};
use crate::text::{ascii_lower, has_suffix, owned, push_str, str_eq, to_ascii_lower};

verus! {

// ---------------------------------------------------------------------------
// Tokens: methods and header names
// ---------------------------------------------------------------------------

/// An HTTP token character (RFC 9110 `tchar`).
pub open spec fn is_tchar(c: char) -> bool {
    ||| ('a' <= c && c <= 'z')
    ||| ('A' <= c && c <= 'Z')
    ||| ('0' <= c && c <= '9')
    ||| c == '!' || c == '#' || c == '$' || c == '%' || c == '&' || c == '\'' || c == '*'
    ||| c == '+' || c == '-' || c == '.' || c == '^' || c == '_' || c == '`' || c == '|'
    ||| c == '~'
}

/// A non-empty sequence of token characters.
pub open spec fn is_token(s: Seq<char>) -> bool {
    s.len() > 0 && forall|i: int| 0 <= i < s.len() ==> is_tchar(#[trigger] s[i])
}

/// A valid header name: a token of at most 65535 characters.
pub open spec fn is_header_name(s: Seq<char>) -> bool {
    is_token(s) && s.len() <= 65535
}

/// Whether `Method::from_bytes` accepts the text. The http crate's source
/// accepts exactly the non-empty byte strings of token characters; since
/// those are ASCII, the statement is made over the characters.
#[verifier::external_body]
pub(crate) fn method_accepted(text: &str) -> (r: bool)
    ensures
        r == is_token(text@),
{
    reqwest::Method::from_bytes(text.as_bytes()).is_ok()
}

/// Whether `HeaderName::from_bytes` accepts the text. The http crate's
/// source accepts exactly the token byte strings of length 1 to 65535.
#[verifier::external_body]
fn header_name_accepted(text: &str) -> (r: bool)
    ensures
        r == is_header_name(text@),
{
    reqwest::header::HeaderName::from_bytes(text.as_bytes()).is_ok()
}

// ---------------------------------------------------------------------------
// Base64 bodies
// ---------------------------------------------------------------------------

/// What the standard Base64 engine decodes a text to, when it is valid.
pub uninterp spec fn spec_base64_decode(text: Seq<char>) -> Option<Seq<u8>>;

/// What the standard Base64 engine encodes bytes to.
pub uninterp spec fn spec_base64_encode(bytes: Seq<u8>) -> Seq<char>;

/// Decodes with `base64::engine::general_purpose::STANDARD.decode`. The
/// contract names the outcome; the alphabet and padding rules are left to
/// the crate.
#[verifier::external_body]
fn base64_decode(text: &str) -> (r: Option<Vec<u8>>)
    ensures
        match r {
            Some(v) => spec_base64_decode(text@) == Some(v@),
            None => spec_base64_decode(text@) is None,
        },
{
    base64::engine::general_purpose::STANDARD.decode(text).ok()
}

/// Encodes with `base64::engine::general_purpose::STANDARD.encode`, which
/// panics only when the encoded length overflows `usize`. Besides naming
/// the result, the contract states the crate's round trip: decoding the
/// encoding gives the bytes back.
#[verifier::external_body]
fn base64_encode(bytes: &[u8]) -> (r: String)
    requires
        bytes@.len() <= usize::MAX / 4,
    ensures
        r@ == spec_base64_encode(bytes@),
        spec_base64_decode(r@) == Some(bytes@),
{
    base64::engine::general_purpose::STANDARD.encode(bytes)
}

// ---------------------------------------------------------------------------
// Request headers
// ---------------------------------------------------------------------------

/// A header table as plain values: names with their values.
pub open spec fn table_view(t: Seq<(String, Vec<String>)>) -> Seq<(Seq<char>, Seq<Seq<char>>)> {
    t.map_values(|e: (String, Vec<String>)| (e.0@, e.1@.map_values(|s: String| s@)))
}

/// A list of header lines as plain values.
pub open spec fn pairs_view(p: Seq<(String, String)>) -> Seq<(Seq<char>, Seq<char>)> {
    p.map_values(|e: (String, String)| (e.0@, e.1@))
}

/// Headers that the client itself controls and never forwards: `Host`,
/// `Content-Length` and `Connection`, in any ASCII case.
pub open spec fn is_hop_header(name: Seq<char>) -> bool {
    let l = ascii_lower(name);
    l == "host"@ || l == "content-length"@ || l == "connection"@
}

/// The header lines sent for a header table: every value of every header
/// but the hop-by-hop ones, in table order.
pub open spec fn forwarded_lines(t: Seq<(Seq<char>, Seq<Seq<char>>)>) -> Seq<(Seq<char>, Seq<char>)>
    decreases t.len(),
{
    if t.len() == 0 {
        seq![]
    } else {
        let e = t.last();
        forwarded_lines(t.drop_last()) + if is_hop_header(e.0) {
            Seq::<(Seq<char>, Seq<char>)>::empty()
        } else {
            e.1.map_values(|v: Seq<char>| (e.0, v))
        }
    }
}

/// Hop-by-hop headers are never forwarded: no line sent for a header table
/// is named `Host`, `Content-Length` or `Connection` in any ASCII case, and
/// every value of every other header is sent.
pub proof fn forwarded_lines_skip_hop_headers(t: Seq<(Seq<char>, Seq<Seq<char>>)>)
    ensures
        forall|i: int|
            0 <= i < forwarded_lines(t).len() ==> !is_hop_header(#[trigger] forwarded_lines(t)[i].0),
        forwarded_lines(t).len() == forwarded_count(t),
    decreases t.len(),
{
    if t.len() > 0 {
        forwarded_lines_skip_hop_headers(t.drop_last());
        let e = t.last();
        let prev = forwarded_lines(t.drop_last());
        let added = if is_hop_header(e.0) {
            Seq::<(Seq<char>, Seq<char>)>::empty()
        } else {
            e.1.map_values(|v: Seq<char>| (e.0, v))
        };
        assert(forwarded_lines(t) == prev + added);
        assert forall|i: int| 0 <= i < forwarded_lines(t).len() implies !is_hop_header(
            #[trigger] forwarded_lines(t)[i].0,
        ) by {
            if i >= prev.len() {
                assert(forwarded_lines(t)[i] == added[i - prev.len()]);
            } else {
                assert(forwarded_lines(t)[i] == prev[i]);
            }
        }
    }
}

/// How many values the non-hop-by-hop headers of a table hold.
pub open spec fn forwarded_count(t: Seq<(Seq<char>, Seq<Seq<char>>)>) -> nat
    decreases t.len(),
{
    if t.len() == 0 {
        0
    } else {
        forwarded_count(t.drop_last()) + if is_hop_header(t.last().0) {
            0
        } else {
            t.last().1.len()
        }
    }
}

/// Every forwarded header has a valid name.
pub open spec fn forwarded_names_valid(t: Seq<(Seq<char>, Seq<Seq<char>>)>) -> bool {
    forall|i: int| 0 <= i < t.len() && !is_hop_header(#[trigger] t[i].0) ==> is_header_name(t[i].0)
}

/// Whether a header name is one of the hop-by-hop headers.
pub fn is_hop_header_exec(name: &str) -> (r: bool)
    ensures
        r == is_hop_header(name@),
{
    let l = to_ascii_lower(name);
    str_eq(l.as_str(), "host") || str_eq(l.as_str(), "content-length") || str_eq(
        l.as_str(),
        "connection",
    )
}

/// The header lines to send for a request's header table, or `None` when
/// a header that would be forwarded has an invalid name.
pub fn forward_headers(headers: &Vec<(String, Vec<String>)>) -> (r: Option<Vec<(String, String)>>)
    ensures
        match r {
            Some(lines) => forwarded_names_valid(table_view(headers@)) && pairs_view(lines@)
                == forwarded_lines(table_view(headers@)),
            None => !forwarded_names_valid(table_view(headers@)),
        },
{
    let ghost t = table_view(headers@);
    let mut lines: Vec<(String, String)> = Vec::new();
    let mut i: usize = 0;
    while i < headers.len()
        invariant
            t == table_view(headers@),
            i <= headers@.len(),
            pairs_view(lines@) == forwarded_lines(t.take(i as int)),
            forwarded_names_valid(t.take(i as int)),
        decreases headers.len() - i,
    {
        let name = &headers[i].0;
        let values = &headers[i].1;
        proof {
            assert(t.take(i + 1).drop_last() =~= t.take(i as int));
            assert(t[i as int].0 == name@);
            assert(t[i as int].1 == values@.map_values(|s: String| s@));
        }
        if !is_hop_header_exec(name.as_str()) {
            if !header_name_accepted(name.as_str()) {
                proof {
                    assert(!is_header_name(t[i as int].0));
                }
                return None;
            }
            let ghost before = lines@;
            let mut k: usize = 0;
            while k < values.len()
                invariant
                    k <= values@.len(),
                    lines@.len() == before.len() + k,
                    forall|j: int| 0 <= j < before.len() ==> lines@[j] == before[j],
                    forall|j: int|
                        0 <= j < k ==> (#[trigger] lines@[before.len() + j]).0@ == name@ && lines@[before.len() + j].1@ == values@[j]@,
                decreases values.len() - k,
            {
                lines.push((name.clone(), values[k].clone()));
                k += 1;
            }
            proof {
                let added = t[i as int].1.map_values(|v: Seq<char>| (t[i as int].0, v));
                assert(added.len() == values@.len());
                assert forall|j: int| 0 <= j < added.len() implies #[trigger] added[j] == pairs_view(lines@)[before.len() + j] by {
                    assert(lines@[before.len() + j].0@ == name@);
                }
                assert(pairs_view(lines@) =~= pairs_view(before) + added);
            }
        } else {
            proof {
                assert(pairs_view(lines@) =~= forwarded_lines(t.take(i + 1)));
            }
        }
        proof {
            assert forall|j: int|
                0 <= j < t.take(i + 1).len() && !is_hop_header(
                    #[trigger] t.take(i + 1)[j].0,
                ) implies is_header_name(t.take(i + 1)[j].0) by {
                if j < i {
                    assert(t.take(i + 1)[j] == t.take(i as int)[j]);
                }
            }
        }
        i += 1;
    }
    proof {
        assert(t.take(headers@.len() as int) =~= t);
    }
    Some(lines)
}

// ---------------------------------------------------------------------------
// Response headers
// ---------------------------------------------------------------------------

/// The values of the lines named `name`, in order.
pub open spec fn values_named(p: Seq<(Seq<char>, Seq<char>)>, name: Seq<char>) -> Seq<Seq<char>>
    decreases p.len(),
{
    if p.len() == 0 {
        seq![]
    } else if p.last().0 == name {
        values_named(p.drop_last(), name).push(p.last().1)
    } else {
        values_named(p.drop_last(), name)
    }
}

/// Some entry of the table is named `name`.
pub open spec fn table_has(table: Seq<(Seq<char>, Seq<Seq<char>>)>, name: Seq<char>) -> bool {
    exists|i: int| 0 <= i < table.len() && #[trigger] table[i].0 == name
}

/// Some header line is named `name`.
pub open spec fn lines_have(p: Seq<(Seq<char>, Seq<char>)>, name: Seq<char>) -> bool {
    exists|k: int| 0 <= k < p.len() && #[trigger] p[k].0 == name
}

/// `table` groups the header lines `p`: each name of `p` appears once,
/// with the values of its lines in order, and no other name appears.
pub open spec fn groups_lines(table: Seq<(Seq<char>, Seq<Seq<char>>)>, p: Seq<(Seq<char>, Seq<char>)>) -> bool {
    &&& forall|i: int, j: int| 0 <= i < j < table.len() ==> table[i].0 != table[j].0
    &&& forall|i: int| 0 <= i < table.len() ==> #[trigger] table[i].1 == values_named(p, table[i].0)
    &&& forall|k: int| 0 <= k < p.len() ==> table_has(table, (#[trigger] p[k]).0)
    &&& forall|i: int| 0 <= i < table.len() ==> lines_have(p, (#[trigger] table[i]).0)
}

proof fn lemma_values_named_push(p: Seq<(Seq<char>, Seq<char>)>, e: (Seq<char>, Seq<char>), name: Seq<char>)
    ensures
        values_named(p.push(e), name) == if e.0 == name {
            values_named(p, name).push(e.1)
        } else {
            values_named(p, name)
        },
{
    assert(p.push(e).drop_last() =~= p);
}

proof fn lemma_values_named_absent(p: Seq<(Seq<char>, Seq<char>)>, name: Seq<char>)
    requires
        forall|k: int| 0 <= k < p.len() ==> (#[trigger] p[k]).0 != name,
    ensures
        values_named(p, name) == Seq::<Seq<char>>::empty(),
    decreases p.len(),
{
    if p.len() > 0 {
        assert(p.last() == p[p.len() - 1]);
        lemma_values_named_absent(p.drop_last(), name);
    }
}

/// The position of the entry named `name`, if any.
fn find_name(table: &Vec<(String, Vec<String>)>, name: &str) -> (r: Option<usize>)
    ensures
        match r {
            Some(a) => a < table@.len() && table@[a as int].0@ == name@,
            None => forall|b: int| 0 <= b < table@.len() ==> table@[b].0@ != name@,
        },
{
    let mut a: usize = 0;
    while a < table.len()
        invariant
            a <= table@.len(),
            forall|b: int| 0 <= b < a ==> table@[b].0@ != name@,
        decreases table.len() - a,
    {
        if str_eq(table[a].0.as_str(), name) {
            return Some(a);
        }
        a += 1;
    }
    None
}

proof fn lemma_group_extend(
    t: Seq<(Seq<char>, Seq<Seq<char>>)>,
    q: Seq<(Seq<char>, Seq<char>)>,
    e: (Seq<char>, Seq<char>),
    a: int,
)
    requires
        groups_lines(t, q),
        0 <= a < t.len(),
        t[a].0 == e.0,
    ensures
        groups_lines(t.update(a, (e.0, t[a].1.push(e.1))), q.push(e)),
{
    let n = t.update(a, (e.0, t[a].1.push(e.1)));
    let q2 = q.push(e);
    assert forall|b: int| 0 <= b < n.len() implies #[trigger] n[b].0 == t[b].0 by {}
    assert forall|b: int| 0 <= b < n.len() implies #[trigger] n[b].1 == values_named(q2, n[b].0) by {
        lemma_values_named_push(q, e, n[b].0);
    }
    assert forall|k: int| 0 <= k < q2.len() implies table_has(n, (#[trigger] q2[k]).0) by {
        if k < q.len() {
            assert(table_has(t, q[k].0));
            let b = choose|b: int| 0 <= b < t.len() && #[trigger] t[b].0 == q[k].0;
            assert(n[b].0 == q2[k].0);
        } else {
            assert(n[a].0 == q2[k].0);
        }
    }
    assert forall|b: int| 0 <= b < n.len() implies lines_have(q2, (#[trigger] n[b]).0) by {
        assert(lines_have(q, t[b].0));
        let k = choose|k: int| 0 <= k < q.len() && #[trigger] q[k].0 == t[b].0;
        assert(q2[k] == q[k]);
    }
}

proof fn lemma_group_new(
    t: Seq<(Seq<char>, Seq<Seq<char>>)>,
    q: Seq<(Seq<char>, Seq<char>)>,
    e: (Seq<char>, Seq<char>),
)
    requires
        groups_lines(t, q),
        forall|b: int| 0 <= b < t.len() ==> t[b].0 != e.0,
    ensures
        groups_lines(t.push((e.0, seq![e.1])), q.push(e)),
{
    let n = t.push((e.0, seq![e.1]));
    let q2 = q.push(e);
    assert forall|k: int| 0 <= k < q.len() implies (#[trigger] q[k]).0 != e.0 by {
        assert(table_has(t, q[k].0));
    }
    lemma_values_named_absent(q, e.0);
    assert forall|b: int| 0 <= b < n.len() implies #[trigger] n[b].1 == values_named(q2, n[b].0) by {
        lemma_values_named_push(q, e, n[b].0);
        if b == t.len() {
            assert(seq![e.1] =~= Seq::<Seq<char>>::empty().push(e.1));
        }
    }
    assert forall|k: int| 0 <= k < q2.len() implies table_has(n, (#[trigger] q2[k]).0) by {
        if k < q.len() {
            assert(table_has(t, q[k].0));
            let b = choose|b: int| 0 <= b < t.len() && #[trigger] t[b].0 == q[k].0;
            assert(n[b].0 == q2[k].0);
        } else {
            assert(n[t.len() as int].0 == q2[k].0);
        }
    }
    assert forall|b: int| 0 <= b < n.len() implies lines_have(q2, (#[trigger] n[b]).0) by {
        if b < t.len() {
            assert(lines_have(q, t[b].0));
            let k = choose|k: int| 0 <= k < q.len() && #[trigger] q[k].0 == t[b].0;
            assert(q2[k] == q[k]);
        } else {
            assert(q2[q.len() as int] == e);
        }
    }
}

/// Groups received header lines by name, keeping the order of values.
#[verifier::rlimit(50)]
pub fn group_headers(lines: &Vec<(String, String)>) -> (r: Vec<(String, Vec<String>)>)
    ensures
        groups_lines(table_view(r@), pairs_view(lines@)),
{
    let ghost p = pairs_view(lines@);
    let mut table: Vec<(String, Vec<String>)> = Vec::new();
    let mut i: usize = 0;
    proof {
        assert(table_view(table@) =~= Seq::<(Seq<char>, Seq<Seq<char>>)>::empty());
    }
    while i < lines.len()
        invariant
            p == pairs_view(lines@),
            i <= lines@.len(),
            groups_lines(table_view(table@), p.take(i as int)),
        decreases lines.len() - i,
    {
        let name = &lines[i].0;
        let value = &lines[i].1;
        let ghost e = p[i as int];
        let ghost q = p.take(i as int);
        let ghost old_t = table_view(table@);
        proof {
            assert(e == (name@, value@));
            assert(p.take(i + 1) =~= q.push(e));
        }
        match find_name(&table, name.as_str()) {
            Some(a) => {
                let ghost old_vec = table@;
                let v = value.clone();
                table[a].1.push(v);
                proof {
                    lemma_group_extend(old_t, q, e, a as int);
                    let want = old_t.update(a as int, (e.0, old_t[a as int].1.push(e.1)));
                    let got = table_view(table@);
                    assert(table@.len() == old_vec.len());
                    assert(table@[a as int].0 == old_vec[a as int].0);
                    assert(table@[a as int].1@ == old_vec[a as int].1@.push(v));
                    assert(got[a as int].1 =~= want[a as int].1);
                    assert forall|b: int| 0 <= b < got.len() implies got[b] == want[b] by {
                        if b != a {
                            assert(table@[b] == old_vec[b]);
                        }
                    }
                    assert(got =~= want);
                }
            },
            None => {
                let ghost old_vec = table@;
                let mut vals: Vec<String> = Vec::new();
                let v = value.clone();
                vals.push(v);
                let nm = name.clone();
                proof {
                    assert(vals@.map_values(|s: String| s@) =~= seq![e.1]);
                }
                table.push((nm, vals));
                proof {
                    lemma_group_new(old_t, q, e);
                    let got = table_view(table@);
                    let want = old_t.push((e.0, seq![e.1]));
                    assert(table@ == old_vec.push((nm, vals)));
                    assert forall|b: int| 0 <= b < got.len() implies got[b] == want[b] by {
                        if b < old_vec.len() {
                            assert(table@[b] == old_vec[b]);
                        }
                    }
                    assert(got =~= want);
                }
            },
        }
        i += 1;
    }
    proof {
        assert(p.take(lines@.len() as int) =~= p);
    }
    table
}

// ---------------------------------------------------------------------------
// The redirect-following state machine
// ---------------------------------------------------------------------------

/// How many requests one client HTTP exchange may send, redirects included.
pub const MAX_CLIENT_HTTP_REQUESTS: usize = 6;

/// Which runtime's remote-URL check an exchange applies.
#[derive(Clone, Copy, Debug)]
pub enum UrlPolicy {
    /// The WSL runtime's check (`wsl::ensure_public_remote_url`).
    Wsl,
    /// The native runtime's check (`native::ensure_public_remote_url`).
    Native,
}

/// A host name that is `localhost` in any ASCII case or lies under `.local`.
pub open spec fn local_host(h: Seq<char>) -> bool {
    ascii_lower(h) == "localhost"@ || has_suffix(h, ".local"@)
}

/// The URL may be contacted as it is, without resolving its host.
pub open spec fn accepted_as_is(policy: UrlPolicy, p: UrlParts) -> bool {
    match policy {
        UrlPolicy::Wsl => remote_url_allowed(p) && (p.4 matches Some(IpAddress::V4(_))),
        UrlPolicy::Native => p.1 == "https"@ && p.2 is Some && !local_host(p.2->0) && (p.4 matches Some(
            ip,
        ) && !ip_is_private(ip)),
    }
}

/// The URL may be contacted once its host resolves to public addresses.
pub open spec fn needs_resolution(policy: UrlPolicy, p: UrlParts) -> bool {
    match policy {
        UrlPolicy::Wsl => remote_url_allowed(p) && !(p.4 matches Some(IpAddress::V4(_))),
        UrlPolicy::Native => p.1 == "https"@ && p.2 is Some && !local_host(p.2->0) && p.4 is None,
    }
}

/// Why the check refuses a URL that is neither accepted nor resolved.
pub open spec fn refusal(policy: UrlPolicy, p: UrlParts) -> Seq<char> {
    match policy {
        UrlPolicy::Wsl => "connector client HTTP only permits public HTTPS URLs"@,
        UrlPolicy::Native => if p.1 != "https"@ {
            "connector client HTTP only permits public HTTPS URLs"@
        } else if p.2 is None {
            "connector client HTTP URL is missing a host"@
        } else if local_host(p.2->0) {
            "connector client HTTP blocks local hosts"@
        } else {
            "connector client HTTP blocks private or local addresses"@
        },
    }
}

/// Why the check refuses the addresses a host resolved to.
pub open spec fn resolution_refusal(policy: UrlPolicy, a: Seq<IpAddress>) -> Seq<char> {
    match policy {
        UrlPolicy::Wsl => if a.len() == 0 {
            "connector HTTP host did not resolve"@
        } else {
            "connector client HTTP host resolves to a private or local address"@
        },
        UrlPolicy::Native => "connector client HTTP host resolves to a private/local or empty address set"@,
    }
}

/// A request to the URL pinned to the addresses `a` passes the check: the
/// URL is accepted as it is (nothing to pin), or its host resolved to `a`,
/// a non-empty list of public addresses.
pub open spec fn target_passes(policy: UrlPolicy, p: UrlParts, a: Seq<IpAddress>) -> bool {
    ||| accepted_as_is(policy, p) && a.len() == 0
    ||| needs_resolution(policy, p) && resolution_is_public(a)
}

/// Two URLs with the same scheme, host and port.
pub open spec fn same_origin(p: UrlParts, q: UrlParts) -> bool {
    p.1 == q.1 && p.2 == q.2 && p.3 == q.3
}

/// Headers that carry credentials and are dropped when a redirect leaves
/// the origin: `Authorization`, `Cookie`, `Cookie2`, `Proxy-Authorization`
/// and `WWW-Authenticate`, in any ASCII case.
pub open spec fn is_secret_header(name: Seq<char>) -> bool {
    let l = ascii_lower(name);
    ||| l == "authorization"@
    ||| l == "cookie"@
    ||| l == "cookie2"@
    ||| l == "proxy-authorization"@
    ||| l == "www-authenticate"@
}

/// The header lines without the credential-carrying ones, in order.
pub open spec fn without_secrets(p: Seq<(Seq<char>, Seq<char>)>) -> Seq<(Seq<char>, Seq<char>)>
    decreases p.len(),
{
    if p.len() == 0 {
        seq![]
    } else {
        without_secrets(p.drop_last()) + if is_secret_header(p.last().0) {
            Seq::<(Seq<char>, Seq<char>)>::empty()
        } else {
            seq![p.last()]
        }
    }
}

/// Credentials never follow a redirect to another origin: no header line
/// left after leaving the origin carries them.
pub proof fn secrets_stay_on_origin(p: Seq<(Seq<char>, Seq<char>)>)
    ensures
        forall|i: int|
            0 <= i < without_secrets(p).len() ==> !is_secret_header(#[trigger] without_secrets(p)[i].0),
    decreases p.len(),
{
    if p.len() > 0 {
        secrets_stay_on_origin(p.drop_last());
        let prev = without_secrets(p.drop_last());
        assert forall|i: int| 0 <= i < without_secrets(p).len() implies !is_secret_header(
            #[trigger] without_secrets(p)[i].0,
        ) by {
            if i < prev.len() {
                assert(without_secrets(p)[i] == prev[i]);
            }
        }
    }
}

fn is_secret_header_exec(name: &str) -> (r: bool)
    ensures
        r == is_secret_header(name@),
{
    let l = to_ascii_lower(name);
    let l = l.as_str();
    str_eq(l, "authorization") || str_eq(l, "cookie") || str_eq(l, "cookie2") || str_eq(
        l,
        "proxy-authorization",
    ) || str_eq(l, "www-authenticate")
}

/// The header lines without the credential-carrying ones.
pub fn strip_secrets(lines: &Vec<(String, String)>) -> (r: Vec<(String, String)>)
    ensures
        pairs_view(r@) == without_secrets(pairs_view(lines@)),
{
    let ghost p = pairs_view(lines@);
    let mut out: Vec<(String, String)> = Vec::new();
    let mut i: usize = 0;
    while i < lines.len()
        invariant
            p == pairs_view(lines@),
            i <= lines@.len(),
            pairs_view(out@) == without_secrets(p.take(i as int)),
        decreases lines.len() - i,
    {
        proof {
            assert(p.take(i + 1).drop_last() =~= p.take(i as int));
            assert(p.take(i + 1).last() == p[i as int]);
        }
        if !is_secret_header_exec(lines[i].0.as_str()) {
            let ghost before = out@;
            let line = (lines[i].0.clone(), lines[i].1.clone());
            out.push(line);
            proof {
                assert(pairs_view(out@) =~= pairs_view(before) + seq![p[i as int]]);
            }
        } else {
            proof {
                assert(without_secrets(p.take(i + 1)) =~= without_secrets(p.take(i as int)));
            }
        }
        i += 1;
    }
    proof {
        assert(p.take(lines@.len() as int) =~= p);
    }
    out
}

/// The header lines after a redirect from `p` to `q`: unchanged on the
/// same origin, without credentials on another.
pub open spec fn headers_after_redirect(
    p: UrlParts,
    q: UrlParts,
    before: Option<Vec<(String, String)>>,
    after: Option<Vec<(String, String)>>,
) -> bool {
    match (before, after) {
        (None, None) => true,
        (Some(b), Some(a)) => pairs_view(a@) == if same_origin(p, q) {
            pairs_view(b@)
        } else {
            without_secrets(pairs_view(b@))
        },
        _ => false,
    }
}

/// The `Location` header of a redirect response, as received.
pub enum LocationHeader {
    Missing,
    /// Present, but not visible ASCII.
    Unreadable,
    Value(String),
}

/// Where the exchange stands.
pub enum ClientHttpPhase {
    /// The current URL's host is being resolved before it is sent to.
    CheckTarget,
    /// A request was sent; its response is awaited.
    AwaitResponse,
    /// The host of a redirect target is being resolved before the redirect
    /// is followed.
    CheckRedirect,
}

/// The state of one client HTTP exchange.
pub struct ClientHttpState {
    /// The remote-URL check that every target must pass.
    pub policy: UrlPolicy,
    /// The URL requests go to.
    pub url: RemoteUrl,
    pub method: String,
    pub body: Option<Vec<u8>>,
    /// The header lines to send; `None` when a forwarded header name is
    /// invalid, which fails the exchange before anything is sent.
    pub headers: Option<Vec<(String, String)>>,
    /// How many redirects have been followed.
    pub redirects: usize,
    pub phase: ClientHttpPhase,
    /// The redirect target being checked.
    pub next: Option<RemoteUrl>,
    /// The status of the redirect being checked.
    pub next_status: u16,
    /// The addresses that the current URL's host resolved to and that
    /// passed the check: the request connects to these only (none when the
    /// host is an IP address).
    pub pinned: Vec<IpAddress>,
}

/// What happened since the last action.
pub enum ClientHttpEvent {
    /// The addresses that the host of a `Resolve` action resolved to, or
    /// `None` when the lookup failed.
    Resolved(Option<Vec<IpAddress>>),
    /// The response to the request that `Send` asked for.
    Responded { status: u16, location: LocationHeader },
}

/// What the caller does next.
pub enum ClientHttpAction {
    /// Resolve this host at this port and report the addresses.
    Resolve { host: String, port: u16 },
    /// Send `method` to `url` with `headers` and `body`, connecting only to
    /// the `pinned` addresses when there are any.
    Send,
    /// The response just received is the answer.
    Deliver,
    /// Give up with this error.
    Fail(String),
}

/// `HttpStatus::is_redirection`.
pub open spec fn is_redirection(status: u16) -> bool {
    300 <= status && status <= 399
}

/// A redirect after which a request that is neither `GET` nor `HEAD` is
/// repeated as a `GET` without a body (301, 302 and 303).
pub open spec fn switches_to_get(status: u16, method: Seq<char>) -> bool {
    301 <= status && status <= 303 && method != "GET"@ && method != "HEAD"@
}

/// `a` is `Fail` with message `m`.
pub open spec fn fails_with(a: ClientHttpAction, m: Seq<char>) -> bool {
    a matches ClientHttpAction::Fail(msg) && msg@ == m
}

/// What checking the current URL (with parts `q`) leads to: a request when
/// the URL is accepted as it is (unless a header name is invalid), a lookup
/// of its host when it needs one, the refusal otherwise.
pub open spec fn current_outcome(policy: UrlPolicy, q: UrlParts, r: (ClientHttpState, ClientHttpAction)) -> bool {
    if accepted_as_is(policy, q) {
        if r.0.headers is None {
            fails_with(r.1, "invalid client HTTP header"@)
        } else {
            r.1 is Send && r.0.phase is AwaitResponse && r.0.pinned@.len() == 0
        }
    } else if needs_resolution(policy, q) {
        &&& r.1 matches ClientHttpAction::Resolve { host, port } && q.2 == Some(host@) && port
            == port_or_https(q.3)
        &&& r.0.phase is CheckTarget
    } else {
        fails_with(r.1, refusal(policy, q))
    }
}

/// What following a redirect from `s` to the target with parts `q` and
/// status `status` leads to, once the target passed: the budget ends the
/// exchange, or the target becomes the URL (with `GET` and no body after
/// 301, 302 or 303, and without credentials on another origin) and is
/// checked again.
pub open spec fn follow_outcome(s: ClientHttpState, q: UrlParts, status: u16, r: (ClientHttpState, ClientHttpAction)) -> bool {
    if s.redirects + 1 >= MAX_CLIENT_HTTP_REQUESTS {
        fails_with(r.1, "connector client HTTP exceeded redirect limit"@)
    } else {
        &&& r.0.url.parts() == q
        &&& r.0.policy == s.policy
        &&& r.0.redirects == s.redirects + 1
        &&& r.0.next is None
        &&& if switches_to_get(status, s.method@) {
            r.0.method@ == "GET"@ && r.0.body is None
        } else {
            r.0.method == s.method && r.0.body == s.body
        }
        &&& headers_after_redirect(s.url.parts(), q, s.headers, r.0.headers)
        &&& current_outcome(s.policy, q, r)
    }
}

/// What a redirect from `s` (awaiting its response) to the target with
/// parts `q` leads to: it is followed when the target is accepted as it is,
/// its host is looked up when it needs that, and it is refused otherwise.
pub open spec fn redirect_outcome(s: ClientHttpState, q: UrlParts, status: u16, r: (ClientHttpState, ClientHttpAction)) -> bool {
    if accepted_as_is(s.policy, q) {
        follow_outcome(s, q, status, r)
    } else if needs_resolution(s.policy, q) {
        &&& r.1 matches ClientHttpAction::Resolve { host, port } && q.2 == Some(host@) && port
            == port_or_https(q.3)
        &&& r.0.phase is CheckRedirect
        &&& r.0.next matches Some(n) && n.parts() == q
        &&& r.0.next_status == status
        &&& r.0.url == s.url
        &&& r.0.policy == s.policy
        &&& r.0.method == s.method
        &&& r.0.body == s.body
        &&& r.0.headers == s.headers
        &&& r.0.redirects == s.redirects
    } else {
        fails_with(r.1, refusal(s.policy, q))
    }
}

impl ClientHttpState {
    /// The state's invariant: fewer redirects than the request budget; a
    /// redirect target present exactly while its host is looked up; a host
    /// looked up only where the check asks for it; and a request awaited
    /// only for a URL that passed the check with the addresses it is pinned
    /// to.
    pub open spec fn wf(&self) -> bool {
        &&& self.redirects < MAX_CLIENT_HTTP_REQUESTS
        &&& (self.phase is CheckRedirect) == (self.next is Some)
        &&& self.phase is CheckRedirect ==> is_redirection(self.next_status) && needs_resolution(
            self.policy,
            self.next->0.parts(),
        )
        &&& self.phase is CheckTarget ==> needs_resolution(self.policy, self.url.parts())
        &&& self.phase is AwaitResponse ==> target_passes(self.policy, self.url.parts(), self.pinned@)
            && self.headers is Some
    }

    /// How many requests the exchange has sent: one per followed redirect,
    /// and one more once the current URL has been sent to.
    pub open spec fn requests_sent(&self) -> nat {
        (self.redirects + if self.phase is CheckTarget {
            0nat
        } else {
            1nat
        }) as nat
    }

    fn policy_check(policy: UrlPolicy, url: &RemoteUrl) -> (r: RemoteCheck)
        ensures
            accepted_as_is(policy, url.parts()) ==> r is Accept,
            needs_resolution(policy, url.parts()) ==> resolves_host(r, url.parts()),
            !accepted_as_is(policy, url.parts()) && !needs_resolution(policy, url.parts())
                ==> rejects_with(r, refusal(policy, url.parts())),
    {
        match policy {
            UrlPolicy::Wsl => crate::wsl::ensure_public_remote_url(url),
            UrlPolicy::Native => crate::native::ensure_public_remote_url(url),
        }
    }

    fn resolution_check(policy: UrlPolicy, addrs: &Vec<IpAddress>) -> (r: Result<(), String>)
        ensures
            r is Ok <==> resolution_is_public(addrs@),
            r matches Err(m) ==> m@ == resolution_refusal(policy, addrs@),
    {
        match policy {
            UrlPolicy::Wsl => crate::wsl::check_resolved_addresses(addrs),
            UrlPolicy::Native => crate::native::check_resolved_addresses(addrs),
        }
    }

    /// Sends to the current URL, pinned to `addrs`, unless a header name is
    /// invalid.
    fn send_current(self, addrs: Vec<IpAddress>) -> (r: (ClientHttpState, ClientHttpAction))
        ensures
            self.headers is None ==> fails_with(r.1, "invalid client HTTP header"@),
            self.headers is Some ==> r.1 is Send && r.0.phase is AwaitResponse && r.0.pinned@ == addrs@,
            r.0.url == self.url && r.0.policy == self.policy && r.0.method == self.method && r.0.body
                == self.body && r.0.headers == self.headers && r.0.redirects == self.redirects
                && r.0.next == self.next,
    {
        let ClientHttpState { policy, url, method, body, headers, redirects, phase, next, next_status, pinned } = self;
        if headers.is_none() {
            let st = ClientHttpState { policy, url, method, body, headers, redirects, phase, next, next_status, pinned };
            return (st, ClientHttpAction::Fail(owned("invalid client HTTP header")));
        }
        let st = ClientHttpState { policy, url, method, body, headers, redirects, phase: ClientHttpPhase::AwaitResponse, next, next_status, pinned: addrs };
        (st, ClientHttpAction::Send)
    }

    /// Checks the current URL.
    fn check_current(self) -> (r: (ClientHttpState, ClientHttpAction))
        ensures
            current_outcome(self.policy, self.url.parts(), r),
            r.0.url == self.url && r.0.policy == self.policy && r.0.method == self.method && r.0.body
                == self.body && r.0.headers == self.headers && r.0.redirects == self.redirects
                && r.0.next == self.next,
    {
        match Self::policy_check(self.policy, &self.url) {
            RemoteCheck::Reject(m) => (self, ClientHttpAction::Fail(m)),
            RemoteCheck::Accept => self.send_current(Vec::new()),
            RemoteCheck::Resolve { host, port } => {
                let ClientHttpState { policy, url, method, body, headers, redirects, phase, next, next_status, pinned } = self;
                let st = ClientHttpState { policy, url, method, body, headers, redirects, phase: ClientHttpPhase::CheckTarget, next, next_status, pinned };
                (st, ClientHttpAction::Resolve { host, port })
            },
        }
    }

    /// Follows the redirect to `target` with `status`, which passed the
    /// check.
    fn follow(self, target: RemoteUrl, status: u16) -> (r: (ClientHttpState, ClientHttpAction))
        requires
            self.next is None,
            self.redirects < MAX_CLIENT_HTTP_REQUESTS,
        ensures
            follow_outcome(self, target.parts(), status, r),
            self.redirects + 1 < MAX_CLIENT_HTTP_REQUESTS && (status == 301 || status == 302
                || status == 303) && self.method@ != "GET"@ && self.method@ != "HEAD"@ ==> r.0.method@
                == "GET"@ && r.0.body is None,
            self.redirects + 1 < MAX_CLIENT_HTTP_REQUESTS && !(301 <= status && status <= 303) ==> r.0.method
                == self.method && r.0.body == self.body,
    {
        let ghost old_self = self;
        let ClientHttpState { policy, url, method, body, headers, redirects, phase, next, next_status, pinned } = self;
        let count = redirects + 1;
        if count >= MAX_CLIENT_HTTP_REQUESTS {
            let st = ClientHttpState { policy, url, method, body, headers, redirects, phase, next, next_status, pinned };
            return (st, ClientHttpAction::Fail(owned("connector client HTTP exceeded redirect limit")));
        }
        let switch = 301 <= status && status <= 303 && !str_eq(method.as_str(), "GET") && !str_eq(
            method.as_str(),
            "HEAD",
        );
        let (method, body) = if switch {
            (owned("GET"), None)
        } else {
            (method, body)
        };
        let same = str_eq(url.scheme(), target.scheme()) && opt_str_eq(url.host(), target.host())
            && url.port() == target.port();
        let headers = match headers {
            None => None,
            Some(lines) => if same {
                Some(lines)
            } else {
                Some(strip_secrets(&lines))
            },
        };
        proof {
            assert(same == same_origin(old_self.url.parts(), target.parts()));
        }
        let st = ClientHttpState { policy, url: target, method, body, headers, redirects: count, phase: ClientHttpPhase::CheckTarget, next: None, next_status, pinned: Vec::new() };
        st.check_current()
    }

    /// Checks the redirect target `target` of a response with `status`.
    fn check_redirect(self, target: RemoteUrl, status: u16) -> (r: (ClientHttpState, ClientHttpAction))
        requires
            self.next is None,
            self.redirects < MAX_CLIENT_HTTP_REQUESTS,
        ensures
            redirect_outcome(self, target.parts(), status, r),
    {
        match Self::policy_check(self.policy, &target) {
            RemoteCheck::Reject(m) => (self, ClientHttpAction::Fail(m)),
            RemoteCheck::Accept => self.follow(target, status),
            RemoteCheck::Resolve { host, port } => {
                let ClientHttpState { policy, url, method, body, headers, redirects, phase, next, next_status, pinned } = self;
                let st = ClientHttpState { policy, url, method, body, headers, redirects, phase: ClientHttpPhase::CheckRedirect, next: Some(target), next_status: status, pinned };
                (st, ClientHttpAction::Resolve { host, port })
            },
        }
    }

    /// The URL that a `Resolve` action concerns.
    pub open spec fn target_spec(&self) -> RemoteUrl {
        match self.next {
            Some(n) => n,
            None => self.url,
        }
    }

    /// Validates a request and starts the exchange under `policy`: the URL
    /// must parse, the method must be a token and the body valid Base64;
    /// then the URL is checked.
    pub fn begin(input: &ClientHttpRequest, policy: UrlPolicy) -> (r: Result<(ClientHttpState, ClientHttpAction), String>)
        ensures
            crate::net::spec_url_parse(input.url@) is None ==> (r matches Err(m) && m@
                == "invalid connector client HTTP URL"@),
            crate::net::spec_url_parse(input.url@) is Some && !is_token(input.method@) ==> (
            r matches Err(m) && m@ == "invalid client HTTP method"@),
            crate::net::spec_url_parse(input.url@) is Some && is_token(input.method@) && (
            input.body matches Some(b) && spec_base64_decode(b@) is None) ==> (r matches Err(m)
                && m@ == "invalid base64 client HTTP body"@),
            r is Err ==> crate::net::spec_url_parse(input.url@) is None || !is_token(input.method@)
                || (input.body matches Some(b) && spec_base64_decode(b@) is None),
            r matches Ok((s, a)) ==> {
                &&& !(a is Fail) ==> s.wf()
                &&& a is Send ==> s.requests_sent() == 1
                &&& !(a is Send) && !(a is Fail) ==> s.requests_sent() == 0
                &&& s.policy == policy
                &&& s.redirects == 0
                &&& s.next is None
                &&& crate::net::spec_url_parse(input.url@) == Some(s.url.parts())
                &&& current_outcome(policy, s.url.parts(), (s, a))
                &&& s.method@ == input.method@
                &&& match (input.body, s.body) {
                    (None, None) => true,
                    (Some(b), Some(v)) => spec_base64_decode(b@) == Some(v@),
                    _ => false,
                }
                &&& match s.headers {
                    Some(lines) => forwarded_names_valid(table_view(input.headers@))
                        && pairs_view(lines@) == forwarded_lines(table_view(input.headers@)),
                    None => !forwarded_names_valid(table_view(input.headers@)),
                }
            },
    {
        let url = match RemoteUrl::parse(input.url.as_str()) {
            Some(u) => u,
            None => return Err(owned("invalid connector client HTTP URL")),
        };
        if !method_accepted(input.method.as_str()) {
            return Err(owned("invalid client HTTP method"));
        }
        let body = match &input.body {
            Some(b) => match base64_decode(b.as_str()) {
                Some(v) => Some(v),
                None => return Err(owned("invalid base64 client HTTP body")),
            },
            None => None,
        };
        let headers = forward_headers(&input.headers);
        let state = ClientHttpState {
            policy,
            url,
            method: input.method.clone(),
            body,
            headers,
            redirects: 0,
            phase: ClientHttpPhase::CheckTarget,
            next: None,
            next_status: 0,
            pinned: Vec::new(),
        };
        Ok(state.check_current())
    }

    /// Consumes the outcome of the last action.
    ///
    /// A failed lookup, or addresses that fail the check, fail the
    /// exchange. Addresses that pass lead to sending to the current URL,
    /// pinned to them, or to following the redirect. A non-redirect
    /// response is delivered; a redirect is resolved against the current
    /// URL and its target checked, looked up or refused. A followed target
    /// becomes the URL — with `GET` and no body after a 301, 302 or 303 to
    /// a method other than `GET` or `HEAD`, and without credentials when it
    /// lies on another origin — and is checked again; the exchange fails
    /// when the request budget is spent.
    pub fn step(self, event: ClientHttpEvent) -> (r: (ClientHttpState, ClientHttpAction))
        requires
            self.wf(),
            (event is Resolved) == !(self.phase is AwaitResponse),
        ensures
            !(r.1 is Fail) ==> r.0.wf(),
            r.1 is Send ==> {
                &&& r.0.phase is AwaitResponse
                &&& target_passes(r.0.policy, r.0.url.parts(), r.0.pinned@)
                &&& r.0.requests_sent() == self.requests_sent() + 1
            },
            !(r.1 is Send) && !(r.1 is Fail) ==> r.0.requests_sent() == self.requests_sent(),
            !(r.1 is Fail) ==> r.0.policy == self.policy,
            match (self.phase, event) {
                (ClientHttpPhase::CheckTarget, ClientHttpEvent::Resolved(None)) => fails_with(
                    r.1,
                    "failed to resolve connector HTTP host "@ + self.url.parts().2->0,
                ),
                (ClientHttpPhase::CheckTarget, ClientHttpEvent::Resolved(Some(a))) => if !resolution_is_public(a@) {
                    fails_with(r.1, resolution_refusal(self.policy, a@))
                } else {
                    &&& (self.headers is None ==> fails_with(r.1, "invalid client HTTP header"@))
                    &&& (self.headers is Some ==> r.1 is Send && r.0.pinned@ == a@)
                    &&& r.0.url == self.url && r.0.method == self.method && r.0.body == self.body
                        && r.0.headers == self.headers && r.0.redirects == self.redirects
                },
                (ClientHttpPhase::CheckRedirect, ClientHttpEvent::Resolved(None)) => fails_with(
                    r.1,
                    "failed to resolve connector HTTP host "@ + self.next->0.parts().2->0,
                ),
                (ClientHttpPhase::CheckRedirect, ClientHttpEvent::Resolved(Some(a))) => if !resolution_is_public(a@) {
                    fails_with(r.1, resolution_refusal(self.policy, a@))
                } else {
                    follow_outcome(ClientHttpState { next: None, ..self }, self.next->0.parts(), self.next_status, r)
                },
                (ClientHttpPhase::AwaitResponse, ClientHttpEvent::Responded { status, location }) => {
                    if !is_redirection(status) {
                        r.1 is Deliver && r.0 == self
                    } else {
                        match location {
                            LocationHeader::Missing => fails_with(r.1, "redirect response is missing Location header"@),
                            LocationHeader::Unreadable => fails_with(r.1, "invalid redirect Location header"@),
                            LocationHeader::Value(l) => match crate::net::spec_url_join(self.url.parts().0, l@) {
                                None => fails_with(r.1, "invalid redirect URL"@),
                                Some(q) => redirect_outcome(self, q, status, r),
                            },
                        }
                    }
                },
                _ => false,
            },
    {
        let ghost old_self = self;
        match event {
            ClientHttpEvent::Resolved(None) => {
                let host = match &self.next {
                    Some(n) => n.host(),
                    None => self.url.host(),
                };
                let mut m = owned("failed to resolve connector HTTP host ");
                match host {
                    Some(h) => push_str(&mut m, h),
                    None => {},
                }
                (self, ClientHttpAction::Fail(m))
            },
            ClientHttpEvent::Resolved(Some(addrs)) => {
                match Self::resolution_check(self.policy, &addrs) {
                    Err(m) => (self, ClientHttpAction::Fail(m)),
                    Ok(()) => {
                        let ClientHttpState { policy, url, method, body, headers, redirects, phase, next, next_status, pinned } = self;
                        match next {
                            None => {
                                let st = ClientHttpState { policy, url, method, body, headers, redirects, phase, next: None, next_status, pinned };
                                st.send_current(addrs)
                            },
                            Some(target) => {
                                let st = ClientHttpState { policy, url, method, body, headers, redirects, phase, next: None, next_status, pinned };
                                proof {
                                    assert(st == ClientHttpState { next: None, ..old_self });
                                }
                                st.follow(target, next_status)
                            },
                        }
                    },
                }
            },
            ClientHttpEvent::Responded { status, location } => {
                if !(300 <= status && status <= 399) {
                    return (self, ClientHttpAction::Deliver);
                }
                match location {
                    LocationHeader::Missing => (self, ClientHttpAction::Fail(owned("redirect response is missing Location header"))),
                    LocationHeader::Unreadable => (self, ClientHttpAction::Fail(owned("invalid redirect Location header"))),
                    LocationHeader::Value(l) => match self.url.join(l.as_str()) {
                        Some(target) => self.check_redirect(target, status),
                        None => (self, ClientHttpAction::Fail(owned("invalid redirect URL"))),
                    },
                }
            },
        }
    }
}

fn opt_str_eq(a: Option<&str>, b: Option<&str>) -> (r: bool)
    ensures
        r == (match (a, b) {
            (None, None) => true,
            (Some(x), Some(y)) => x@ == y@,
            _ => false,
        }),
{
    match (a, b) {
        (None, None) => true,
        (Some(x), Some(y)) => str_eq(x, y),
        _ => false,
    }
}

/// How a followed redirect treats the request: after a 301, 302 or 303 a
/// request whose method is neither `GET` nor `HEAD` is repeated as `GET`
/// without a body; after any other redirect status (307, 308, ...), and for
/// `GET` or `HEAD`, method and body are kept.
pub proof fn redirect_method_rule(s: ClientHttpState, q: UrlParts, status: u16, r: (ClientHttpState, ClientHttpAction))
    requires
        follow_outcome(s, q, status, r),
        s.redirects + 1 < MAX_CLIENT_HTTP_REQUESTS,
    ensures
        (status == 301 || status == 302 || status == 303) && s.method@ != "GET"@ && s.method@
            != "HEAD"@ ==> r.0.method@ == "GET"@ && r.0.body is None,
        !(301 <= status && status <= 303) ==> r.0.method == s.method && r.0.body == s.body,
        s.method@ == "GET"@ || s.method@ == "HEAD"@ ==> r.0.method == s.method && r.0.body == s.body,
{
}

/// Every request an exchange sends goes to a URL that the remote-URL
/// policy allows, pinned to the public addresses its host resolved to when
/// it is not an IP address: a well-formed state awaiting a response (which
/// is where every `Send` leads, see `ClientHttpState::step`) satisfies
/// this.
pub proof fn requests_only_to_public_targets(s: ClientHttpState)
    requires
        s.wf(),
        s.phase is AwaitResponse,
    ensures
        remote_url_allowed(s.url.parts()),
        s.pinned@.len() > 0 ==> resolution_is_public(s.pinned@),
        s.pinned@.len() == 0 ==> (s.url.parts().4 matches Some(ip) && !ip_is_private(ip)),
{
}

/// The request budget holds: a well-formed exchange, which is what
/// `begin` starts and every step that does not fail leads to, has sent at
/// most `MAX_CLIENT_HTTP_REQUESTS` requests. Each `Send` counts one more
/// request and only follows a passed check of the URL it goes to (see
/// `ClientHttpState::step`), so no more requests than that are ever sent.
pub proof fn requests_within_budget(s: ClientHttpState)
    requires
        s.wf(),
    ensures
        s.requests_sent() <= MAX_CLIENT_HTTP_REQUESTS,
{
}

/// The answer to a client HTTP request: the status, the URL that answered,
/// the received header lines grouped by name, and the body in Base64.
pub fn finish_response(status: u16, final_url: &str, lines: &Vec<(String, String)>, body: &[u8]) -> (r: ClientHttpResponse)
    requires
        body@.len() <= usize::MAX / 4,
    ensures
        r.status_code == status,
        r.final_url@ == final_url@,
        groups_lines(table_view(r.headers@), pairs_view(lines@)),
        r.body@ == spec_base64_encode(body@),
        spec_base64_decode(r.body@) == Some(body@),
{
    ClientHttpResponse {
        status_code: status,
        final_url: owned(final_url),
        headers: group_headers(lines),
        body: base64_encode(body),
    }
}

} // verus!

//! The request interception pipeline's decisions: classifying an accepted
//! request, extracting the tunnel host from an authority, building the
//! upstream URI, stripping the `Host` header before forwarding, and turning
//! an upstream outcome into the client's response plus a log row.
//!
//! The network work around these decisions — reading the request, the
//! protocol upgrade, the TLS handshake, the upstream call — stays with the
//! supervisor; every byte it hands over is decided on here.

use vstd::prelude::*;
use vstd::string::StringExecFns;
use vstd::string::StrSliceExecFns;
use crate::logs::LogStore;
use crate::logs::RequestRecord;
use crate::logs::ResponseRecord;
use crate::logs::header_rows_model;
use crate::sqlite;
use crate::PacketId;
use crate::ProxyId;

verus! {

/// The head of an accepted request, as plain values.
pub struct RequestHead {
    pub method: String,
    pub scheme: Option<String>,
    pub authority: Option<String>,
    pub path: String,
    pub query: Option<String>,
    pub headers: Vec<(String, String)>,
}

/// What to do with an accepted request.
#[derive(Debug)]
pub enum RouteDecision {
    /// Reply `400 Bad Request` and close: the URI carries an `https` scheme
    /// or no authority.
    RejectBadRequest,
    /// Accept the tunnel: reply `200 OK` via the protocol upgrade and run
    /// the TLS interception path for this host.
    ConnectTunnel { host: String },
    /// Forward as plain HTTP.
    ForwardPlain,
}

/// The authority with any userinfo (up to the first `@`) removed.
pub open spec fn after_userinfo(a: Seq<char>) -> Seq<char>
    decreases a.len(),
{
    if !a.contains('@') {
        a
    } else if a.first() == '@' {
        a.drop_first()
    } else {
        after_userinfo(a.drop_first())
    }
}

/// The prefix up to the first `:` (the port separator).
pub open spec fn before_port(a: Seq<char>) -> Seq<char>
    decreases a.len(),
{
    if a.len() == 0 || a.first() == ':' {
        Seq::empty()
    } else {
        seq![a.first()] + before_port(a.drop_first())
    }
}

/// The host of an authority: what stands between the userinfo and the
/// port. IP-literal authorities are out of scope (DNS names only).
pub open spec fn host_of_authority(a: Seq<char>) -> Seq<char> {
    before_port(after_userinfo(a))
}

/// An authority without `@` keeps everything before the port separator.
proof fn lemma_after_userinfo_no_at(a: Seq<char>)
    requires
        forall|i: int| 0 <= i < a.len() ==> a[i] != '@',
    ensures
        after_userinfo(a) == a,
    decreases a.len(),
{
    assert(!a.contains('@'));
}

/// The suffix after the first `@` is what `after_userinfo` keeps.
proof fn lemma_after_userinfo_at(a: Seq<char>, i: int)
    requires
        0 <= i < a.len(),
        a[i] == '@',
        forall|k: int| 0 <= k < i ==> a[k] != '@',
    ensures
        after_userinfo(a) == a.subrange(i + 1, a.len() as int),
    decreases a.len(),
{
    assert(a.contains('@'));
    if i == 0 {
        assert(a.drop_first() =~= a.subrange(1, a.len() as int));
    } else {
        let d = a.drop_first();
        assert(d[i - 1] == '@');
        assert(forall|k: int| 0 <= k < i - 1 ==> #[trigger] d[k] == a[k + 1]);
        lemma_after_userinfo_at(d, i - 1);
        assert(d.subrange(i, d.len() as int) =~= a.subrange(i + 1, a.len() as int));
    }
}

/// The prefix before the first `:` is what `before_port` keeps.
proof fn lemma_before_port_at(a: Seq<char>, k: int)
    requires
        0 <= k <= a.len(),
        k == a.len() || a[k] == ':',
        forall|j: int| 0 <= j < k ==> a[j] != ':',
    ensures
        before_port(a) == a.take(k),
    decreases a.len(),
{
    if a.len() == 0 {
        assert(before_port(a) =~= a.take(k));
    } else if a.first() == ':' {
        assert(k == 0);
        assert(before_port(a) =~= a.take(0));
    } else {
        let d = a.drop_first();
        assert(k >= 1);
        assert(forall|j: int| 0 <= j < k - 1 ==> #[trigger] d[j] == a[j + 1]);
        lemma_before_port_at(d, k - 1);
        assert(seq![a.first()] + d.take(k - 1) =~= a.take(k));
    }
}

/// Extracts the host from an authority such as `user@secure.test:443`.
pub fn host_of(authority: &str) -> (r: String)
    ensures
        r@ == host_of_authority(authority@),
{
    let n = authority.unicode_len();
    let mut at_end: usize = n;
    let mut i: usize = 0;
    while i < n
        invariant
            n == authority@.len(),
            i <= n,
            at_end == n || at_end < i,
            at_end == n ==> forall|k: int| 0 <= k < i ==> authority@[k] != '@',
            at_end < n ==> authority@[at_end as int] == '@' && (forall|k: int|
                0 <= k < at_end ==> authority@[k] != '@'),
        decreases n - i,
    {
        if at_end == n && authority.get_char(i) == '@' {
            at_end = i;
        }
        i = i + 1;
    }
    let start: usize = if at_end == n {
        proof {
            lemma_after_userinfo_no_at(authority@);
        }
        0
    } else {
        proof {
            lemma_after_userinfo_at(authority@, at_end as int);
        }
        at_end + 1
    };
    let ghost h = after_userinfo(authority@);
    proof {
        assert(h =~= authority@.subrange(start as int, n as int));
    }
    let mut out = String::new();
    let mut j: usize = start;
    while j < n
        invariant
            n == authority@.len(),
            start <= j <= n,
            h == after_userinfo(authority@),
            h == authority@.subrange(start as int, n as int),
            out@ == h.take(j - start),
            forall|k: int| start <= k < j ==> authority@[k] != ':',
        decreases n - j,
    {
        let c = authority.get_char(j);
        if c == ':' {
            proof {
                assert(h[j - start] == ':');
                assert(forall|k: int| 0 <= k < j - start ==> #[trigger] h[k] != ':');
                lemma_before_port_at(h, j - start);
            }
            return out;
        }
        crate::render::push_char(&mut out, c);
        proof {
            assert(h.take(j + 1 - start) =~= h.take(j - start).push(c));
        }
        j = j + 1;
    }
    proof {
        assert(h.take(n - start) =~= h);
        lemma_before_port_at(h, h.len() as int);
        assert(h.take(h.len() as int) =~= h);
    }
    out
}

/// Classifies an accepted request, as the interception pipeline does:
/// an `https` scheme or a missing authority is refused with
/// `400 Bad Request`; `CONNECT` opens a TLS tunnel to the authority's host;
/// anything else is forwarded as plain HTTP.
pub fn classify(head: &RequestHead) -> (r: RouteDecision)
    ensures
        (head.scheme matches Some(s) && s@ == "https"@) ==> r is RejectBadRequest,
        !(head.scheme matches Some(s) && s@ == "https"@) ==> match head.authority {
            None => r is RejectBadRequest,
            Some(a) => {
                if head.method@ == "CONNECT"@ {
                    (r matches RouteDecision::ConnectTunnel { host } && host@
                        == host_of_authority(a@))
                } else {
                    r is ForwardPlain
                }
            },
        },
{
    let https = String::from_str("https");
    match &head.scheme {
        Some(s) => {
            if *s == https {
                return RouteDecision::RejectBadRequest;
            }
        },
        None => {},
    }
    let authority = match &head.authority {
        None => {
            return RouteDecision::RejectBadRequest;
        },
        Some(a) => a,
    };
    let connect = String::from_str("CONNECT");
    if head.method == connect {
        let host = host_of(authority.as_str());
        RouteDecision::ConnectTunnel { host }
    } else {
        RouteDecision::ForwardPlain
    }
}

/// The absolute upstream URI: scheme, authority, path, then `?query` when
/// one is present.
pub open spec fn upstream_uri_view(
    scheme: Seq<char>,
    authority: Seq<char>,
    path: Seq<char>,
    query: Option<Seq<char>>,
) -> Seq<char> {
    scheme + "://"@ + authority + path + (match query {
        Some(q) => "?"@ + q,
        None => Seq::<char>::empty(),
    })
}

/// Builds the absolute URI the upstream client is given.
pub fn upstream_uri(scheme: &str, authority: &str, path: &str, query: &Option<String>) -> (r:
    String)
    ensures
        r@ == upstream_uri_view(scheme@, authority@, path@, match query {
            Some(q) => Some(q@),
            None => None,
        }),
{
    let mut s = String::new();
    s.append(scheme);
    s.append("://");
    s.append(authority);
    s.append(path);
    match query {
        Some(q) => {
            s.append("?");
            s.append(q.as_str());
        },
        None => {},
    }
    s
}

/// The ASCII-lowercase form of a character.
pub open spec fn lower_char(c: char) -> char {
    if 'A' <= c && c <= 'Z' {
        ((c as u8) + 32) as char
    } else {
        c
    }
}

/// The ASCII-lowercase form of a header key.
pub open spec fn lower_seq(s: Seq<char>) -> Seq<char> {
    s.map_values(|c: char| lower_char(c))
}

/// Whether a header key is `Host`, compared ASCII-case-insensitively.
pub open spec fn is_host_key(k: Seq<char>) -> bool {
    lower_seq(k) == "host"@
}

/// The headers with every `Host` header removed, order kept.
pub open spec fn without_host(hdrs: Seq<(Seq<char>, Seq<char>)>) -> Seq<(Seq<char>, Seq<char>)>
    decreases hdrs.len(),
{
    if hdrs.len() == 0 {
        Seq::empty()
    } else if is_host_key(hdrs.first().0) {
        without_host(hdrs.drop_first())
    } else {
        seq![hdrs.first()] + without_host(hdrs.drop_first())
    }
}

/// Whether this key reads `Host`, ASCII-case-insensitively.
fn key_is_host(k: &str) -> (b: bool)
    ensures
        b == is_host_key(k@),
{
    proof {
        reveal_strlit("host");
        assert("host"@ =~= seq!['h', 'o', 's', 't']);
    }
    let n = k.unicode_len();
    if n != 4 {
        proof {
            assert(lower_seq(k@).len() == k@.len());
        }
        return false;
    }
    let mut i: usize = 0;
    let expected = ['h', 'o', 's', 't'];
    while i < 4
        invariant
            n == k@.len(),
            n == 4,
            i <= 4,
            expected@ =~= seq!['h', 'o', 's', 't'],
            forall|j: int|
                0 <= j < i ==> lower_char(k@[j]) == seq!['h', 'o', 's', 't'][j],
            "host"@ =~= seq!['h', 'o', 's', 't'],
        decreases 4 - i,
    {
        let c = k.get_char(i);
        let lowered: char = if c >= 'A' && c <= 'Z' {
            ((c as u8) + 32) as char
        } else {
            c
        };
        if lowered != expected[i] {
            proof {
                assert(lower_seq(k@)[i as int] == lower_char(k@[i as int]));
            }
            return false;
        }
        i = i + 1;
    }
    proof {
        assert(lower_seq(k@) =~= seq!['h', 'o', 's', 't']);
    }
    true
}

/// Removes every `Host` header before the request goes upstream: the
/// upstream client reconstructs its own, and a stale one breaks
/// HTTP/2-to-origin.
pub fn strip_host_headers(headers: &Vec<(String, String)>) -> (r: Vec<(String, String)>)
    ensures
        sqlite::str_pairs_view(r@) == without_host(sqlite::str_pairs_view(headers@)),
{
    let ghost hv = sqlite::str_pairs_view(headers@);
    let mut out: Vec<(String, String)> = Vec::new();
    let mut i: usize = 0;
    while i < headers.len()
        invariant
            i <= headers.len(),
            hv == sqlite::str_pairs_view(headers@),
            hv.len() == headers@.len(),
            sqlite::str_pairs_view(out@) == without_host(hv.take(i as int)),
        decreases headers.len() - i,
    {
        let keep = !key_is_host(headers[i].0.as_str());
        if keep {
            let key = String::from_str(headers[i].0.as_str());
            let value = String::from_str(headers[i].1.as_str());
            out.push((key, value));
        }
        proof {
            lemma_without_host_take_step(hv, i as int);
            if keep {
                assert(sqlite::str_pairs_view(out@) =~= without_host(hv.take(i as int)).push(
                    hv[i as int],
                ));
                assert(without_host(hv.take(i + 1)) =~= without_host(hv.take(i as int)).push(
                    hv[i as int],
                ));
            }
        }
        i = i + 1;
    }
    proof {
        assert(hv.take(hv.len() as int) =~= hv);
    }
    out
}

/// One step of `without_host` over a growing prefix.
proof fn lemma_without_host_take_step(hv: Seq<(Seq<char>, Seq<char>)>, i: int)
    requires
        0 <= i < hv.len(),
    ensures
        is_host_key(hv[i].0) ==> without_host(hv.take(i + 1)) == without_host(hv.take(i)),
        !is_host_key(hv[i].0) ==> without_host(hv.take(i + 1)) == without_host(hv.take(i)).push(
            hv[i],
        ),
{
    lemma_without_host_append_one(hv.take(i), hv[i]);
    assert(hv.take(i + 1) =~= hv.take(i).push(hv[i]));
}

/// `without_host` over a sequence extended by one header.
proof fn lemma_without_host_append_one(s: Seq<(Seq<char>, Seq<char>)>, h: (Seq<char>, Seq<char>))
    ensures
        is_host_key(h.0) ==> without_host(s.push(h)) == without_host(s),
        !is_host_key(h.0) ==> without_host(s.push(h)) == without_host(s).push(h),
    decreases s.len(),
{
    if s.len() == 0 {
        assert(s.push(h).len() == 1);
        assert(s.push(h).first() == h);
        let e = Seq::<(Seq<char>, Seq<char>)>::empty();
        assert(s.push(h).drop_first() =~= e);
        assert(without_host(e) =~= e);
        assert(without_host(s) =~= e);
        if is_host_key(h.0) {
            assert(without_host(s.push(h)) =~= without_host(s));
        } else {
            assert(without_host(s.push(h)) =~= seq![h] + e);
            assert(seq![h] + e =~= without_host(s).push(h));
        }
    } else {
        assert(s.push(h).first() == s.first());
        assert(s.push(h).drop_first() =~= s.drop_first().push(h));
        lemma_without_host_append_one(s.drop_first(), h);
        if !is_host_key(s.first().0) && !is_host_key(h.0) {
            assert(seq![s.first()] + without_host(s.drop_first()).push(h) =~= (seq![s.first()]
                + without_host(s.drop_first())).push(h));
        }
    }
}

/// Law: no forwarded header is a `Host` header — the origin sees `Host`
/// only if the upstream client sets its own.
pub proof fn lemma_no_host_forwarded(hdrs: Seq<(Seq<char>, Seq<char>)>, i: int)
    requires
        0 <= i < without_host(hdrs).len(),
    ensures
        !is_host_key(without_host(hdrs)[i].0),
    decreases hdrs.len(),
{
    if hdrs.len() > 0 {
        if is_host_key(hdrs.first().0) {
            lemma_no_host_forwarded(hdrs.drop_first(), i);
        } else {
            if i > 0 {
                lemma_no_host_forwarded(hdrs.drop_first(), i - 1);
            }
        }
    }
}

/// The empty `200 OK` a `CONNECT` is answered with while the tunnel opens.
pub fn connect_established_response() -> (r: ResponseRecord)
    ensures
        r.status == 200,
        r.headers@.len() == 0,
        r.body@.len() == 0,
{
    ResponseRecord { status: 200, headers: Vec::new(), body: Vec::new() }
}

/// The `400 Bad Request` reply for a refused request.
pub fn bad_request_response() -> (r: ResponseRecord)
    ensures
        r.status == 400,
        r.headers@.len() == 0,
        r.body@.len() == 0,
{
    ResponseRecord { status: 400, headers: Vec::new(), body: Vec::new() }
}

/// Turns the upstream outcome into the client's response, logging the pair
/// first: the response sent back is the origin's verbatim, or an empty
/// `503 Service Unavailable` when the upstream call failed, in which case
/// the pair is logged without a response. Logging is best-effort: its
/// failure never fails the client's response.
pub fn forward_outcome(
    store: &mut LogStore,
    proxy_id: ProxyId,
    request: &RequestRecord,
    upstream: Option<ResponseRecord>,
) -> (r: (ResponseRecord, Option<PacketId>))
    ensures
        final(store).selected() == old(store).selected(),
        !old(store).selected() ==> r.1 is None,
        upstream matches Some(resp) ==> r.0 == resp,
        upstream is None ==> r.0.status == 503 && r.0.headers@.len() == 0 && r.0.body@.len() == 0,
        r.1 matches Some(id) ==> {
            &&& forall|i: int|
                0 <= i < old(store).requests().len()
                    ==> (#[trigger] old(store).requests()[i]).0 < id as i64
            &&& final(store).requests() == old(store).requests().push(
                request.row_model(id as i64, proxy_id as i64),
            )
            &&& final(store).request_headers() == old(store).request_headers()
                + header_rows_model(id as i64, request.headers_view())
            &&& match upstream {
                Some(resp) => {
                    &&& final(store).responses() == old(store).responses().push(
                        resp.row_model(id as i64),
                    )
                    &&& final(store).response_headers() == old(store).response_headers()
                        + header_rows_model(id as i64, resp.headers_view())
                },
                None => {
                    &&& final(store).responses() == old(store).responses()
                    &&& final(store).response_headers() == old(store).response_headers()
                },
            }
        },
        r.1 is None ==> {
            &&& final(store).requests() == old(store).requests()
            &&& final(store).request_headers() == old(store).request_headers()
            &&& final(store).responses() == old(store).responses()
            &&& final(store).response_headers() == old(store).response_headers()
        },
{
    let logged = store.insert_http_row(proxy_id, request, &upstream);
    let packet_id = match logged {
        Ok(id) => Some(id),
        Err(e) => None,
    };
    let response = match upstream {
        Some(resp) => resp,
        None => ResponseRecord { status: 503, headers: Vec::new(), body: Vec::new() },
    };
    (response, packet_id)
}

} // verus!

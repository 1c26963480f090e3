//! Translation of a generic HTTP request into the wire shape the outbound
//! capability expects: the method is resolved against a closed table, the
//! URI's scheme and authority are replaced by the resolved server endpoint
//! while path and query are preserved, headers are flattened to text pairs
//! (values that are not valid UTF-8 are silently dropped), and the query
//! string is split into ordered key/value pairs.

use vstd::prelude::*;

use crate::errors::KrewWasmSDKError;
use crate::kube_config::ConnectionConfig;
use crate::outbound::{Method, Request};
use vstd::utf8::{decode_utf8, valid_utf8};

verus! {

/// A generic HTTP request as a caller builds it: the authority in `uri` is a
/// placeholder, to be replaced by the resolved server endpoint.
#[derive(Debug)]
pub struct HttpRequest {
    /// The HTTP method name, such as `GET`.
    pub method: String,
    /// The request URI; its path and query are kept, everything else is
    /// replaced.
    pub uri: String,
    /// The headers, in order; a value may be arbitrary bytes.
    pub headers: Vec<(String, Vec<u8>)>,
    /// The body bytes.
    pub body: Vec<u8>,
}

/// The wire method for a method name: a closed, one-to-one table over the
/// seven supported methods; every other name has none.
pub open spec fn spec_method(name: Seq<char>) -> Option<Method> {
    if name == "GET"@ {
        Some(Method::Get)
    } else if name == "POST"@ {
        Some(Method::Post)
    } else if name == "PUT"@ {
        Some(Method::Put)
    } else if name == "DELETE"@ {
        Some(Method::Delete)
    } else if name == "PATCH"@ {
        Some(Method::Patch)
    } else if name == "HEAD"@ {
        Some(Method::Head)
    } else if name == "OPTIONS"@ {
        Some(Method::Options)
    } else {
        None
    }
}

/// Resolves a method name against the closed table: exactly the seven
/// supported methods map, and any other name fails.
pub fn method_from_name(name: &String) -> (r: Result<Method, KrewWasmSDKError>)
    ensures
        match spec_method(name@) {
            Some(m) => r == Ok::<Method, KrewWasmSDKError>(m),
            None => r == Err::<Method, KrewWasmSDKError>(
                KrewWasmSDKError::KubeWasiHttpMethodConversionError,
            ),
        },
{
    if *name == String::from_str("GET") {
        Ok(Method::Get)
    } else if *name == String::from_str("POST") {
        Ok(Method::Post)
    } else if *name == String::from_str("PUT") {
        Ok(Method::Put)
    } else if *name == String::from_str("DELETE") {
        Ok(Method::Delete)
    } else if *name == String::from_str("PATCH") {
        Ok(Method::Patch)
    } else if *name == String::from_str("HEAD") {
        Ok(Method::Head)
    } else if *name == String::from_str("OPTIONS") {
        Ok(Method::Options)
    } else {
        Err(KrewWasmSDKError::KubeWasiHttpMethodConversionError)
    }
}

/// The method table is one-to-one: distinct supported names never map to
/// the same wire method.
pub proof fn lemma_method_table_injective(n1: Seq<char>, n2: Seq<char>)
    requires
        n1 != n2,
        spec_method(n1) is Some,
        spec_method(n2) is Some,
    ensures
        spec_method(n1) != spec_method(n2),
{
}

/// The position of the first occurrence of `c` in `s`, if any.
pub open spec fn first_at(s: Seq<char>, c: char) -> Option<int>
    decreases s.len(),
{
    if s.len() == 0 {
        None
    } else if s[0] == c {
        Some(0int)
    } else {
        match first_at(s.drop_first(), c) {
            Some(i) => Some(i + 1),
            None => None,
        }
    }
}

/// `first_at` finds an occurrence exactly when one exists, and the earliest.
pub proof fn lemma_first_at(s: Seq<char>, c: char)
    ensures
        match first_at(s, c) {
            Some(i) => 0 <= i < s.len() && s[i] == c && (forall|j: int| 0 <= j < i ==> s[j] != c),
            None => forall|j: int| 0 <= j < s.len() ==> s[j] != c,
        },
    decreases s.len(),
{
    if s.len() > 0 && s[0] != c {
        let t = s.drop_first();
        lemma_first_at(t, c);
        match first_at(t, c) {
            Some(i) => {
                assert(s[i + 1] == t[i]);
                assert forall|j: int| 0 <= j < i + 1 implies s[j] != c by {
                    if j > 0 {
                        assert(t[j - 1] == s[j]);
                        assert(t[j - 1] != c);
                    }
                }
            },
            None => {
                assert forall|j: int| 0 <= j < s.len() implies s[j] != c by {
                    if j > 0 {
                        assert(t[j - 1] == s[j]);
                        assert(t[j - 1] != c);
                    }
                }
            },
        }
    }
}

/// The key/value pair a query piece yields: split at the first `=`, the key
/// before it, the value (which may itself contain `=`) after it; a piece
/// with no `=` yields nothing.
pub open spec fn spec_param(piece: Seq<char>) -> Option<(Seq<char>, Seq<char>)> {
    match first_at(piece, '=') {
        Some(i) => Some((piece.take(i), piece.skip(i + 1))),
        None => None,
    }
}

/// The ordered key/value pairs of a query string: pieces are split on `&`,
/// and each piece contributes as [`spec_param`] says. An empty query string
/// is one piece with no `=`, so it yields no pairs.
pub open spec fn spec_split_query(q: Seq<char>) -> Seq<(Seq<char>, Seq<char>)>
    decreases q.len(),
    via spec_split_query_decreases
{
    match first_at(q, '&') {
        Some(i) => match spec_param(q.take(i)) {
            Some(kv) => seq![kv] + spec_split_query(q.skip(i + 1)),
            None => spec_split_query(q.skip(i + 1)),
        },
        None => match spec_param(q) {
            Some(kv) => seq![kv],
            None => Seq::empty(),
        },
    }
}

#[via_fn]
proof fn spec_split_query_decreases(q: Seq<char>) {
    lemma_first_at(q, '&');
}

/// The position of the first occurrence of `c` in `s`, if any.
fn find_char(s: &str, c: char) -> (r: Option<usize>)
    ensures
        match first_at(s@, c) {
            Some(i) => r matches Some(ri) && ri as int == i,
            None => r is None,
        },
{
    let n = s.unicode_len();
    let mut i: usize = 0;
    while i < n
        invariant
            i <= n,
            n == s@.len(),
            forall|j: int| 0 <= j < i ==> s@[j] != c,
        decreases n - i,
    {
        if s.get_char(i) == c {
            proof {
                lemma_first_at(s@, c);
            }
            return Some(i);
        }
        i += 1;
    }
    proof {
        lemma_first_at(s@, c);
    }
    None
}

/// The key/value pair a query piece yields; see [`spec_param`].
fn param_of(piece: &str) -> (r: Option<(String, String)>)
    ensures
        match spec_param(piece@) {
            Some(kv) => r matches Some(p) && p.0@ == kv.0 && p.1@ == kv.1,
            None => r is None,
        },
{
    let n = piece.unicode_len();
    match find_char(piece, '=') {
        Some(i) => {
            proof {
                lemma_first_at(piece@, '=');
            }
            let k = piece.substring_char(0, i).to_owned();
            let v = piece.substring_char(i + 1, n).to_owned();
            Some((k, v))
        },
        None => None,
    }
}

fn split_query_into(q: &str, out: &mut Vec<(String, String)>)
    ensures
        final(out).deep_view() == old(out).deep_view() + spec_split_query(q@),
    decreases q@.len(),
{
    let n = q.unicode_len();
    match find_char(q, '&') {
        Some(i) => {
            proof {
                lemma_first_at(q@, '&');
            }
            let piece = q.substring_char(0, i);
            let rest = q.substring_char(i + 1, n);
            match param_of(piece) {
                Some(kv) => {
                    out.push(kv);
                },
                None => {},
            }
            split_query_into(rest, out);
            proof {
                assert(final(out).deep_view() =~= old(out).deep_view() + spec_split_query(q@));
            }
        },
        None => {
            match param_of(q) {
                Some(kv) => {
                    out.push(kv);
                    proof {
                        assert(final(out).deep_view() =~= old(out).deep_view() + spec_split_query(
                            q@,
                        ));
                    }
                },
                None => {
                    proof {
                        assert(final(out).deep_view() =~= old(out).deep_view() + spec_split_query(
                            q@,
                        ));
                    }
                },
            }
        },
    }
}

/// Splits a query string into its ordered key/value pairs; see
/// [`spec_split_query`].
pub fn split_query(q: &str) -> (r: Vec<(String, String)>)
    ensures
        r.deep_view() == spec_split_query(q@),
{
    let mut out: Vec<(String, String)> = Vec::new();
    split_query_into(q, &mut out);
    proof {
        assert(out.deep_view() =~= spec_split_query(q@));
    }
    out
}

/// The flattened form of a header list: each value that is valid UTF-8
/// becomes text beside its key, in the original order; a header whose value
/// is not valid UTF-8 disappears entirely.
pub open spec fn spec_flatten_headers(hs: Seq<(String, Vec<u8>)>) -> Seq<(Seq<char>, Seq<char>)>
    decreases hs.len(),
{
    if hs.len() == 0 {
        Seq::empty()
    } else {
        spec_flatten_headers(hs.drop_last()) + (if valid_utf8(hs.last().1@) {
            seq![(hs.last().0@, decode_utf8(hs.last().1@))]
        } else {
            Seq::empty()
        })
    }
}

/// Relies on `String::from_utf8`: yields the decoded string exactly when
/// the bytes are valid UTF-8, and fails otherwise.
#[verifier::external_body]
fn utf8_decode(bytes: &Vec<u8>) -> (r: Option<String>)
    ensures
        match r {
            Some(s) => valid_utf8(bytes@) && s@ == decode_utf8(bytes@),
            None => !valid_utf8(bytes@),
        },
{
    String::from_utf8(bytes.clone()).ok()
}

/// Flattens headers to text pairs, dropping exactly the headers whose
/// values are not valid UTF-8 and preserving the order and content of all
/// others; see [`spec_flatten_headers`].
pub fn flatten_headers(headers: &Vec<(String, Vec<u8>)>) -> (r: Vec<(String, String)>)
    ensures
        r.deep_view() == spec_flatten_headers(headers@),
{
    let mut r: Vec<(String, String)> = Vec::new();
    let n = headers.len();
    let mut i: usize = 0;
    proof {
        assert(headers@.take(0) =~= Seq::<(String, Vec<u8>)>::empty());
        assert(r.deep_view() =~= spec_flatten_headers(headers@.take(0)));
    }
    while i < n
        invariant
            i <= n,
            n == headers@.len(),
            r.deep_view() == spec_flatten_headers(headers@.take(i as int)),
        decreases n - i,
    {
        let h = &headers[i];
        match utf8_decode(&h.1) {
            Some(v) => {
                let k = h.0.clone();
                r.push((k, v));
            },
            None => {},
        }
        proof {
            assert(headers@.take(i as int + 1).drop_last() =~= headers@.take(i as int));
            assert(headers@.take(i as int + 1).last() == headers@[i as int]);
            assert(r.deep_view() =~= spec_flatten_headers(headers@.take(i as int + 1)));
        }
        i += 1;
    }
    proof {
        assert(headers@.take(n as int) =~= headers@);
    }
    r
}

/// What `http::uri::Uri` parsing yields on the given characters, or nothing
/// when they do not form a valid URI: the scheme, the authority, the path
/// and query taken together, and the query alone, each when present.
pub uninterp spec fn uri_parts_of(s: Seq<char>) -> Option<
    (Option<Seq<char>>, Option<Seq<char>>, Option<Seq<char>>, Option<Seq<char>>),
>;

/// Whether an optional owned string matches an optional character sequence.
pub open spec fn opt_str_matches(e: Option<String>, s: Option<Seq<char>>) -> bool {
    match (e, s) {
        (Some(a), Some(b)) => a@ == b,
        (None, None) => true,
        _ => false,
    }
}

/// Relies on `http::uri::Uri::from_str` and the accessors `scheme_str`,
/// `authority`, `path_and_query` and `query`: parsing and the components
/// are a function of the input characters alone.
#[verifier::external_body]
fn parse_uri(s: &str) -> (r: Option<
    (Option<String>, Option<String>, Option<String>, Option<String>),
>)
    ensures
        match r {
            Some(parts) => uri_parts_of(s@) matches Some(p) && opt_str_matches(parts.0, p.0)
                && opt_str_matches(parts.1, p.1) && opt_str_matches(parts.2, p.2)
                && opt_str_matches(parts.3, p.3),
            None => uri_parts_of(s@) is None,
        },
{
    match s.parse::<http::uri::Uri>() {
        Ok(uri) => {
            let scheme = uri.scheme_str().map(|x| x.to_string());
            let authority = uri.authority().map(|a| a.as_str().to_string());
            let path_and_query = uri.path_and_query().map(|p| p.as_str().to_string());
            let query = uri.query().map(|q| q.to_string());
            Some((scheme, authority, path_and_query, query))
        },
        Err(_) => None,
    }
}

/// The scheme to use for the translated URI: the resolved server's own
/// scheme, or `https` when it has none.
pub open spec fn scheme_or_https(sch: Option<Seq<char>>) -> Seq<char> {
    match sch {
        Some(s) => s,
        None => "https"@,
    }
}

/// The translated URI: the resolved server's scheme (or `https`) and
/// authority, then the path and query of the original request, verbatim.
/// A server URL that does not parse, or parses without an authority, and a
/// request URI that does not parse, or carries no path and query, each fail
/// with their own error.
pub open spec fn spec_translated_uri(server_url: Seq<char>, req_uri: Seq<char>) -> Result<
    Seq<char>,
    KrewWasmSDKError,
> {
    match uri_parts_of(server_url) {
        None => Err(KrewWasmSDKError::HttpInvalidUriError),
        Some(sp) => match sp.1 {
            None => Err(KrewWasmSDKError::ServerUrlNoAuthorityError),
            Some(auth) => match uri_parts_of(req_uri) {
                None => Err(KrewWasmSDKError::HttpInvalidUriError),
                Some(rp) => match rp.2 {
                    None => Err(KrewWasmSDKError::HttpInvalidUriError),
                    Some(pq) => Ok(scheme_or_https(sp.0) + "://"@ + auth + pq),
                },
            },
        },
    }
}

/// The translated URI never depends on the original request's scheme or
/// authority: two request URIs with the same path and query translate
/// identically against the same server URL.
pub proof fn lemma_authority_substituted(server_url: Seq<char>, r1: Seq<char>, r2: Seq<char>)
    requires
        uri_parts_of(r1) matches Some(p1) && uri_parts_of(r2) matches Some(p2) && p1.2 == p2.2,
    ensures
        spec_translated_uri(server_url, r1) == spec_translated_uri(server_url, r2),
{
}

/// The ordered query parameters of a request URI: those of its query
/// string, or none when it has no query string.
pub open spec fn spec_params(req_uri: Seq<char>) -> Seq<(Seq<char>, Seq<char>)> {
    match uri_parts_of(req_uri) {
        Some(rp) => match rp.3 {
            Some(q) => spec_split_query(q),
            None => Seq::empty(),
        },
        None => Seq::empty(),
    }
}

/// Translates a generic HTTP request into the wire shape, addressed to the
/// resolved server: the method resolves against the closed table, the URI is
/// [`spec_translated_uri`], the headers flatten as [`spec_flatten_headers`],
/// the query splits as [`spec_split_query`], and the body passes through as
/// present bytes (an empty body is still present). Method resolution fails
/// before any URI work; no partial request is produced.
pub fn make_request(req: &HttpRequest, connection_config: &ConnectionConfig) -> (r: Result<
    Request,
    KrewWasmSDKError,
>)
    ensures
        match r {
            Ok(w) => {
                &&& spec_method(req.method@) matches Some(m) && w.method == m
                &&& spec_translated_uri(connection_config.server.url@, req.uri@) matches Ok(u)
                    && w.uri@ == u
                &&& w.headers.deep_view() == spec_flatten_headers(req.headers@)
                &&& w.params.deep_view() == spec_params(req.uri@)
                &&& w.body matches Some(b) && b@ == req.body@
            },
            Err(e) => match spec_method(req.method@) {
                None => e == KrewWasmSDKError::KubeWasiHttpMethodConversionError,
                Some(_) => spec_translated_uri(connection_config.server.url@, req.uri@)
                    matches Err(e2) && e == e2,
            },
        },
{
    let method = match method_from_name(&req.method) {
        Ok(m) => m,
        Err(e) => {
            return Err(e);
        },
    };
    let headers = flatten_headers(&req.headers);

    let (sch, auth, _s_pq, _s_q) = match parse_uri(connection_config.server.url.as_str()) {
        Some(p) => p,
        None => {
            return Err(KrewWasmSDKError::HttpInvalidUriError);
        },
    };
    let authority = match auth {
        Some(a) => a,
        None => {
            return Err(KrewWasmSDKError::ServerUrlNoAuthorityError);
        },
    };
    let (_r_sch, _r_auth, r_pq, r_q) = match parse_uri(req.uri.as_str()) {
        Some(p) => p,
        None => {
            return Err(KrewWasmSDKError::HttpInvalidUriError);
        },
    };
    let pq = match r_pq {
        Some(p) => p,
        None => {
            return Err(KrewWasmSDKError::HttpInvalidUriError);
        },
    };
    let params = match &r_q {
        Some(q) => split_query(q.as_str()),
        None => {
            let empty: Vec<(String, String)> = Vec::new();
            proof {
                assert(empty.deep_view() =~= Seq::<(Seq<char>, Seq<char>)>::empty());
            }
            empty
        },
    };

    let mut uri: String = match sch {
        Some(s) => s,
        None => String::from_str("https"),
    };
    uri.append("://");
    uri.append(authority.as_str());
    uri.append(pq.as_str());

    let body_bytes = req.body.clone();
    proof {
        assert(body_bytes@ =~= req.body@);
    }

    Ok(Request { method, uri, headers, params, body: Some(body_bytes) })
}

} // verus!

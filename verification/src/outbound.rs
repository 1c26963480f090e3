//! The wire shapes the outbound HTTP capability expects, and a model of its
//! configuration table.
//!
//! The capability itself lives in the host: it registers TLS configurations
//! under opaque string handles and executes wire requests. This module gives
//! those shapes as plain data, and models the configuration table as
//! [`OutboundHttp`]: registration appends the configuration and mints a
//! fresh handle, so distinct registrations always yield distinct handles.

use vstd::prelude::*;

verus! {

/// The HTTP methods the outbound capability can carry.
#[derive(Debug, Clone, Copy, PartialEq, Eq, Structural)]
pub enum Method {
    Get,
    Post,
    Put,
    Delete,
    Patch,
    Head,
    Options,
}

/// How a certificate handed to the capability is encoded.
#[derive(Debug, Clone, Copy, PartialEq, Eq, Structural)]
pub enum CertificateEncoding {
    Pem,
    Der,
}

/// A root certificate handed to the capability.
#[derive(Debug)]
pub struct Certificate {
    /// The encoding of `data`.
    pub encoding: CertificateEncoding,
    /// The certificate bytes.
    pub data: Vec<u8>,
}

/// A client TLS identity handed to the capability.
#[derive(Debug)]
pub struct Identity {
    /// The private key.
    pub key: Vec<u8>,
    /// The certificate.
    pub cert: Vec<u8>,
    /// The CA that issued the certificate.
    pub ca: Vec<u8>,
}

/// One TLS configuration as the capability receives it.
#[derive(Debug)]
pub struct RequestConfig {
    /// Whether a certificate presented for a different hostname is accepted.
    pub accept_invalid_hostnames: bool,
    /// Whether an invalid certificate is accepted.
    pub accept_invalid_certificates: bool,
    /// Extra root certificates to trust.
    pub extra_root_certificates: Vec<Certificate>,
    /// The client identity to present, if any.
    pub identity: Option<Identity>,
}

/// A wire-ready request: everything the capability needs to execute one
/// HTTP call.
#[derive(Debug)]
pub struct Request {
    /// The HTTP method.
    pub method: Method,
    /// The absolute URI: scheme, authority, path and query.
    pub uri: String,
    /// The headers, in order, as text pairs.
    pub headers: Vec<(String, String)>,
    /// The query parameters, in order, as text pairs.
    pub params: Vec<(String, String)>,
    /// The body bytes, when present.
    pub body: Option<Vec<u8>>,
}

/// The closed set of errors the outbound capability reports.
#[derive(Debug, Clone, Copy, PartialEq, Eq, Structural)]
pub enum HttpError {
    Success,
    DestinationNotAllowed,
    InvalidCfg,
    InvalidUrl,
    RequestError,
    RuntimeError,
}

/// The description `message` returns for each capability error.
pub open spec fn spec_message(e: HttpError) -> Seq<char> {
    match e {
        HttpError::Success => "success"@,
        HttpError::DestinationNotAllowed => "destination not allowed"@,
        HttpError::InvalidCfg => "invalid config"@,
        HttpError::InvalidUrl => "invalid URL"@,
        HttpError::RequestError => "request error"@,
        HttpError::RuntimeError => "runtime error"@,
    }
}

impl HttpError {
    /// A short description of the error.
    pub fn message(&self) -> (r: String)
        ensures
            r@ == spec_message(*self),
    {
        match self {
            HttpError::Success => "success".to_owned(),
            HttpError::DestinationNotAllowed => "destination not allowed".to_owned(),
            HttpError::InvalidCfg => "invalid config".to_owned(),
            HttpError::InvalidUrl => "invalid URL".to_owned(),
            HttpError::RequestError => "request error".to_owned(),
            HttpError::RuntimeError => "runtime error".to_owned(),
        }
    }
}

/// The decimal digit `d`, for `d` under ten.
pub open spec fn digit_char(d: nat) -> char {
    if d == 0 {
        '0'
    } else if d == 1 {
        '1'
    } else if d == 2 {
        '2'
    } else if d == 3 {
        '3'
    } else if d == 4 {
        '4'
    } else if d == 5 {
        '5'
    } else if d == 6 {
        '6'
    } else if d == 7 {
        '7'
    } else if d == 8 {
        '8'
    } else {
        '9'
    }
}

/// The decimal representation of `n`, most significant digit first, with no
/// leading zeros.
pub open spec fn decimal_of(n: nat) -> Seq<char>
    decreases n,
{
    if n < 10 {
        seq![digit_char(n)]
    } else {
        decimal_of(n / 10).push(digit_char(n % 10))
    }
}

proof fn lemma_decimal_of_len(n: nat)
    ensures
        decimal_of(n).len() >= 1,
    decreases n,
{
    if n >= 10 {
        lemma_decimal_of_len(n / 10);
    }
}

/// Decimal representations are unique: distinct numbers never share one.
pub proof fn lemma_decimal_of_injective(a: nat, b: nat)
    requires
        decimal_of(a) == decimal_of(b),
    ensures
        a == b,
    decreases a,
{
    assert(decimal_of(a).last() == digit_char(a % 10));
    assert(decimal_of(b).last() == digit_char(b % 10));
    assert(a % 10 == b % 10);
    if a < 10 && b < 10 {
    } else if a < 10 && b >= 10 {
        lemma_decimal_of_len(b / 10);
        assert(decimal_of(b).len() >= 2);
    } else if a >= 10 && b < 10 {
        lemma_decimal_of_len(a / 10);
        assert(decimal_of(a).len() >= 2);
    } else {
        assert(decimal_of(a).drop_last() =~= decimal_of(a / 10));
        assert(decimal_of(b).drop_last() =~= decimal_of(b / 10));
        lemma_decimal_of_injective(a / 10, b / 10);
    }
}

/// Distinct registrations yield distinct handles: the handle minted for one
/// position of the configuration table never equals the handle minted for
/// another.
pub proof fn lemma_distinct_handles(n1: nat, n2: nat)
    requires
        n1 != n2,
    ensures
        decimal_of(n1) != decimal_of(n2),
{
    if decimal_of(n1) == decimal_of(n2) {
        lemma_decimal_of_injective(n1, n2);
        assert(false);
    }
}

/// The decimal representation of `n` as a string.
fn to_decimal(n: usize) -> (r: String)
    ensures
        r@ == decimal_of(n as nat),
    decreases n,
{
    let digits: &str = "0123456789";
    proof {
        reveal_strlit("0123456789");
    }
    let d = n % 10;
    let ds = digits.substring_char(d, d + 1);
    proof {
        assert(ds@ =~= seq![digit_char((n % 10) as nat)]);
    }
    if n < 10 {
        ds.to_owned()
    } else {
        let mut r = to_decimal(n / 10);
        r.append(ds);
        proof {
            assert(r@ =~= decimal_of(n as nat));
        }
        r
    }
}

/// A model of the outbound capability's configuration table: registered
/// configurations in the order they arrived. The handle minted for a
/// configuration is the decimal form of its position.
#[derive(Debug)]
pub struct OutboundHttp {
    /// The configurations registered so far.
    pub configs: Vec<RequestConfig>,
}

impl OutboundHttp {
    /// An empty configuration table.
    pub fn new() -> (r: OutboundHttp)
        ensures
            r.configs@ == Seq::<RequestConfig>::empty(),
    {
        OutboundHttp { configs: Vec::new() }
    }

    /// Registers one TLS configuration and mints a fresh handle for it.
    /// Every call appends: registering the same configuration twice yields
    /// two entries and two distinct handles.
    pub fn register_request_config(&mut self, config: RequestConfig) -> (r: String)
        ensures
            final(self).configs@ == old(self).configs@.push(config),
            r@ == decimal_of(old(self).configs@.len() as nat),
    {
        let handle = to_decimal(self.configs.len());
        self.configs.push(config);
        handle
    }
}

} // verus!

//! Exporter planning: the endpoint, TLS use, timeout and authentication
//! metadata with which each OTLP exporter (spans, logs, metrics) is
//! built, shared by every signal.

use std::time::Duration;

use tonic::metadata::{Ascii, MetadataKey, MetadataValue};

use vstd::prelude::*;

use crate::config::{Credentials, ExporterConfig, ExporterSettings, OtlpCredentials, OtlpProtocol};
use crate::text::{ascii_lower, lemma_text_pairs_push, starts_with, text_pairs};
use vstd::utf8::encode_utf8;

verus! {

// ── Outside computations ───────────────────────────────────────────

/// The base64 digit of a six-bit value: `A`-`Z`, `a`-`z`, `0`-`9`, `+`, `/`.
pub open spec fn base64_digit(n: int) -> char {
    if n < 26 {
        (65 + n) as char
    } else if n < 52 {
        (97 + n - 26) as char
    } else if n < 62 {
        (48 + n - 52) as char
    } else if n == 62 {
        '+'
    } else {
        '/'
    }
}

/// Standard, padded base64 (RFC 4648): each group of three bytes becomes
/// four digits; a last group of one or two bytes is padded with `=`.
pub open spec fn base64_bytes(b: Seq<u8>) -> Seq<char>
    decreases b.len(),
{
    if b.len() == 0 {
        Seq::empty()
    } else {
        let x = b[0] as int;
        let y = if b.len() > 1 { b[1] as int } else { 0 };
        let z = if b.len() > 2 { b[2] as int } else { 0 };
        let first = base64_digit(x / 4);
        let second = base64_digit((x % 4) * 16 + y / 16);
        let third = base64_digit((y % 16) * 4 + z / 64);
        let fourth = base64_digit(z % 64);
        if b.len() == 1 {
            seq![first, second, '=', '=']
        } else if b.len() == 2 {
            seq![first, second, third, '=']
        } else {
            seq![first, second, third, fourth] + base64_bytes(b.skip(3))
        }
    }
}

/// The standard, padded base64 encoding of a text's UTF-8 bytes.
pub open spec fn base64_text(s: Seq<char>) -> Seq<char> {
    base64_bytes(encode_utf8(s))
}

/// `data_encoding::BASE64.encode` of the text's UTF-8 bytes: standard,
/// padded base64. It asserts that the input is at most
/// `usize::MAX / 512` bytes long.
#[verifier::external_body]
fn base64_encode(s: &str) -> (r: String)
    requires
        encode_utf8(s@).len() <= usize::MAX / 512,
    ensures
        r@ == base64_text(s@),
{
    data_encoding::BASE64.encode(s.as_bytes())
}

/// A character that a header value may hold: a tab, or any character
/// from the space on except DEL. (`http` checks each UTF-8 byte; the bytes
/// of a non-ASCII character are all 0x80 or above and pass.)
pub open spec fn header_value_char(c: char) -> bool {
    c == '\t' || ((c as u32) >= 32 && (c as u32) != 127)
}

/// Text that `MetadataValue<Ascii>` accepts.
pub open spec fn metadata_value_ok(v: Seq<char>) -> bool {
    forall|i: int| 0 <= i < v.len() ==> header_value_char(#[trigger] v[i])
}

/// `str::parse::<MetadataValue<Ascii>>` succeeds exactly on text whose
/// every character passes `header_value_char`.
#[verifier::external_body]
fn metadata_value_parses(v: &str) -> (ok: bool)
    ensures
        ok == metadata_value_ok(v@),
{
    v.parse::<MetadataValue<Ascii>>().is_ok()
}

/// A character that a header name may hold: the token characters of
/// HTTP, that is letters, digits, the backtick and `! # $ % & ' * + - . ^ _ | ~`.
/// Upper-case letters are accepted and folded to lower case.
pub open spec fn header_name_char(c: char) -> bool {
    let n = c as u32;
    ||| n == 33
    ||| 35 <= n <= 39
    ||| n == 42 || n == 43 || n == 45 || n == 46
    ||| 48 <= n <= 57
    ||| 65 <= n <= 90
    ||| 94 <= n <= 122
    ||| n == 124 || n == 126
}

/// The text ends with `-bin`, the suffix of binary metadata keys.
pub open spec fn ends_with_bin(k: Seq<char>) -> bool {
    k.len() >= 4 && k.subrange(k.len() - 4, k.len() as int) == seq!['-', 'b', 'i', 'n']
}

/// Text that `MetadataKey<Ascii>` accepts: one to 65535 header name
/// characters whose lower-cased form does not end with `-bin`.
pub open spec fn metadata_key_ok(k: Seq<char>) -> bool {
    &&& 1 <= k.len() <= 65535
    &&& forall|i: int| 0 <= i < k.len() ==> header_name_char(#[trigger] k[i])
    &&& !ends_with_bin(ascii_lower(k))
}

/// `str::parse::<MetadataKey<Ascii>>` succeeds exactly on the texts that
/// `metadata_key_ok` describes (`http::HeaderName::from_bytes`, then the
/// `-bin` check of the ASCII encoding on the normalised name).
#[verifier::external_body]
fn metadata_key_parses(k: &str) -> (ok: bool)
    ensures
        ok == metadata_key_ok(k@),
{
    k.parse::<MetadataKey<Ascii>>().is_ok()
}

// ── Credentials ────────────────────────────────────────────────────

/// Name of the authentication header.
pub open spec fn authorization() -> Seq<char> {
    "authorization"@
}

/// `Bearer <token>`.
pub open spec fn bearer_value(token: Seq<char>) -> Seq<char> {
    "Bearer "@ + token
}

/// `Basic base64(user:pass)`.
pub open spec fn basic_value(username: Seq<char>, password: Seq<char>) -> Seq<char> {
    "Basic "@ + base64_text(username + ":"@ + password)
}

/// The authentication header of token or user/password credentials.
pub open spec fn auth_value(c: Credentials) -> Seq<char> {
    match c {
        Credentials::Bearer(t) => bearer_value(t),
        Credentials::Basic { username, password } => basic_value(username, password),
        _ => Seq::empty(),
    }
}

/// Headers that HTTP exporters send: none to apply without credentials,
/// the `authorization` header for a token or user/password, the custom
/// headers as they are.
pub open spec fn http_headers(c: Credentials) -> Option<Seq<(Seq<char>, Seq<char>)>> {
    match c {
        Credentials::NoAuth => None,
        Credentials::Headers(h) => Some(h),
        _ => Some(seq![(authorization(), auth_value(c))]),
    }
}

/// The custom headers that gRPC metadata can carry, in order.
pub open spec fn metadata_entries(h: Seq<(Seq<char>, Seq<char>)>) -> Seq<(Seq<char>, Seq<char>)>
    decreases h.len(),
{
    if h.len() == 0 {
        Seq::empty()
    } else {
        let before = metadata_entries(h.drop_last());
        if metadata_key_ok(h.last().0) && metadata_value_ok(h.last().1) {
            before.push(h.last())
        } else {
            before
        }
    }
}

/// Metadata that gRPC exporters send: as for HTTP, but an entry whose
/// name or value gRPC metadata cannot carry is left out.
pub open spec fn grpc_metadata(c: Credentials) -> Option<Seq<(Seq<char>, Seq<char>)>> {
    match c {
        Credentials::NoAuth => None,
        Credentials::Headers(h) => Some(metadata_entries(h)),
        _ => Some(
            if metadata_value_ok(auth_value(c)) {
                seq![(authorization(), auth_value(c))]
            } else {
                Seq::empty()
            },
        ),
    }
}

/// Credentials that base64 encoding can take: a `user:password` text of
/// at most `usize::MAX / 512` UTF-8 bytes (longer ones make
/// `BASE64.encode` panic).
pub open spec fn encodable(c: Credentials) -> bool {
    match c {
        Credentials::Basic { username, password } => encode_utf8(username + ":"@ + password).len()
            <= usize::MAX / 512,
        _ => true,
    }
}

/// The authentication header value of token or user/password credentials.
fn auth_header(credentials: &OtlpCredentials) -> (v: String)
    requires
        credentials is Bearer || credentials is Basic,
        encodable(credentials@),
    ensures
        v@ == auth_value(credentials@),
{
    match credentials {
        OtlpCredentials::Basic { username, password } => {
            let mut joined = username.clone();
            joined.append(":");
            joined.append(password.as_str());
            let encoded = base64_encode(joined.as_str());
            let mut v = "Basic ".to_owned();
            v.append(encoded.as_str());
            v
        },
        OtlpCredentials::Bearer(token) => {
            let mut v = "Bearer ".to_owned();
            v.append(token.as_str());
            v
        },
        _ => String::new(),
    }
}

/// Headers to send over HTTP for the given credentials; `None` when
/// there is nothing to apply.
pub fn http_credential_headers(credentials: &OtlpCredentials) -> (r: Option<Vec<(String, String)>>)
    requires
        encodable(credentials@),
    ensures
        r is Some <==> http_headers(credentials@) is Some,
        r matches Some(v) ==> http_headers(credentials@) == Some(text_pairs(v@)),
{
    match credentials {
        OtlpCredentials::NoAuth => None,
        OtlpCredentials::Headers(h) => {
            let v = h.to_vec();
            Some(v)
        },
        _ => {
            let value = auth_header(credentials);
            let mut v: Vec<(String, String)> = Vec::new();
            v.push(("authorization".to_owned(), value));
            assert(text_pairs(v@) =~= seq![(authorization(), auth_value(credentials@))]);
            Some(v)
        },
    }
}

/// Metadata to send over gRPC for the given credentials; `None` when
/// there is nothing to apply.
pub fn grpc_credential_metadata(credentials: &OtlpCredentials) -> (r: Option<Vec<(String, String)>>)
    requires
        encodable(credentials@),
    ensures
        r is Some <==> grpc_metadata(credentials@) is Some,
        r matches Some(v) ==> grpc_metadata(credentials@) == Some(text_pairs(v@)),
{
    match credentials {
        OtlpCredentials::NoAuth => None,
        OtlpCredentials::Headers(h) => {
            let all = h.to_vec();
            let ghost src = text_pairs(all@);
            let n = all.len();
            let mut v: Vec<(String, String)> = Vec::new();
            let mut i: usize = 0;
            while i < n
                invariant
                    n == all@.len(),
                    src == text_pairs(all@),
                    i <= n,
                    text_pairs(v@) == metadata_entries(src.take(i as int)),
                decreases n - i,
            {
                proof {
                    assert(src.take(i + 1).drop_last() =~= src.take(i as int));
                    assert(src.take(i + 1).last() == src[i as int]);
                }
                let key_ok = metadata_key_parses(all[i].0.as_str());
                let value_ok = metadata_value_parses(all[i].1.as_str());
                if key_ok && value_ok {
                    let p = (all[i].0.clone(), all[i].1.clone());
                    proof {
                        lemma_text_pairs_push(v@, p);
                    }
                    v.push(p);
                }
                i = i + 1;
            }
            assert(src.take(n as int) =~= src);
            Some(v)
        },
        _ => {
            let value = auth_header(credentials);
            let mut v: Vec<(String, String)> = Vec::new();
            if metadata_value_parses(value.as_str()) {
                v.push(("authorization".to_owned(), value));
                assert(text_pairs(v@) =~= seq![(authorization(), auth_value(credentials@))]);
            } else {
                assert(text_pairs(v@) =~= Seq::empty());
            }
            Some(v)
        },
    }
}


// ── Exporter plans ─────────────────────────────────────────────────

/// The kind of telemetry an exporter sends.
#[derive(Debug, Clone, Copy, PartialEq, Eq, Structural)]
pub enum Signal {
    Traces,
    Logs,
    Metrics,
}

impl Signal {
    /// Path that HTTP exporters append to the endpoint.
    pub open spec fn http_path(self) -> Seq<char> {
        match self {
            Signal::Traces => "/v1/traces"@,
            Signal::Logs => "/v1/logs"@,
            Signal::Metrics => "/v1/metrics"@,
        }
    }

    fn path(&self) -> (p: &'static str)
        ensures
            p@ == self.http_path(),
    {
        match self {
            Signal::Traces => "/v1/traces",
            Signal::Logs => "/v1/logs",
            Signal::Metrics => "/v1/metrics",
        }
    }
}

/// How an exporter is to be built.
#[derive(Debug, Clone)]
pub struct ExporterPlan {
    /// Transport protocol.
    pub protocol: OtlpProtocol,
    /// Endpoint the exporter sends to.
    pub endpoint: String,
    /// Whether a TLS configuration with the web PKI roots is applied.
    pub use_tls: bool,
    /// Export timeout.
    pub timeout: Duration,
    /// Headers or metadata to apply, `None` when there are none to apply.
    pub metadata: Option<Vec<(String, String)>>,
}

/// The content of an [`ExporterPlan`].
pub struct PlanSettings {
    pub protocol: OtlpProtocol,
    pub endpoint: Seq<char>,
    pub use_tls: bool,
    pub timeout: Duration,
    pub metadata: Option<Seq<(Seq<char>, Seq<char>)>>,
}

impl View for ExporterPlan {
    type V = PlanSettings;

    open spec fn view(&self) -> PlanSettings {
        PlanSettings {
            protocol: self.protocol,
            endpoint: self.endpoint@,
            use_tls: self.use_tls,
            timeout: self.timeout,
            metadata: match self.metadata {
                Some(v) => Some(text_pairs(v@)),
                None => None,
            },
        }
    }
}

/// Prefix of endpoints that get TLS over gRPC.
pub open spec fn https() -> Seq<char> {
    "https://"@
}

/// The plan for exporting one signal: over gRPC the endpoint as
/// configured, TLS when it starts with `https://`, and the credentials as
/// metadata; over HTTP the endpoint followed by the signal's path and the
/// credentials as headers. The timeout is the configured one.
pub open spec fn exporter_plan_of(c: ExporterSettings, signal: Signal) -> PlanSettings {
    match c.protocol {
        OtlpProtocol::Grpc => PlanSettings {
            protocol: OtlpProtocol::Grpc,
            endpoint: c.endpoint,
            use_tls: https().len() <= c.endpoint.len() && c.endpoint.take(https().len() as int)
                == https(),
            timeout: c.timeout,
            metadata: grpc_metadata(c.credentials),
        },
        OtlpProtocol::Http => PlanSettings {
            protocol: OtlpProtocol::Http,
            endpoint: c.endpoint + signal.http_path(),
            use_tls: false,
            timeout: c.timeout,
            metadata: http_headers(c.credentials),
        },
    }
}

/// Plan the exporter of one signal.
pub fn exporter_plan(config: &ExporterConfig, signal: Signal) -> (p: ExporterPlan)
    requires
        encodable(config@.credentials),
    ensures
        p@ == exporter_plan_of(config@, signal),
{
    match config.protocol {
        OtlpProtocol::Grpc => ExporterPlan {
            protocol: OtlpProtocol::Grpc,
            endpoint: config.endpoint.clone(),
            use_tls: starts_with(config.endpoint.as_str(), "https://"),
            timeout: config.timeout,
            metadata: grpc_credential_metadata(&config.credentials),
        },
        OtlpProtocol::Http => {
            let mut endpoint = config.endpoint.clone();
            endpoint.append(signal.path());
            ExporterPlan {
                protocol: OtlpProtocol::Http,
                endpoint,
                use_tls: false,
                timeout: config.timeout,
                metadata: http_credential_headers(&config.credentials),
            }
        },
    }
}

} // verus!

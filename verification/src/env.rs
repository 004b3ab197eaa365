//! Standard OTel environment values, parsed from the raw text of the
//! variables:
//!
//! | Variable | Maps to |
//! |---|---|
//! | `OTEL_SERVICE_NAME` | service name |
//! | `OTEL_EXPORTER_OTLP_ENDPOINT` | collector endpoint |
//! | `OTEL_EXPORTER_OTLP_PROTOCOL` | `grpc` or `http/protobuf` |
//! | `OTEL_EXPORTER_OTLP_HEADERS` | comma-separated `key=value` pairs |
//! | `OTEL_EXPORTER_OTLP_TIMEOUT` | export timeout in milliseconds |
//! | `OTEL_TRACES_SAMPLER` | sampling strategy name |
//! | `OTEL_TRACES_SAMPLER_ARG` | sampler argument (e.g., ratio) |

use std::time::Duration;

use vstd::prelude::*;

use crate::config::{
    duration_from_millis, milliseconds, protocol_named, OtlpProtocol, SamplingStrategy,
};
use crate::headers::{with_entry, HeaderMap};
use crate::text::{
    all_ascii, ascii_lower, chars_of, first_index_of, opt_text, same_text, split_on, split_once, to_lowercase, trim, trimmed,
    unicode_lowercase,
};

verus! {

/// Bit pattern of the binary64 value `1.0`, the ratio used when
/// `OTEL_TRACES_SAMPLER_ARG` is absent or is not a number.
pub const RATIO_ONE: u64 = 0x3FF0_0000_0000_0000u64;

/// Raw values of the standard variables, each `None` when unset.
#[derive(Debug, Clone)]
pub struct EnvVars {
    /// `OTEL_SERVICE_NAME`.
    pub service_name: Option<String>,
    /// `OTEL_EXPORTER_OTLP_ENDPOINT`.
    pub endpoint: Option<String>,
    /// `OTEL_EXPORTER_OTLP_PROTOCOL`.
    pub protocol: Option<String>,
    /// `OTEL_EXPORTER_OTLP_HEADERS`.
    pub headers: Option<String>,
    /// `OTEL_EXPORTER_OTLP_TIMEOUT`.
    pub timeout: Option<String>,
    /// `OTEL_TRACES_SAMPLER`.
    pub sampler: Option<String>,
    /// `OTEL_TRACES_SAMPLER_ARG` read as a binary64 number, as its bit
    /// pattern; `None` when unset or not a number.
    pub sampler_arg: Option<u64>,
}

/// Parsed OTel environment values (all optional).
#[derive(Debug, Clone)]
pub struct EnvConfig {
    pub service_name: Option<String>,
    pub endpoint: Option<String>,
    pub protocol: Option<OtlpProtocol>,
    pub headers: Option<HeaderMap>,
    pub timeout: Option<Duration>,
    pub sampler: Option<SamplingStrategy>,
}

/// The content of an [`EnvConfig`].
pub struct EnvSettings {
    pub service_name: Option<Seq<char>>,
    pub endpoint: Option<Seq<char>>,
    pub protocol: Option<OtlpProtocol>,
    pub headers: Option<Seq<(Seq<char>, Seq<char>)>>,
    pub timeout: Option<Duration>,
    pub sampler: Option<SamplingStrategy>,
}

impl View for EnvConfig {
    type V = EnvSettings;

    open spec fn view(&self) -> EnvSettings {
        EnvSettings {
            service_name: opt_text(self.service_name),
            endpoint: opt_text(self.endpoint),
            protocol: self.protocol,
            headers: match self.headers {
                Some(h) => Some(h@),
                None => None,
            },
            timeout: self.timeout,
            sampler: self.sampler,
        }
    }
}

/// No environment value set.
pub open spec fn no_env() -> EnvSettings {
    EnvSettings {
        service_name: None,
        endpoint: None,
        protocol: None,
        headers: None,
        timeout: None,
        sampler: None,
    }
}

// ── Header lists ───────────────────────────────────────────────────

/// The headers that a sequence of `key=value` pieces sets, in order: a
/// piece without `=` is skipped, key and value are trimmed, and a later
/// piece with the same key replaces the value.
pub open spec fn header_entries(pieces: Seq<Seq<char>>) -> Seq<(Seq<char>, Seq<char>)>
    decreases pieces.len(),
{
    if pieces.len() == 0 {
        Seq::empty()
    } else {
        let before = header_entries(pieces.drop_last());
        let p = pieces.last();
        let i = first_index_of(p, '=');
        if i < 0 {
            before
        } else {
            with_entry(before, trimmed(p.take(i)), trimmed(p.skip(i + 1)))
        }
    }
}

/// The headers of a comma-separated `key=value` list, or `None` when it
/// sets none.
pub open spec fn header_list(raw: Seq<char>) -> Option<Seq<(Seq<char>, Seq<char>)>> {
    let e = header_entries(split_on(raw, ','));
    if e.len() == 0 {
        None
    } else {
        Some(e)
    }
}

/// Parse a comma-separated list of `key=value` pairs (the format of
/// `OTEL_EXPORTER_OTLP_HEADERS`).
pub fn parse_header_list(raw: &str) -> (r: Option<HeaderMap>)
    ensures
        r is Some <==> header_list(raw@) is Some,
        r matches Some(h) ==> header_list(raw@) == Some(h@),
{
    let mut headers = HeaderMap::new();
    let mut rest: &str = raw;
    let ghost mut done: Seq<Seq<char>> = Seq::empty();
    loop
        invariant_except_break
            done + split_on(rest@, ',') == split_on(raw@, ','),
        invariant
            headers@ == header_entries(done),
        ensures
            done == split_on(raw@, ','),
            headers@ == header_entries(done),
        decreases rest@.len(),
    {
        let (piece, more) = match split_once(rest, ',') {
            Some((a, b)) => (a, Some(b)),
            None => (rest, None),
        };
        proof {
            let i = first_index_of(rest@, ',');
            crate::text::lemma_first_index_of(rest@, ',');
            if i >= 0 {
                assert(split_on(rest@, ',') == seq![piece@] + split_on(more.unwrap()@, ','));
                assert(done.push(piece@) + split_on(more.unwrap()@, ',') =~= done + (seq![piece@]
                    + split_on(more.unwrap()@, ',')));
            } else {
                assert(split_on(rest@, ',') == seq![rest@]);
                assert(done.push(piece@) =~= done + seq![rest@]);
            }
            assert(done.push(piece@).drop_last() =~= done);
        }
        match split_once(piece, '=') {
            Some((k, v)) => {
                headers.insert(trim(k).to_owned(), trim(v).to_owned());
            },
            None => {},
        }
        proof {
            done = done.push(piece@);
        }
        match more {
            Some(b) => {
                rest = b;
            },
            None => {
                break ;
            },
        }
    }
    if headers.is_empty() {
        None
    } else {
        Some(headers)
    }
}


// ── Numbers ────────────────────────────────────────────────────────

/// Value of a sequence of decimal digits.
pub open spec fn digits_value(d: Seq<char>) -> nat
    decreases d.len(),
{
    if d.len() == 0 {
        0
    } else {
        digits_value(d.drop_last()) * 10 + ((d.last() as nat) - ('0' as nat)) as nat
    }
}

/// The value of a digit sequence that fits in a `u64`: at least one ASCII
/// digit and nothing else.
pub open spec fn decimal_digits(d: Seq<char>) -> Option<u64> {
    if d.len() > 0 && (forall|i: int| 0 <= i < d.len() ==> '0' <= #[trigger] d[i] <= '9')
        && digits_value(d) <= u64::MAX {
        Some(digits_value(d) as u64)
    } else {
        None
    }
}

/// What `u64`'s `FromStr` accepts: an optional `+` followed by at least
/// one ASCII digit, denoting a value that fits in a `u64`.
pub open spec fn decimal_u64(s: Seq<char>) -> Option<u64> {
    decimal_digits(
        if s.len() > 0 && s[0] == '+' {
            s.drop_first()
        } else {
            s
        },
    )
}

/// A prefix of a digit sequence has no greater value than the sequence.
pub proof fn lemma_digits_value_prefix(d: Seq<char>, k: int)
    requires
        0 <= k <= d.len(),
        forall|i: int| 0 <= i < d.len() ==> '0' <= #[trigger] d[i] <= '9',
    ensures
        digits_value(d.take(k)) <= digits_value(d),
    decreases d.len(),
{
    if k < d.len() {
        let p = d.drop_last();
        assert(p.take(k) =~= d.take(k));
        lemma_digits_value_prefix(p, k);
    } else {
        assert(d.take(k) =~= d);
    }
}

/// Parse a decimal `u64` as `str::parse::<u64>` does: an optional `+`
/// followed by at least one ASCII digit, with a value that fits.
pub(crate) fn parse_u64(s: &str) -> (r: Option<u64>)
    ensures
        r == decimal_u64(s@),
{
    let c = chars_of(s);
    let start: usize = if c.len() > 0 && c[0] == '+' {
        1
    } else {
        0
    };
    let ghost d = c@.skip(start as int);
    assert(d =~= (if s@.len() > 0 && s@[0] == '+' {
        s@.drop_first()
    } else {
        s@
    }));
    if start == c.len() {
        return None;
    }
    let n = c.len();
    let mut value: u64 = 0;
    let mut i: usize = start;
    while i < n
        invariant
            n == c@.len(),
            start <= i <= n,
            start < n,
            d == c@.skip(start as int),
            decimal_u64(s@) == decimal_digits(d),
            forall|j: int| 0 <= j < i - start ==> '0' <= #[trigger] d[j] <= '9',
            value == digits_value(d.take(i - start)),
        decreases n - i,
    {
        let ch = c[i];
        assert(d[i - start] == ch);
        if !('0' <= ch && ch <= '9') {
            return None;
        }
        let digit: u64 = ((ch as u32) - ('0' as u32)) as u64;
        proof {
            assert(d.take(i - start + 1).drop_last() =~= d.take(i - start));
            assert(d.take(i - start + 1).last() == ch);
        }
        let next = match value.checked_mul(10) {
            Some(m) => m.checked_add(digit),
            None => None,
        };
        match next {
            Some(v) => {
                value = v;
            },
            None => {
                proof {
                    assert(digits_value(d.take(i - start + 1)) > u64::MAX);
                    if forall|j: int| 0 <= j < d.len() ==> '0' <= #[trigger] d[j] <= '9' {
                        lemma_digits_value_prefix(d, i - start + 1);
                    }
                }
                return None;
            },
        }
        i = i + 1;
    }
    assert(d.take(n - start) =~= d);
    Some(value)
}

// ── Sampler ────────────────────────────────────────────────────────

/// The strategy that a lower-cased `OTEL_TRACES_SAMPLER` value names,
/// given the ratio argument.
pub open spec fn sampler_named(lower: Seq<char>, arg: Option<u64>) -> Option<SamplingStrategy> {
    if lower == "always_on"@ {
        Some(SamplingStrategy::AlwaysOn)
    } else if lower == "always_off"@ {
        Some(SamplingStrategy::AlwaysOff)
    } else if lower == "traceidratio"@ {
        Some(
            SamplingStrategy::TraceIdRatio(
                match arg {
                    Some(bits) => bits,
                    None => RATIO_ONE,
                },
            ),
        )
    } else if lower == "parentbased_always_on"@ || lower == "parentbased"@ {
        Some(SamplingStrategy::ParentBased)
    } else {
        None
    }
}

/// The sampling strategy that a sampler name selects (ignoring case),
/// with `arg` as the ratio of `traceidratio` (`1.0` when `None`).
pub fn sampler_from_name(name: &str, arg: Option<u64>) -> (r: Option<SamplingStrategy>)
    ensures
        r == sampler_named(unicode_lowercase(name@), arg),
        all_ascii(name@) ==> r == sampler_named(ascii_lower(name@), arg),
{
    let lower = to_lowercase(name);
    let t = lower.as_str();
    if same_text(t, "always_on") {
        Some(SamplingStrategy::AlwaysOn)
    } else if same_text(t, "always_off") {
        Some(SamplingStrategy::AlwaysOff)
    } else if same_text(t, "traceidratio") {
        let bits = match arg {
            Some(b) => b,
            None => RATIO_ONE,
        };
        Some(SamplingStrategy::TraceIdRatio(bits))
    } else if same_text(t, "parentbased_always_on") || same_text(t, "parentbased") {
        Some(SamplingStrategy::ParentBased)
    } else {
        None
    }
}

// ── Whole environment ──────────────────────────────────────────────

/// What the raw variables yield: each value that is set and parses.
pub open spec fn env_settings(vars: EnvVars) -> EnvSettings {
    EnvSettings {
        service_name: opt_text(vars.service_name),
        endpoint: opt_text(vars.endpoint),
        protocol: match vars.protocol {
            Some(p) => protocol_named(unicode_lowercase(p@)),
            None => None,
        },
        headers: match vars.headers {
            Some(raw) => header_list(raw@),
            None => None,
        },
        timeout: match vars.timeout {
            Some(t) => match decimal_u64(t@) {
                Some(ms) => Some(milliseconds(ms)),
                None => None,
            },
            None => None,
        },
        sampler: match vars.sampler {
            Some(n) => sampler_named(unicode_lowercase(n@), vars.sampler_arg),
            None => None,
        },
    }
}

impl EnvConfig {
    /// No value set.
    pub fn empty() -> (e: EnvConfig)
        ensures
            e@ == no_env(),
    {
        EnvConfig {
            service_name: None,
            endpoint: None,
            protocol: None,
            headers: None,
            timeout: None,
            sampler: None,
        }
    }

    /// Parse the raw variables; a value that does not parse counts as unset.
    pub fn from_vars(vars: EnvVars) -> (e: EnvConfig)
        ensures
            e@ == env_settings(vars),
    {
        let protocol = match &vars.protocol {
            Some(p) => match OtlpProtocol::parse(p.as_str()) {
                Ok(p) => Some(p),
                Err(_) => None,
            },
            None => None,
        };
        let headers = match &vars.headers {
            Some(raw) => parse_header_list(raw.as_str()),
            None => None,
        };
        let timeout = match &vars.timeout {
            Some(t) => match parse_u64(t.as_str()) {
                Some(ms) => Some(duration_from_millis(ms)),
                None => None,
            },
            None => None,
        };
        let sampler = match &vars.sampler {
            Some(n) => sampler_from_name(n.as_str(), vars.sampler_arg),
            None => None,
        };
        EnvConfig {
            service_name: vars.service_name,
            endpoint: vars.endpoint,
            protocol,
            headers,
            timeout,
            sampler,
        }
    }
}

impl Default for EnvConfig {
    fn default() -> (e: Self)
        ensures
            e@ == no_env(),
    {
        EnvConfig::empty()
    }
}

} // verus!

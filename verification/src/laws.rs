//! Properties of the library taken whole.

use std::cmp::Ordering;

use vstd::prelude::*;
use vstd::std_specs::cmp::PartialOrdSpec;

use crate::config::{
    default_endpoint, default_exporter, default_service_name, default_settings, default_tracing,
    level_named, protocol_named, resolved, unset, BuilderSettings, Credentials, LogLevel,
    MetricsConfig, OtlpProtocol, TracingConfig,
};
use crate::env::{no_env, EnvSettings};
use crate::headers::{lemma_with_entry, names_distinct, value_of, with_entry};
use crate::filter::{allow_list, allow_list_text};
use crate::text::{all_ascii, ascii_lower, lemma_joined_starts_with_first};

verus! {

/// Builder values take precedence over environment values, which take
/// precedence over the defaults: for the service name, a name set on the
/// builder is used whatever the environment says; otherwise the
/// environment's; otherwise `unknown-service`.
pub proof fn builder_over_env_over_default(b: BuilderSettings, e: EnvSettings)
    ensures
        b.service_name matches Some(n) ==> resolved(b, e).service_name == n,
        b.service_name is None && e.service_name is Some ==> resolved(b, e).service_name
            == e.service_name.unwrap(),
        b.service_name is None && e.service_name is None ==> resolved(b, e).service_name
            == default_service_name(),
        b.exporter is None && e.endpoint is Some ==> resolved(b, e).exporter.endpoint
            == e.endpoint.unwrap(),
        b.exporter is None && e.endpoint is None ==> resolved(b, e).exporter.endpoint
            == default_endpoint(),
        b.exporter is None && e.protocol is Some ==> resolved(b, e).exporter.protocol
            == e.protocol.unwrap(),
        b.exporter is None && e.timeout is Some ==> resolved(b, e).exporter.timeout
            == e.timeout.unwrap(),
        b.exporter is None && e.headers is Some ==> resolved(b, e).exporter.credentials
            == Credentials::Headers(e.headers.unwrap()),
        b.tracing is None && e.sampler is Some ==> resolved(b, e).tracing.unwrap().sampling
            == e.sampler.unwrap(),
{
}

/// An exporter configuration set on the builder is used unchanged: the
/// environment has no say in it.
pub proof fn explicit_exporter_ignores_env(b: BuilderSettings, e1: EnvSettings, e2: EnvSettings)
    requires
        b.exporter is Some,
    ensures
        resolved(b, e1).exporter == b.exporter.unwrap(),
        resolved(b, e1).exporter == resolved(b, e2).exporter,
{
}

/// Disabling tracing or metrics on the builder disables it whatever the
/// environment holds; leaving them unset keeps them enabled.
pub proof fn disabled_signals_stay_disabled(b: BuilderSettings, e: EnvSettings)
    ensures
        b.tracing == Some(None::<TracingConfig>) ==> resolved(b, e).tracing is None,
        b.metrics == Some(None::<MetricsConfig>) ==> resolved(b, e).metrics is None,
        b.tracing is None ==> resolved(b, e).tracing is Some,
        b.metrics is None ==> resolved(b, e).metrics is Some,
{
}

/// A builder on which nothing was set resolves, without environment
/// values, to the default configuration.
pub proof fn unset_builder_resolves_to_default()
    ensures
        resolved(unset(), no_env()) == default_settings(),
{
    let r = resolved(unset(), no_env());
    assert(r.exporter == default_exporter());
    assert(r.tracing == Some(default_tracing()));
}

/// Headers set one after the other accumulate: each name keeps the value
/// it was last set to, and setting another name leaves it alone.
pub proof fn headers_accumulate(
    h: Seq<(Seq<char>, Seq<char>)>,
    k1: Seq<char>,
    v1: Seq<char>,
    k2: Seq<char>,
    v2: Seq<char>,
)
    requires
        names_distinct(h),
        k1 != k2,
    ensures
        value_of(with_entry(with_entry(h, k1, v1), k2, v2), k1) == Some(v1),
        value_of(with_entry(with_entry(h, k1, v1), k2, v2), k2) == Some(v2),
{
    lemma_with_entry(h, k1, v1);
    lemma_with_entry(with_entry(h, k1, v1), k2, v2);
}

/// Every protocol's name is ASCII and parses back to the protocol.
pub proof fn protocol_names_round_trip(p: OtlpProtocol)
    ensures
        all_ascii(p.name()),
        protocol_named(ascii_lower(p.name())) == Some(p),
{
    reveal_strlit("grpc");
    reveal_strlit("http");
    reveal_strlit("http/protobuf");
    assert(ascii_lower(p.name()) =~= p.name());
    assert("http"@[0] != "grpc"@[0]);
}

/// Every level's name is ASCII and parses back to the level.
pub proof fn level_names_round_trip(l: LogLevel)
    ensures
        all_ascii(l.name()),
        level_named(ascii_lower(l.name())) == Some(l),
{
    reveal_strlit("trace");
    reveal_strlit("debug");
    reveal_strlit("info");
    reveal_strlit("warn");
    reveal_strlit("error");
    reveal_strlit("warning");
    assert(ascii_lower(l.name()) =~= l.name());
    let n = l.name();
    assert(n[0] == 't' || n[0] == 'd' || n[0] == 'i' || n[0] == 'w' || n[0] == 'e');
    if n[0] != 't' {
        assert(n != "trace"@);
    }
    if n[0] != 'd' {
        assert(n != "debug"@);
    }
    if n[0] != 'i' {
        assert(n != "info"@);
    }
    if n[0] != 'w' {
        assert(n != "warn"@);
        assert(n != "warning"@);
    }
}

/// Protocol and level names are read without regard to ASCII case: for
/// ASCII text, lower-casing it first changes neither the text that the
/// parsers compare and quote in a refusal, nor what it names.
pub proof fn names_ignore_ascii_case(s: Seq<char>)
    requires
        all_ascii(s),
    ensures
        all_ascii(ascii_lower(s)),
        ascii_lower(ascii_lower(s)) == ascii_lower(s),
        protocol_named(ascii_lower(ascii_lower(s))) == protocol_named(ascii_lower(s)),
        level_named(ascii_lower(ascii_lower(s))) == level_named(ascii_lower(s)),
{
    assert(ascii_lower(ascii_lower(s)) =~= ascii_lower(s));
}

/// Every allow-list filter string starts with `off`: crates that are not
/// allowed are silenced.
pub proof fn allow_list_silences_by_default(
    allowed: Seq<(Seq<char>, Seq<char>)>,
    directives: Seq<Seq<char>>,
)
    ensures
        allow_list_text(allowed, directives).len() >= 3,
        allow_list_text(allowed, directives).take(3) == "off"@,
{
    reveal_strlit("off");
    lemma_joined_starts_with_first(allow_list(allowed, directives), ","@);
}

/// Levels are ordered by severity: `Trace < Debug < Info < Warn < Error`.
pub proof fn levels_ordered_by_severity(a: LogLevel, b: LogLevel)
    ensures
        (a.partial_cmp_spec(&b) == Some(Ordering::Less)) <==> a.severity() < b.severity(),
        (a.partial_cmp_spec(&b) == Some(Ordering::Equal)) <==> a == b,
        LogLevel::Trace.partial_cmp_spec(&LogLevel::Debug) == Some(Ordering::Less),
        LogLevel::Debug.partial_cmp_spec(&LogLevel::Info) == Some(Ordering::Less),
        LogLevel::Info.partial_cmp_spec(&LogLevel::Warn) == Some(Ordering::Less),
        LogLevel::Warn.partial_cmp_spec(&LogLevel::Error) == Some(Ordering::Less),
{
}

} // verus!

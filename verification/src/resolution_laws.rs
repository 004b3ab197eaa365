//! What the planning and resolution functions do, stated over their
//! inputs: exporter plans, credentials, environment values, builder
//! precedence and resource attributes.

use vstd::prelude::*;

use crate::config::{
    default_metrics, resolved, BuilderSettings, Credentials, ExporterSettings, LogLevel,
    OtelSettings, OutputFormat, SamplingStrategy,
};
use crate::env::{decimal_u64, env_settings, header_list, EnvSettings, EnvVars, RATIO_ONE};
use crate::config::{milliseconds, protocol_named};
use crate::init::{plans, resource_attributes_of, InitPlan};
use crate::text::{opt_text, unicode_lowercase};
use crate::transport::{
    base64_text, exporter_plan_of, grpc_metadata, http_headers, metadata_entries,
    metadata_key_ok, metadata_value_ok, Signal,
};
use crate::config::OtlpProtocol;
use crate::filter::{allow_list, allow_list_text, config_filter_text};
use crate::text::joined;

verus! {

// ── Exporter plans ─────────────────────────────────────────────────

/// Every exporter plan uses the configured timeout and protocol, whatever
/// the protocol and signal. Over HTTP the endpoint is the configured one
/// followed by `/v1/traces`, `/v1/logs` or `/v1/metrics`, without TLS, and
/// the credentials go as HTTP headers; over gRPC the endpoint is the
/// configured one, TLS is used exactly for `https://` endpoints, and the
/// credentials go as gRPC metadata.
pub proof fn exporter_plan_follows_config(c: ExporterSettings, s: Signal)
    ensures
        exporter_plan_of(c, s).timeout == c.timeout,
        exporter_plan_of(c, s).protocol == c.protocol,
        c.protocol == OtlpProtocol::Http ==> exporter_plan_of(c, s).endpoint == c.endpoint
            + match s {
            Signal::Traces => "/v1/traces"@,
            Signal::Logs => "/v1/logs"@,
            Signal::Metrics => "/v1/metrics"@,
        },
        c.protocol == OtlpProtocol::Http ==> !exporter_plan_of(c, s).use_tls,
        c.protocol == OtlpProtocol::Http ==> exporter_plan_of(c, s).metadata == http_headers(
            c.credentials,
        ),
        c.protocol == OtlpProtocol::Grpc ==> exporter_plan_of(c, s).endpoint == c.endpoint,
        c.protocol == OtlpProtocol::Grpc ==> (exporter_plan_of(c, s).use_tls <==> (8
            <= c.endpoint.len() && c.endpoint.take(8) == "https://"@)),
        c.protocol == OtlpProtocol::Grpc ==> exporter_plan_of(c, s).metadata == grpc_metadata(
            c.credentials,
        ),
{
    reveal_strlit("https://");
}

/// The three signals of one configuration are exported alike: same
/// protocol, timeout, TLS use and credentials; over gRPC also the same
/// endpoint.
pub proof fn signals_share_exporter_settings(c: ExporterSettings, s1: Signal, s2: Signal)
    ensures
        exporter_plan_of(c, s1).timeout == exporter_plan_of(c, s2).timeout,
        exporter_plan_of(c, s1).protocol == exporter_plan_of(c, s2).protocol,
        exporter_plan_of(c, s1).use_tls == exporter_plan_of(c, s2).use_tls,
        exporter_plan_of(c, s1).metadata == exporter_plan_of(c, s2).metadata,
        c.protocol == OtlpProtocol::Grpc ==> exporter_plan_of(c, s1).endpoint == exporter_plan_of(
            c,
            s2,
        ).endpoint,
{
}

// ── Credentials ────────────────────────────────────────────────────

/// A bearer token authorizes with `authorization: Bearer <token>`, over
/// HTTP always and over gRPC whenever that value can be metadata (else
/// nothing is sent).
pub proof fn bearer_token_authorizes(t: Seq<char>)
    ensures
        http_headers(Credentials::Bearer(t)) == Some(seq![("authorization"@, "Bearer "@ + t)]),
        metadata_value_ok("Bearer "@ + t) ==> grpc_metadata(Credentials::Bearer(t)) == Some(
            seq![("authorization"@, "Bearer "@ + t)],
        ),
        !metadata_value_ok("Bearer "@ + t) ==> grpc_metadata(Credentials::Bearer(t)) == Some(
            Seq::<(Seq<char>, Seq<char>)>::empty(),
        ),
{
    reveal_strlit("authorization");
    reveal_strlit("Bearer ");
}

/// User and password authorize with `authorization: Basic <base64 of
/// user:password>`, over HTTP always and over gRPC whenever that value can
/// be metadata (else nothing is sent).
pub proof fn basic_auth_authorizes(u: Seq<char>, p: Seq<char>)
    ensures
        http_headers(Credentials::Basic { username: u, password: p }) == Some(
            seq![("authorization"@, "Basic "@ + base64_text(u + ":"@ + p))],
        ),
        metadata_value_ok("Basic "@ + base64_text(u + ":"@ + p)) ==> grpc_metadata(
            Credentials::Basic { username: u, password: p },
        ) == Some(seq![("authorization"@, "Basic "@ + base64_text(u + ":"@ + p))]),
        !metadata_value_ok("Basic "@ + base64_text(u + ":"@ + p)) ==> grpc_metadata(
            Credentials::Basic { username: u, password: p },
        ) == Some(Seq::<(Seq<char>, Seq<char>)>::empty()),
{
    reveal_strlit("authorization");
    reveal_strlit("Basic ");
}

/// gRPC metadata carries what HTTP headers carry, less what metadata
/// cannot hold: no credentials give nothing on either; for a token or
/// user/password the single authorization entry is the HTTP one whenever
/// its value can be metadata; custom headers are kept exactly when their
/// name and value can be metadata.
pub proof fn grpc_metadata_is_carriable_http_headers(c: Credentials)
    ensures
        c is NoAuth ==> http_headers(c) is None && grpc_metadata(c) is None,
        !(c is NoAuth) ==> http_headers(c) is Some && grpc_metadata(c) is Some,
        (c is Bearer || c is Basic) ==> http_headers(c).unwrap().len() == 1,
        (c is Bearer || c is Basic) && metadata_value_ok(http_headers(c).unwrap()[0].1)
            ==> grpc_metadata(c) == http_headers(c),
        (c is Bearer || c is Basic) && !metadata_value_ok(http_headers(c).unwrap()[0].1)
            ==> grpc_metadata(c).unwrap().len() == 0,
        c matches Credentials::Headers(h) ==> http_headers(c) == Some(h),
        c matches Credentials::Headers(h) ==> forall|e: (Seq<char>, Seq<char>)|
            #[trigger] grpc_metadata(c).unwrap().contains(e) <==> (h.contains(e) && metadata_key_ok(
                e.0,
            ) && metadata_value_ok(e.1)),
{
    if let Credentials::Headers(h) = c {
        lemma_metadata_entries(h);
    }
}

/// The custom headers kept as metadata are those whose name and value
/// metadata can hold, and no others.
pub proof fn lemma_metadata_entries(h: Seq<(Seq<char>, Seq<char>)>)
    ensures
        metadata_entries(h).len() <= h.len(),
        forall|e: (Seq<char>, Seq<char>)| #[trigger]
            metadata_entries(h).contains(e) <==> (h.contains(e) && metadata_key_ok(e.0)
                && metadata_value_ok(e.1)),
    decreases h.len(),
{
    if h.len() > 0 {
        let t = h.drop_last();
        lemma_metadata_entries(t);
        assert(h =~= t.push(h.last()));
        assert forall|e: (Seq<char>, Seq<char>)| #[trigger]
            metadata_entries(h).contains(e) <==> (h.contains(e) && metadata_key_ok(e.0)
                && metadata_value_ok(e.1)) by {
            let before = metadata_entries(t);
            if metadata_key_ok(h.last().0) && metadata_value_ok(h.last().1) {
                if before.push(h.last()).contains(e) {
                    let i = choose|i: int| 0 <= i < before.push(h.last()).len() && before.push(h.last())[i] == e;
                    if i < before.len() {
                        assert(before.contains(e));
                    }
                }
                if before.contains(e) {
                    let i = choose|i: int| 0 <= i < before.len() && before[i] == e;
                    assert(before.push(h.last())[i] == e);
                }
                assert(before.push(h.last())[before.len() as int] == h.last());
            }
            if h.contains(e) {
                let i = choose|i: int| 0 <= i < h.len() && h[i] == e;
                if i < t.len() {
                    assert(t[i] == e);
                    assert(t.contains(e));
                }
            }
            if t.contains(e) {
                let i = choose|i: int| 0 <= i < t.len() && t[i] == e;
                assert(h[i] == e);
            }
            assert(h[h.len() - 1] == h.last());
        }
    } else {
        assert(metadata_entries(h) =~= Seq::<(Seq<char>, Seq<char>)>::empty());
    }
}

// ── Environment ────────────────────────────────────────────────────

/// The sampler read from the environment: `traceidratio` takes its ratio
/// from `OTEL_TRACES_SAMPLER_ARG`, and is `1.0` only when that is unset;
/// the other names select their sampler whatever the argument; an unset
/// or unknown name selects none. Names are compared lower-cased.
pub proof fn env_sampler_reads_name_and_argument(vars: EnvVars)
    ensures
        vars.sampler is None ==> env_settings(vars).sampler is None,
        vars.sampler matches Some(n) ==> {
            let l = unicode_lowercase(n@);
            &&& l == "traceidratio"@ ==> env_settings(vars).sampler == Some(
                SamplingStrategy::TraceIdRatio(
                    match vars.sampler_arg {
                        Some(b) => b,
                        None => RATIO_ONE,
                    },
                ),
            )
            &&& l == "always_on"@ ==> env_settings(vars).sampler == Some(SamplingStrategy::AlwaysOn)
            &&& l == "always_off"@ ==> env_settings(vars).sampler == Some(
                SamplingStrategy::AlwaysOff,
            )
            &&& (l == "parentbased_always_on"@ || l == "parentbased"@) ==> env_settings(
                vars,
            ).sampler == Some(SamplingStrategy::ParentBased)
            &&& (l != "traceidratio"@ && l != "always_on"@ && l != "always_off"@ && l
                != "parentbased_always_on"@ && l != "parentbased"@) ==> env_settings(
                vars,
            ).sampler is None
        },
        vars.sampler_arg matches Some(b) ==> (env_settings(vars).sampler matches Some(
            SamplingStrategy::TraceIdRatio(r),
        ) ==> r == b),
{
    reveal_strlit("traceidratio");
    reveal_strlit("always_on");
    reveal_strlit("always_off");
    reveal_strlit("parentbased_always_on");
    reveal_strlit("parentbased");
    // The five names have five different lengths.
    assert("always_on"@.len() == 9 && "always_off"@.len() == 10 && "parentbased"@.len() == 11
        && "traceidratio"@.len() == 12 && "parentbased_always_on"@.len() == 21);
}

/// The sampler argument matters only to `traceidratio`: with any other
/// name, setting or clearing it leaves the sampler unchanged.
pub proof fn sampler_argument_only_sets_ratio(vars: EnvVars, other: Option<u64>)
    ensures
        !(env_settings(vars).sampler matches Some(SamplingStrategy::TraceIdRatio(_)))
            ==> env_settings(EnvVars { sampler_arg: other, ..vars }).sampler == env_settings(
            vars,
        ).sampler,
{
}

/// Each environment value is read from its own variable: the service
/// name and endpoint as given, the protocol by its lower-cased name, the
/// headers as a `key=value` list and the timeout as a count of
/// milliseconds; an unset variable gives no value.
pub proof fn env_values_read_their_variables(vars: EnvVars)
    ensures
        env_settings(vars).service_name == opt_text(vars.service_name),
        env_settings(vars).endpoint == opt_text(vars.endpoint),
        vars.protocol is None ==> env_settings(vars).protocol is None,
        vars.protocol matches Some(p) ==> env_settings(vars).protocol == protocol_named(
            unicode_lowercase(p@),
        ),
        vars.headers is None ==> env_settings(vars).headers is None,
        vars.headers matches Some(raw) ==> env_settings(vars).headers == header_list(raw@),
        vars.timeout is None ==> env_settings(vars).timeout is None,
        vars.timeout matches Some(t) ==> env_settings(vars).timeout == match decimal_u64(t@) {
            Some(ms) => Some(milliseconds(ms)),
            None => None,
        },
{
}

// ── Builder precedence ─────────────────────────────────────────────

/// Whatever is set on the builder is used unchanged, whatever the
/// environment: identity, exporter, tracing and metrics configurations
/// (or their disabling), logging, console, level, format, allowed crates,
/// filters and attributes.
pub proof fn builder_values_used_unchanged(b: BuilderSettings, e: EnvSettings)
    ensures
        b.service_name matches Some(v) ==> resolved(b, e).service_name == v,
        b.service_version matches Some(v) ==> resolved(b, e).service_version == v,
        b.environment matches Some(v) ==> resolved(b, e).environment == v,
        resolved(b, e).service_namespace == b.service_namespace,
        resolved(b, e).service_instance_id == b.service_instance_id,
        b.exporter matches Some(x) ==> resolved(b, e).exporter == x,
        b.tracing matches Some(t) ==> resolved(b, e).tracing == t,
        b.metrics matches Some(m) ==> resolved(b, e).metrics == m,
        b.logging matches Some(v) ==> resolved(b, e).logging == v,
        b.enable_console_output matches Some(v) ==> resolved(b, e).enable_console_output == v,
        b.log_level matches Some(v) ==> resolved(b, e).log_level == v,
        b.output_format matches Some(v) ==> resolved(b, e).output_format == v,
        resolved(b, e).allowed_crates == b.allowed_crates,
        resolved(b, e).custom_filters == b.custom_filters,
        resolved(b, e).custom_attributes == b.custom_attributes,
{
}

/// What the builder leaves unset takes the defaults: version `0.0.0`,
/// environment `development`, logging and console output on, level
/// `info`, pretty output, default metrics; tracing stays on with the
/// environment's sampler, or always-on without one.
pub proof fn unset_builder_values_take_defaults(b: BuilderSettings, e: EnvSettings)
    ensures
        b.service_version is None ==> resolved(b, e).service_version == "0.0.0"@,
        b.environment is None ==> resolved(b, e).environment == "development"@,
        b.logging is None ==> resolved(b, e).logging,
        b.enable_console_output is None ==> resolved(b, e).enable_console_output,
        b.log_level is None ==> resolved(b, e).log_level == LogLevel::Info,
        b.output_format is None ==> resolved(b, e).output_format == OutputFormat::Pretty,
        b.metrics is None ==> resolved(b, e).metrics == Some(default_metrics()),
        b.tracing is None ==> resolved(b, e).tracing is Some,
        b.tracing is None ==> (e.sampler matches Some(s) ==> resolved(b, e).tracing.unwrap().sampling
            == s),
        b.tracing is None && e.sampler is None ==> resolved(b, e).tracing.unwrap().sampling
            == SamplingStrategy::AlwaysOn,
{
}

/// Only the service name, the exporter and the tracing sampler depend on
/// the environment: every other resolved value is the same in any two
/// environments.
pub proof fn environment_touches_only_name_exporter_sampler(
    b: BuilderSettings,
    e1: EnvSettings,
    e2: EnvSettings,
)
    ensures
        resolved(b, e1).service_version == resolved(b, e2).service_version,
        resolved(b, e1).environment == resolved(b, e2).environment,
        resolved(b, e1).service_namespace == resolved(b, e2).service_namespace,
        resolved(b, e1).service_instance_id == resolved(b, e2).service_instance_id,
        resolved(b, e1).logging == resolved(b, e2).logging,
        resolved(b, e1).metrics == resolved(b, e2).metrics,
        resolved(b, e1).enable_console_output == resolved(b, e2).enable_console_output,
        resolved(b, e1).log_level == resolved(b, e2).log_level,
        resolved(b, e1).output_format == resolved(b, e2).output_format,
        b.tracing is Some ==> resolved(b, e1).tracing == resolved(b, e2).tracing,
{
}

// ── Resource ───────────────────────────────────────────────────────

/// The resource holds the version and environment first, then the
/// namespace and the instance id when they are set, each under its OTel
/// key, then the custom attributes as given.
pub proof fn resource_holds_identity(c: OtelSettings)
    ensures
        ({
            let r = resource_attributes_of(c);
            let ns: int = if c.service_namespace is Some { 1 } else { 0 };
            let id: int = if c.service_instance_id is Some { 1 } else { 0 };
            &&& r.len() == 2 + ns + id + c.custom_attributes.len()
            &&& r[0] == ("service.version"@, c.service_version)
            &&& r[1] == ("deployment.environment.name"@, c.environment)
            &&& c.service_namespace matches Some(n) ==> r[2] == ("service.namespace"@, n)
            &&& c.service_instance_id matches Some(i) ==> r[2 + ns] == ("service.instance.id"@, i)
            &&& r.skip(2 + ns + id) == c.custom_attributes
        }),
        c.service_namespace matches Some(n) ==> resource_attributes_of(c).contains(
            ("service.namespace"@, n),
        ),
        c.service_instance_id matches Some(i) ==> resource_attributes_of(c).contains(
            ("service.instance.id"@, i),
        ),
{
    let r = resource_attributes_of(c);
    let ns: int = if c.service_namespace is Some { 1 } else { 0 };
    let id: int = if c.service_instance_id is Some { 1 } else { 0 };
    assert(r.skip(2 + ns + id) =~= c.custom_attributes);
    if let Some(n) = c.service_namespace {
        assert(r[2] == ("service.namespace"@, n));
    }
    if let Some(i) = c.service_instance_id {
        assert(r[2 + ns] == ("service.instance.id"@, i));
    }
}

// ── Filters ────────────────────────────────────────────────────────

/// An allow-list filter string is `off`, then `name=level` for each
/// allowed crate in order, then the raw directives in order, joined by
/// commas.
pub proof fn allow_list_text_lists_entries(
    allowed: Seq<(Seq<char>, Seq<char>)>,
    directives: Seq<Seq<char>>,
    parts: Seq<Seq<char>>,
)
    requires
        parts.len() == 1 + allowed.len() + directives.len(),
        parts[0] == "off"@,
        forall|i: int| 0 <= i < allowed.len() ==> parts[1 + i] == allowed[i].0 + "="@ + allowed[i].1,
        forall|j: int|
            0 <= j < directives.len() ==> parts[1 + allowed.len() + j] == directives[j],
    ensures
        allow_list_text(allowed, directives) == joined(parts, ","@),
{
    let l = allow_list(allowed, directives);
    assert forall|k: int| 0 <= k < parts.len() implies parts[k] == l[k] by {
        if 1 <= k < 1 + allowed.len() {
            assert(parts[1 + (k - 1)] == allowed[k - 1].0 + "="@ + allowed[k - 1].1);
        } else if k >= 1 + allowed.len() {
            assert(parts[1 + allowed.len() + (k - 1 - allowed.len())] == directives[k - 1
                - allowed.len()]);
        }
    }
    assert(parts =~= l);
}

/// The filter string of a configuration allows each of its crates at
/// the configured level, then applies its custom filters.
pub proof fn config_filter_allows_at_config_level(c: OtelSettings, parts: Seq<Seq<char>>)
    requires
        parts.len() == 1 + c.allowed_crates.len() + c.custom_filters.len(),
        parts[0] == "off"@,
        forall|i: int|
            0 <= i < c.allowed_crates.len() ==> parts[1 + i] == c.allowed_crates[i] + "="@
                + c.log_level.name(),
        forall|j: int|
            0 <= j < c.custom_filters.len() ==> parts[1 + c.allowed_crates.len() + j]
                == c.custom_filters[j],
    ensures
        config_filter_text(c) == joined(parts, ","@),
{
    let pairs = Seq::new(
        c.allowed_crates.len(),
        |i: int| (c.allowed_crates[i], c.log_level.name()),
    );
    allow_list_text_lists_entries(pairs, c.custom_filters, parts);
}

// ── Initialization plan ────────────────────────────────────────────

/// Initialization builds, for each enabled signal, an exporter with the
/// configuration's protocol, timeout and credentials; traces use the
/// configured sampler and batch settings, metrics the configured interval.
pub proof fn init_plan_uses_config(p: InitPlan, c: OtelSettings)
    requires
        plans(p, c),
    ensures
        p.service_name@ == c.service_name,
        (p.tracing is Some <==> c.tracing is Some),
        (p.logs is Some <==> c.logging),
        (p.metrics is Some <==> c.metrics is Some),
        (p.console is Some <==> c.enable_console_output),
        p.console matches Some(f) ==> f == c.output_format,
        p.tracing matches Some(t) ==> {
            &&& t.sampling == c.tracing.unwrap().sampling
            &&& t.batch_schedule_delay == c.tracing.unwrap().batch_schedule_delay
            &&& t.max_export_batch_size == c.tracing.unwrap().max_export_batch_size
            &&& t.max_queue_size == c.tracing.unwrap().max_queue_size
            &&& t.exporter.timeout == c.exporter.timeout
            &&& t.exporter.protocol == c.exporter.protocol
        },
        p.logs matches Some(l) ==> l.timeout == c.exporter.timeout && l.protocol
            == c.exporter.protocol,
        p.metrics matches Some(m) ==> m.export_interval == c.metrics.unwrap().export_interval
            && m.exporter.timeout == c.exporter.timeout && m.exporter.protocol
            == c.exporter.protocol,
        c.service_namespace matches Some(n) ==> crate::text::text_pairs(
            p.resource_attributes@,
        ).contains(("service.namespace"@, n)),
{
    exporter_plan_follows_config(c.exporter, Signal::Traces);
    exporter_plan_follows_config(c.exporter, Signal::Logs);
    exporter_plan_follows_config(c.exporter, Signal::Metrics);
    resource_holds_identity(c);
}

} // verus!

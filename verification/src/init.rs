//! What initialization builds from a resolved configuration: the
//! resource, the log filter, the console layer, and the trace, log and
//! metric exporters.

use std::time::Duration;

use vstd::prelude::*;

use crate::config::{OtelConfig, OtelSettings, OutputFormat, SamplingStrategy};
use crate::text::{lemma_text_pairs_push, text_pairs};
use crate::error::{OtelError, OtelResult};
use crate::filter::{config_filter_string, config_filter_text};
use crate::transport::{encodable, exporter_plan, exporter_plan_of, ExporterPlan, PlanSettings, Signal};

verus! {

/// The resource attributes besides the service name, in order: version,
/// deployment environment, namespace and instance id when set, then the
/// custom attributes.
pub open spec fn resource_attributes_of(c: OtelSettings) -> Seq<(Seq<char>, Seq<char>)> {
    seq![("service.version"@, c.service_version), ("deployment.environment.name"@, c.environment)]
        + match c.service_namespace {
        Some(ns) => seq![("service.namespace"@, ns)],
        None => Seq::empty(),
    } + match c.service_instance_id {
        Some(id) => seq![("service.instance.id"@, id)],
        None => Seq::empty(),
    } + c.custom_attributes
}

/// The resource attributes of a configuration.
pub fn resource_attributes(config: &OtelConfig) -> (v: Vec<(String, String)>)
    ensures
        text_pairs(v@) == resource_attributes_of(config@),
{
    let ghost c = config@;
    let mut v: Vec<(String, String)> = Vec::new();
    v.push(("service.version".to_owned(), config.service_version.clone()));
    v.push(("deployment.environment.name".to_owned(), config.environment.clone()));
    let ghost mut expected = seq![
        ("service.version"@, c.service_version),
        ("deployment.environment.name"@, c.environment),
    ];
    assert(text_pairs(v@) =~= expected);
    match &config.service_namespace {
        Some(ns) => {
            let p = ("service.namespace".to_owned(), ns.clone());
            proof {
                lemma_text_pairs_push(v@, p);
                expected = expected.push(("service.namespace"@, ns@));
            }
            v.push(p);
        },
        None => {},
    }
    match &config.service_instance_id {
        Some(id) => {
            let p = ("service.instance.id".to_owned(), id.clone());
            proof {
                lemma_text_pairs_push(v@, p);
                expected = expected.push(("service.instance.id"@, id@));
            }
            v.push(p);
        },
        None => {},
    }
    let ghost base = expected;
    assert(base =~= seq![("service.version"@, c.service_version), ("deployment.environment.name"@, c.environment)]
        + match c.service_namespace {
        Some(ns) => seq![("service.namespace"@, ns)],
        None => Seq::empty(),
    } + match c.service_instance_id {
        Some(id) => seq![("service.instance.id"@, id)],
        None => Seq::empty(),
    });
    let n = config.custom_attributes.len();
    let mut i: usize = 0;
    while i < n
        invariant
            n == config.custom_attributes@.len(),
            c == config@,
            i <= n,
            text_pairs(v@) == base + c.custom_attributes.take(i as int),
        decreases n - i,
    {
        let p = (config.custom_attributes[i].0.clone(), config.custom_attributes[i].1.clone());
        proof {
            lemma_text_pairs_push(v@, p);
            assert(base + c.custom_attributes.take(i + 1) =~= (base + c.custom_attributes.take(
                i as int,
            )).push((p.0@, p.1@)));
        }
        v.push(p);
        i = i + 1;
    }
    assert(c.custom_attributes.take(n as int) =~= c.custom_attributes);
    v
}

/// How metrics are exported.
#[derive(Debug, Clone)]
pub struct MetricsPlan {
    /// Interval of the periodic reader.
    pub export_interval: Duration,
    /// The metric exporter.
    pub exporter: ExporterPlan,
}

/// The metrics plan of a configuration, refused when metrics are disabled.
pub fn metrics_plan(config: &OtelConfig) -> (r: OtelResult<MetricsPlan>)
    requires
        encodable(config@.exporter.credentials),
    ensures
        r is Ok <==> config.metrics is Some,
        r matches Ok(p) ==> p.export_interval == config.metrics.unwrap().export_interval
            && p.exporter@ == exporter_plan_of(config@.exporter, Signal::Metrics),
        r matches Err(e) ==> (e matches OtelError::Configuration(m) && m@
            == "metrics not configured"@),
{
    match &config.metrics {
        Some(m) => Ok(
            MetricsPlan {
                export_interval: m.export_interval,
                exporter: exporter_plan(&config.exporter, Signal::Metrics),
            },
        ),
        None => Err(OtelError::config("metrics not configured")),
    }
}

/// How traces are exported.
#[derive(Debug, Clone)]
pub struct TracePlan {
    /// Sampler of the tracer provider.
    pub sampling: SamplingStrategy,
    /// Delay between batch exports.
    pub batch_schedule_delay: Duration,
    /// Maximum number of spans per export batch.
    pub max_export_batch_size: usize,
    /// Maximum number of spans queued for export.
    pub max_queue_size: usize,
    /// The span exporter.
    pub exporter: ExporterPlan,
}

/// Everything initialization builds, in the order in which it builds it.
#[derive(Debug, Clone)]
pub struct InitPlan {
    /// Service name of the resource and name of the tracer.
    pub service_name: String,
    /// Further resource attributes.
    pub resource_attributes: Vec<(String, String)>,
    /// Allow-list filter string (used unless `RUST_LOG` is set).
    pub filter_directives: String,
    /// Console layer format, `None` without console output.
    pub console: Option<OutputFormat>,
    /// Trace export, `None` when tracing is disabled.
    pub tracing: Option<TracePlan>,
    /// Log export, `None` when log export is disabled.
    pub logs: Option<ExporterPlan>,
    /// Metrics export, `None` when metrics are disabled.
    pub metrics: Option<MetricsPlan>,
}

/// `plan` is what initialization builds for `c`: the resource of its
/// identity, its allow-list filter, a console layer in its format when
/// console output is on, and one exporter plan per enabled signal; trace
/// export uses the configured sampler and batch settings.
pub open spec fn plans(plan: InitPlan, c: OtelSettings) -> bool {
    &&& plan.service_name@ == c.service_name
    &&& text_pairs(plan.resource_attributes@) == resource_attributes_of(c)
    &&& plan.filter_directives@ == config_filter_text(c)
    &&& plan.console == (if c.enable_console_output {
        Some(c.output_format)
    } else {
        None
    })
    &&& (plan.tracing is Some <==> c.tracing is Some)
    &&& (plan.tracing matches Some(t) ==> t.sampling == c.tracing.unwrap().sampling
        && t.batch_schedule_delay == c.tracing.unwrap().batch_schedule_delay
        && t.max_export_batch_size == c.tracing.unwrap().max_export_batch_size
        && t.max_queue_size == c.tracing.unwrap().max_queue_size
        && t.exporter@ == exporter_plan_of(c.exporter, Signal::Traces))
    &&& (plan.logs is Some <==> c.logging)
    &&& (plan.logs matches Some(l) ==> l@ == exporter_plan_of(c.exporter, Signal::Logs))
    &&& (plan.metrics is Some <==> c.metrics is Some)
    &&& (plan.metrics matches Some(m) ==> m.export_interval == c.metrics.unwrap().export_interval
        && m.exporter@ == exporter_plan_of(c.exporter, Signal::Metrics))
}

impl InitPlan {
    /// Plan the initialization of a configuration.
    pub fn new(config: &OtelConfig) -> (p: InitPlan)
        requires
            encodable(config@.exporter.credentials),
        ensures
            plans(p, config@),
    {
        let console = if config.enable_console_output {
            Some(config.output_format)
        } else {
            None
        };
        let tracing = match &config.tracing {
            Some(tc) => Some(
                TracePlan {
                    sampling: tc.sampling,
                    batch_schedule_delay: tc.batch_schedule_delay,
                    max_export_batch_size: tc.max_export_batch_size,
                    max_queue_size: tc.max_queue_size,
                    exporter: exporter_plan(&config.exporter, Signal::Traces),
                },
            ),
            None => None,
        };
        let logs = if config.logging {
            Some(exporter_plan(&config.exporter, Signal::Logs))
        } else {
            None
        };
        let metrics = match metrics_plan(config) {
            Ok(m) => Some(m),
            Err(_) => None,
        };
        InitPlan {
            service_name: config.service_name.clone(),
            resource_attributes: resource_attributes(config),
            filter_directives: config_filter_string(config),
            console,
            tracing,
            logs,
            metrics,
        }
    }
}

} // verus!

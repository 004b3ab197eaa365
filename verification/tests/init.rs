use std::time::Duration;

use otel_rs::init::{metrics_plan, resource_attributes};
use otel_rs::{
    EnvConfig, ExporterConfig, InitPlan, OtelConfig, OtelError, OtlpProtocol, OutputFormat,
    SamplingStrategy,
};

#[test]
fn resource_attributes_in_order() {
    let c = OtelConfig::builder()
        .service_version("1.2.3")
        .environment("prod")
        .instance_id("i-1")
        .attribute("region", "eu")
        .build(EnvConfig::empty());
    assert_eq!(
        resource_attributes(&c),
        vec![
            ("service.version".to_string(), "1.2.3".to_string()),
            ("deployment.environment.name".to_string(), "prod".to_string()),
            ("service.instance.id".to_string(), "i-1".to_string()),
            ("region".to_string(), "eu".to_string()),
        ]
    );
}

#[test]
fn default_plan_enables_everything() {
    let c = OtelConfig::builder()
        .service_name("svc")
        .allow_crate("svc")
        .build(EnvConfig::empty());
    let p = InitPlan::new(&c);
    assert_eq!(p.service_name, "svc");
    assert_eq!(p.filter_directives, "off,svc=info");
    assert_eq!(p.console, Some(OutputFormat::Pretty));
    let t = p.tracing.unwrap();
    assert!(matches!(t.sampling, SamplingStrategy::AlwaysOn));
    assert_eq!(t.batch_schedule_delay, Duration::from_secs(5));
    assert_eq!(t.max_export_batch_size, 512);
    assert_eq!(t.max_queue_size, 2048);
    assert_eq!(t.exporter.endpoint, "http://localhost:4317");
    assert!(p.logs.is_some());
    let m = p.metrics.unwrap();
    assert_eq!(m.export_interval, Duration::from_secs(60));
}

#[test]
fn trace_plan_carries_batch_settings() {
    let c = OtelConfig::builder()
        .tracing(
            otel_rs::TracingConfig::builder()
                .batch_schedule_delay(Duration::from_millis(200))
                .max_export_batch_size(64)
                .max_queue_size(256)
                .build(),
        )
        .build(EnvConfig::empty());
    let t = InitPlan::new(&c).tracing.unwrap();
    assert_eq!(t.batch_schedule_delay, Duration::from_millis(200));
    assert_eq!(t.max_export_batch_size, 64);
    assert_eq!(t.max_queue_size, 256);
}

#[test]
fn disabled_signals_are_not_planned() {
    let c = OtelConfig::builder()
        .disable_tracing()
        .disable_metrics()
        .logging(false)
        .console_output(false)
        .exporter(ExporterConfig::builder().protocol(OtlpProtocol::Http).build())
        .build(EnvConfig::empty());
    let p = InitPlan::new(&c);
    assert!(p.tracing.is_none());
    assert!(p.logs.is_none());
    assert!(p.metrics.is_none());
    assert!(p.console.is_none());
    match metrics_plan(&c) {
        Err(OtelError::Configuration(m)) => assert_eq!(m, "metrics not configured"),
        _ => panic!("expected a configuration error"),
    }
}

use std::time::Duration;

use otel_rs::{
    EnvConfig, ExporterConfig, HeaderMap, LogLevel, MetricsConfig, OtelConfig, OtlpCredentials,
    OtlpProtocol, OutputFormat, SamplingStrategy, TracingConfig,
};

#[test]
fn builder_defaults() {
    let config = OtelConfig::builder().build(EnvConfig::empty());
    assert_eq!(config.service_name, "unknown-service");
    assert!(config.tracing.is_some());
    assert!(config.logging);
    assert!(config.metrics.is_some());
    assert!(config.enable_console_output);
}

#[test]
fn builder_with_service_info() {
    let config = OtelConfig::builder()
        .service_name("test-svc")
        .service_version("1.0.0")
        .environment("test")
        .build(EnvConfig::empty());

    assert_eq!(config.service_name, "test-svc");
    assert_eq!(config.service_version, "1.0.0");
    assert_eq!(config.environment, "test");
}

#[test]
fn builder_with_exporter() {
    let config = OtelConfig::builder()
        .exporter(
            ExporterConfig::builder()
                .endpoint("https://otel.example.com:4317")
                .bearer_token("my-token")
                .build(),
        )
        .build(EnvConfig::empty());

    assert_eq!(config.exporter.endpoint, "https://otel.example.com:4317");
    assert!(matches!(
        config.exporter.credentials,
        OtlpCredentials::Bearer(_)
    ));
}

#[test]
fn builder_disable_tracing() {
    let config = OtelConfig::builder().disable_tracing().build(EnvConfig::empty());
    assert!(config.tracing.is_none());
}

#[test]
fn builder_disable_metrics() {
    let config = OtelConfig::builder().disable_metrics().build(EnvConfig::empty());
    assert!(config.metrics.is_none());
}

#[test]
fn exporter_header_accumulation() {
    let exp = ExporterConfig::builder()
        .header("x-api-key", "abc")
        .header("x-team", "eng")
        .build();

    match exp.credentials {
        OtlpCredentials::Headers(h) => {
            assert_eq!(h.get("x-api-key").unwrap(), "abc");
            assert_eq!(h.get("x-team").unwrap(), "eng");
        }
        _ => panic!("expected Headers"),
    }
}

#[test]
fn protocol_parsing() {
    assert_eq!("grpc".parse::<OtlpProtocol>().unwrap(), OtlpProtocol::Grpc);
    assert_eq!("http".parse::<OtlpProtocol>().unwrap(), OtlpProtocol::Http);
    assert_eq!(
        "http/protobuf".parse::<OtlpProtocol>().unwrap(),
        OtlpProtocol::Http
    );
    assert!("invalid".parse::<OtlpProtocol>().is_err());
}

#[test]
fn log_level_parsing() {
    assert_eq!("info".parse::<LogLevel>().unwrap(), LogLevel::Info);
    assert_eq!("WARNING".parse::<LogLevel>().unwrap(), LogLevel::Warn);
    assert!("invalid".parse::<LogLevel>().is_err());
}

#[test]
fn log_level_ordering() {
    assert!(LogLevel::Trace < LogLevel::Debug);
    assert!(LogLevel::Debug < LogLevel::Info);
    assert!(LogLevel::Info < LogLevel::Warn);
    assert!(LogLevel::Warn < LogLevel::Error);
}

#[test]
fn protocol_parse_ignores_case_and_names_refused_text() {
    assert_eq!(OtlpProtocol::parse("GRPC"), Ok(OtlpProtocol::Grpc));
    assert_eq!(OtlpProtocol::parse("HTTP/Protobuf"), Ok(OtlpProtocol::Http));
    assert_eq!(
        OtlpProtocol::parse("WebSocket"),
        Err("unknown OTLP protocol: websocket".to_string())
    );
    assert_eq!(
        LogLevel::parse("Verbose"),
        Err("unknown log level: verbose".to_string())
    );
}

#[test]
fn names_round_trip() {
    for p in [OtlpProtocol::Grpc, OtlpProtocol::Http] {
        assert_eq!(OtlpProtocol::parse(p.as_str()), Ok(p));
    }
    for l in [
        LogLevel::Trace,
        LogLevel::Debug,
        LogLevel::Info,
        LogLevel::Warn,
        LogLevel::Error,
    ] {
        assert_eq!(LogLevel::parse(l.as_str()), Ok(l));
    }
    assert_eq!(OtlpProtocol::Grpc.as_str(), "grpc");
    assert_eq!(LogLevel::Warn.as_str(), "warn");
}

#[test]
fn enum_defaults() {
    assert_eq!(OtlpProtocol::default(), OtlpProtocol::Grpc);
    assert_eq!(LogLevel::default(), LogLevel::Info);
    assert_eq!(OutputFormat::default(), OutputFormat::Pretty);
    assert!(matches!(SamplingStrategy::default(), SamplingStrategy::AlwaysOn));
    assert!(matches!(OtlpCredentials::default(), OtlpCredentials::NoAuth));
}

#[test]
fn exporter_defaults() {
    let exp = ExporterConfig::default();
    assert_eq!(exp.endpoint, "http://localhost:4317");
    assert_eq!(exp.protocol, OtlpProtocol::Grpc);
    assert_eq!(exp.timeout, Duration::from_secs(10));
    assert!(matches!(exp.credentials, OtlpCredentials::NoAuth));
}

#[test]
fn credentials_replace_each_other() {
    let exp = ExporterConfig::builder()
        .header("x-a", "1")
        .bearer_token("tok")
        .build();
    assert!(matches!(exp.credentials, OtlpCredentials::Bearer(ref t) if t == "tok"));

    let exp = ExporterConfig::builder()
        .bearer_token("tok")
        .header("x-a", "1")
        .build();
    match exp.credentials {
        OtlpCredentials::Headers(h) => {
            assert_eq!(h.len(), 1);
            assert_eq!(h.get("x-a").unwrap(), "1");
        }
        _ => panic!("expected Headers"),
    }

    let exp = ExporterConfig::builder()
        .basic_auth("user", "pass")
        .build();
    assert!(matches!(
        exp.credentials,
        OtlpCredentials::Basic { ref username, ref password } if username == "user" && password == "pass"
    ));
}

#[test]
fn repeated_header_name_takes_new_value_in_place() {
    let exp = ExporterConfig::builder()
        .header("x-a", "1")
        .header("x-b", "2")
        .header("x-a", "3")
        .build();
    match exp.credentials {
        OtlpCredentials::Headers(h) => {
            assert_eq!(
                h.to_vec(),
                vec![
                    ("x-a".to_string(), "3".to_string()),
                    ("x-b".to_string(), "2".to_string())
                ]
            );
            assert!(h.get("x-c").is_none());
        }
        _ => panic!("expected Headers"),
    }
}

#[test]
fn headers_replace_credentials() {
    let mut map = HeaderMap::new();
    map.insert("k".to_string(), "v".to_string());
    let exp = ExporterConfig::builder()
        .bearer_token("t")
        .headers(map)
        .build();
    match exp.credentials {
        OtlpCredentials::Headers(h) => assert_eq!(h.get("k").unwrap(), "v"),
        _ => panic!("expected Headers"),
    }
}

#[test]
fn exporter_builder_setters() {
    let exp = ExporterConfig::builder()
        .endpoint("http://collector:4318")
        .protocol(OtlpProtocol::Http)
        .timeout(Duration::from_secs(30))
        .build();
    assert_eq!(exp.endpoint, "http://collector:4318");
    assert_eq!(exp.protocol, OtlpProtocol::Http);
    assert_eq!(exp.timeout, Duration::from_secs(30));
}

#[test]
fn tracing_builder_defaults_and_setters() {
    let t = TracingConfig::builder().build();
    assert!(matches!(t.sampling, SamplingStrategy::AlwaysOn));
    assert!(t.record_exceptions);
    assert_eq!(t.exception_field_limit, 1024);
    assert_eq!(t.batch_schedule_delay, Duration::from_secs(5));
    assert_eq!(t.max_export_batch_size, 512);
    assert_eq!(t.max_queue_size, 2048);

    let ratio = 0.1f64.to_bits();
    let t = TracingConfig::builder()
        .sampling(SamplingStrategy::TraceIdRatio(ratio))
        .record_exceptions(false)
        .exception_field_limit(10)
        .batch_schedule_delay(Duration::from_millis(250))
        .max_export_batch_size(64)
        .max_queue_size(128)
        .build();
    assert!(matches!(t.sampling, SamplingStrategy::TraceIdRatio(b) if f64::from_bits(b) == 0.1));
    assert!(!t.record_exceptions);
    assert_eq!(t.exception_field_limit, 10);
    assert_eq!(t.batch_schedule_delay, Duration::from_millis(250));
    assert_eq!(t.max_export_batch_size, 64);
    assert_eq!(t.max_queue_size, 128);
}

#[test]
fn metrics_builder_defaults_and_setters() {
    assert_eq!(MetricsConfig::builder().build().export_interval, Duration::from_secs(60));
    let m = MetricsConfig::builder()
        .export_interval(Duration::from_secs(30))
        .build();
    assert_eq!(m.export_interval, Duration::from_secs(30));
}

#[test]
fn otel_config_default_matches_unset_builder() {
    let d = OtelConfig::default();
    let b = OtelConfig::builder().build(EnvConfig::empty());
    assert_eq!(d.service_name, b.service_name);
    assert_eq!(d.service_version, "0.0.0");
    assert_eq!(b.service_version, "0.0.0");
    assert_eq!(d.environment, "development");
    assert_eq!(b.environment, "development");
    assert_eq!(b.exporter.endpoint, "http://localhost:4317");
    assert_eq!(b.exporter.timeout, Duration::from_secs(10));
    assert_eq!(b.log_level, LogLevel::Info);
    assert_eq!(b.output_format, OutputFormat::Pretty);
    assert!(b.allowed_crates.is_empty());
    assert!(b.service_namespace.is_none());
}

fn sample_env() -> EnvConfig {
    let mut headers = HeaderMap::new();
    headers.insert("x-env".to_string(), "1".to_string());
    EnvConfig {
        service_name: Some("env-svc".to_string()),
        endpoint: Some("http://env:4317".to_string()),
        protocol: Some(OtlpProtocol::Http),
        headers: Some(headers),
        timeout: Some(Duration::from_millis(1500)),
        sampler: Some(SamplingStrategy::AlwaysOff),
    }
}

#[test]
fn env_values_fill_unset_fields() {
    let c = OtelConfig::builder().build(sample_env());
    assert_eq!(c.service_name, "env-svc");
    assert_eq!(c.exporter.endpoint, "http://env:4317");
    assert_eq!(c.exporter.protocol, OtlpProtocol::Http);
    assert_eq!(c.exporter.timeout, Duration::from_millis(1500));
    match &c.exporter.credentials {
        OtlpCredentials::Headers(h) => assert_eq!(h.get("x-env").unwrap(), "1"),
        _ => panic!("expected Headers"),
    }
    assert!(matches!(
        c.tracing.as_ref().unwrap().sampling,
        SamplingStrategy::AlwaysOff
    ));
}

#[test]
fn builder_values_win_over_env() {
    let c = OtelConfig::builder()
        .service_name("mine")
        .exporter(ExporterConfig::builder().endpoint("http://mine:4317").build())
        .tracing(TracingConfig::builder().build())
        .build(sample_env());
    assert_eq!(c.service_name, "mine");
    // An exporter set on the builder is taken whole: no env value leaks in.
    assert_eq!(c.exporter.endpoint, "http://mine:4317");
    assert_eq!(c.exporter.protocol, OtlpProtocol::Grpc);
    assert_eq!(c.exporter.timeout, Duration::from_secs(10));
    assert!(matches!(c.exporter.credentials, OtlpCredentials::NoAuth));
    // A tracing config set on the builder keeps its own sampler.
    assert!(matches!(
        c.tracing.as_ref().unwrap().sampling,
        SamplingStrategy::AlwaysOn
    ));
}

#[test]
fn builder_collects_lists_in_order() {
    let c = OtelConfig::builder()
        .allow_crate("a")
        .allow_crates(&["b", "c"])
        .custom_filter("hyper=warn")
        .attribute("k1", "v1")
        .attribute("k2", "v2")
        .namespace("ns")
        .instance_id("id-1")
        .logging(false)
        .console_output(false)
        .log_level(LogLevel::Debug)
        .output_format(OutputFormat::Json)
        .metrics(MetricsConfig::builder().export_interval(Duration::from_secs(5)).build())
        .build(EnvConfig::empty());
    assert_eq!(c.allowed_crates, vec!["a", "b", "c"]);
    assert_eq!(c.custom_filters, vec!["hyper=warn"]);
    assert_eq!(
        c.custom_attributes,
        vec![
            ("k1".to_string(), "v1".to_string()),
            ("k2".to_string(), "v2".to_string())
        ]
    );
    assert_eq!(c.service_namespace.as_deref(), Some("ns"));
    assert_eq!(c.service_instance_id.as_deref(), Some("id-1"));
    assert!(!c.logging);
    assert!(!c.enable_console_output);
    assert_eq!(c.log_level, LogLevel::Debug);
    assert_eq!(c.output_format, OutputFormat::Json);
    assert_eq!(c.metrics.unwrap().export_interval, Duration::from_secs(5));
}

#[test]
fn parsing_ignores_ascii_case() {
    for s in ["GRPC", "Http", "HTTP/PROTOBUF", "Smtp"] {
        assert_eq!(OtlpProtocol::parse(s), OtlpProtocol::parse(&s.to_lowercase()));
    }
    assert_eq!(
        OtlpProtocol::parse("Smtp"),
        Err("unknown OTLP protocol: smtp".to_string())
    );
    for s in ["TRACE", "Debug", "WaRn", "Loud"] {
        assert_eq!(s.parse::<LogLevel>(), s.to_lowercase().parse::<LogLevel>());
    }
}

#[test]
fn header_map_keeps_one_entry_per_name() {
    let mut map = HeaderMap::new();
    map.insert("a".to_string(), "1".to_string());
    map.insert("b".to_string(), "2".to_string());
    map.insert("a".to_string(), "3".to_string());
    map.assert_names_distinct();
    assert_eq!(map.len(), 2);
    assert_eq!(map.get("a").unwrap(), "3");
    assert_eq!(map.get("b").unwrap(), "2");
}

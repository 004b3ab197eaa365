use otel_rs::{ErrorContext, OtelError};

#[test]
fn error_display() {
    let err = OtelError::UnknownProtocol("websocket".into());
    assert!(err.message().contains("websocket"));
}

#[test]
fn config_error() {
    let err = OtelError::config("bad endpoint");
    assert!(err.message().contains("bad endpoint"));
}

#[test]
fn error_messages() {
    assert_eq!(
        OtelError::UnknownProtocol("ws".into()).message(),
        "unknown OTLP protocol: ws (supported: 'grpc', 'http')"
    );
    assert_eq!(OtelError::init("boom").message(), "initialization error: boom");
    assert_eq!(
        OtelError::MetricsShutdown("late".into()).message(),
        "metrics shutdown error: late"
    );
    assert_eq!(
        OtelError::SubscriberAlreadySet.message(),
        "tracing subscriber already initialized — only one can be set globally"
    );
}

#[test]
fn context_wraps_errors_and_passes_values() {
    let ok: Result<u8, std::fmt::Error> = Ok(3);
    assert!(matches!(ok.context("reading"), Ok(3)));
    let err: Result<u8, std::fmt::Error> = Err(std::fmt::Error);
    match err.context("reading") {
        Err(OtelError::Initialization(m)) => {
            assert_eq!(m, "reading: an error occurred when formatting an argument")
        }
        _ => panic!("expected Initialization"),
    }
    let err: Result<u8, std::fmt::Error> = Err(std::fmt::Error);
    match err.with_context(|| "lazy".to_string()) {
        Err(OtelError::Initialization(m)) => assert!(m.starts_with("lazy: ")),
        _ => panic!("expected Initialization"),
    }
}

#[test]
fn exporter_build_errors_convert_and_carry_their_text() {
    let e = OtelError::from(opentelemetry_otlp::ExporterBuildError::InvalidConfiguration(
        "endpoint: bad".to_string(),
    ));
    assert!(matches!(e, OtelError::ExporterBuildError(_)));
    assert_eq!(
        e.message(),
        "OTLP exporter build error: invalid exporter configuration: endpoint: bad"
    );
}

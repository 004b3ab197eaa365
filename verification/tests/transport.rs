use std::time::Duration;

use otel_rs::transport::{grpc_credential_metadata, http_credential_headers};
use otel_rs::{exporter_plan, ExporterConfig, OtlpCredentials, OtlpProtocol, Signal};

fn pairs(v: &[(&str, &str)]) -> Vec<(String, String)> {
    v.iter().map(|(a, b)| (a.to_string(), b.to_string())).collect()
}

#[test]
fn basic_auth_is_base64_of_user_and_password() {
    let c = ExporterConfig::builder().basic_auth("user", "pass").build();
    assert_eq!(
        http_credential_headers(&c.credentials),
        Some(pairs(&[("authorization", "Basic dXNlcjpwYXNz")]))
    );
    assert_eq!(
        grpc_credential_metadata(&c.credentials),
        Some(pairs(&[("authorization", "Basic dXNlcjpwYXNz")]))
    );
}

#[test]
fn bearer_token_header() {
    let c = ExporterConfig::builder().bearer_token("abc").build();
    assert_eq!(
        http_credential_headers(&c.credentials),
        Some(pairs(&[("authorization", "Bearer abc")]))
    );
}

#[test]
fn no_credentials_apply_nothing() {
    assert_eq!(http_credential_headers(&OtlpCredentials::NoAuth), None);
    assert_eq!(grpc_credential_metadata(&OtlpCredentials::NoAuth), None);
}

#[test]
fn grpc_metadata_leaves_out_what_it_cannot_carry() {
    let c = ExporterConfig::builder()
        .header("x-good", "ok")
        .header("x-bad-value", "line\nbreak")
        .header("bad key", "v")
        .header("x-data-bin", "v")
        .header("x-unicode", "caf\u{e9}")
        .build();
    assert_eq!(
        grpc_credential_metadata(&c.credentials),
        Some(pairs(&[("x-good", "ok"), ("x-unicode", "caf\u{e9}")]))
    );
    // HTTP sends the headers as they are.
    assert_eq!(http_credential_headers(&c.credentials).unwrap().len(), 5);

    let bad = ExporterConfig::builder().bearer_token("a\u{7f}b").build();
    assert_eq!(grpc_credential_metadata(&bad.credentials), Some(vec![]));
}

#[test]
fn grpc_metadata_keys_follow_header_name_rules() {
    let long_ok = "k".repeat(65535);
    let too_long = "k".repeat(65536);
    let c = ExporterConfig::builder()
        .header("X-Upper", "1")
        .header("X-DATA-BIN", "2")
        .header("", "3")
        .header("x~tok`en|", "4")
        .header("x:colon", "5")
        .header("caf\u{e9}", "6")
        .header(&long_ok, "7")
        .header(&too_long, "8")
        .header("bin", "9")
        .build();
    let kept: Vec<String> = grpc_credential_metadata(&c.credentials)
        .unwrap()
        .into_iter()
        .map(|(_, v)| v)
        .collect();
    assert_eq!(kept, vec!["1", "4", "7", "9"]);
}

#[test]
fn grpc_plan_uses_endpoint_as_is_with_tls_for_https() {
    let c = ExporterConfig::builder()
        .endpoint("https://otel.example.com:4317")
        .timeout(Duration::from_secs(3))
        .build();
    let p = exporter_plan(&c, Signal::Traces);
    assert_eq!(p.protocol, OtlpProtocol::Grpc);
    assert_eq!(p.endpoint, "https://otel.example.com:4317");
    assert!(p.use_tls);
    assert_eq!(p.timeout, Duration::from_secs(3));
    assert!(p.metadata.is_none());

    let plain = exporter_plan(&ExporterConfig::default(), Signal::Logs);
    assert!(!plain.use_tls);
    assert_eq!(plain.endpoint, "http://localhost:4317");
}

#[test]
fn http_plan_appends_signal_path() {
    let c = ExporterConfig::builder()
        .endpoint("https://collector:4318")
        .protocol(OtlpProtocol::Http)
        .bearer_token("t")
        .build();
    assert_eq!(exporter_plan(&c, Signal::Traces).endpoint, "https://collector:4318/v1/traces");
    assert_eq!(exporter_plan(&c, Signal::Logs).endpoint, "https://collector:4318/v1/logs");
    let m = exporter_plan(&c, Signal::Metrics);
    assert_eq!(m.endpoint, "https://collector:4318/v1/metrics");
    assert!(!m.use_tls);
    assert_eq!(m.metadata, Some(pairs(&[("authorization", "Bearer t")])));
}

[package]
name = "otel_rs"
version = "0.1.0"
edition = "2021"
publish = false

[dependencies]
data-encoding = "=2.11.1"
opentelemetry = "=0.33.1"
opentelemetry_sdk = "=0.33.1"
opentelemetry-otlp = { version = "=0.33.1", features = ["grpc-tonic", "http-proto", "reqwest-blocking-client", "trace", "logs", "metrics", "tls-ring", "tls-webpki-roots"] }
opentelemetry-appender-tracing = "=0.33.1"
thiserror = "=2.0.21"
tonic = { version = "=0.14.9", features = ["tls-webpki-roots", "tls-ring"] }
tracing = "=0.1.44"
tracing-opentelemetry = "=0.34.0"
tracing-subscriber = { version = "=0.3.23", features = ["env-filter", "json"] }

//! Composable configuration and planning for an OpenTelemetry
//! observability stack: service identity, OTLP exporter settings,
//! credentials, sampling, log filtering and standard `OTEL_*`
//! environment defaults.
//!
//! Resolution order: builder values, then environment values, then the
//! built-in defaults. [`InitPlan`] states what initialization builds from
//! a resolved [`OtelConfig`].

pub mod config;
pub mod env;
pub mod error;
pub mod filter;
pub mod headers;
pub mod init;
pub mod text;
pub mod transport;

pub use config::{
    ExporterConfig, ExporterConfigBuilder, LogLevel, MetricsConfig, MetricsConfigBuilder,
    OtelConfig, OtelConfigBuilder, OtlpCredentials, OtlpProtocol, OutputFormat, SamplingStrategy,
    TracingConfig, TracingConfigBuilder,
};
pub use env::{EnvConfig, EnvVars};
pub use error::{ErrorContext, OtelError, OtelResult};
pub use filter::{level_to_directive, FilterBuilder};
pub use headers::HeaderMap;
pub use init::{InitPlan, MetricsPlan, TracePlan};
pub use transport::{exporter_plan, ExporterPlan, Signal};
pub mod laws;
pub mod level;
pub mod resolution_laws;

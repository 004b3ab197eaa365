//! Configuration for the observability stack: enums, the exporter,
//! tracing and metrics sub-configurations with their builders, and the
//! resolved [`OtelConfig`] with its builder.
//!
//! Resolution order: builder values, then `OTEL_*` environment values,
//! then the built-in defaults.

use std::time::Duration;

use vstd::prelude::*;

use crate::env::{EnvConfig, EnvSettings};
pub use crate::level::{level_named, LogLevel};
use crate::headers::{with_entry, HeaderMap};
use crate::text::{
    all_ascii, ascii_lower, lemma_text_pairs_push, lemma_texts_push, opt_text, same_text,
    text_pairs, texts, to_lowercase, unicode_lowercase,
};

verus! {

// ── Durations ──────────────────────────────────────────────────────

/// Name for what `Duration::from_secs` returns.
pub uninterp spec fn seconds(secs: u64) -> Duration;

/// Name for what `Duration::from_millis` returns.
pub uninterp spec fn milliseconds(millis: u64) -> Duration;

/// `Duration::from_secs`.
#[verifier::external_body]
pub(crate) fn duration_from_secs(secs: u64) -> (d: Duration)
    ensures
        d == seconds(secs),
{
    Duration::from_secs(secs)
}

/// `Duration::from_millis`.
#[verifier::external_body]
pub(crate) fn duration_from_millis(millis: u64) -> (d: Duration)
    ensures
        d == milliseconds(millis),
{
    Duration::from_millis(millis)
}

/// `Duration` is `Copy`: its `clone` returns the same value.
pub assume_specification[ <Duration as Clone>::clone ](d: &Duration) -> (r: Duration)
    ensures
        r == *d,
;

// ── Enums ──────────────────────────────────────────────────────────

/// OTLP protocol for exporting telemetry data.
#[derive(Debug, Clone, Copy, PartialEq, Eq, Structural)]
pub enum OtlpProtocol {
    /// gRPC protocol (default, more efficient for high-volume telemetry).
    Grpc,
    /// HTTP/protobuf protocol (better firewall compatibility).
    Http,
}

/// The protocol that a lower-cased protocol name denotes.
pub open spec fn protocol_named(lower: Seq<char>) -> Option<OtlpProtocol> {
    if lower == "grpc"@ {
        Some(OtlpProtocol::Grpc)
    } else if lower == "http"@ || lower == "http/protobuf"@ {
        Some(OtlpProtocol::Http)
    } else {
        None
    }
}

impl OtlpProtocol {
    /// The protocol's name.
    pub open spec fn name(self) -> Seq<char> {
        match self {
            OtlpProtocol::Grpc => "grpc"@,
            OtlpProtocol::Http => "http"@,
        }
    }

    /// Returns the string representation.
    pub fn as_str(&self) -> (s: &'static str)
        ensures
            s@ == self.name(),
    {
        match self {
            OtlpProtocol::Grpc => "grpc",
            OtlpProtocol::Http => "http",
        }
    }

    /// Parse a protocol name, ignoring case: `grpc`, `http` or
    /// `http/protobuf`. Any other text is refused with a message that
    /// names its lower-cased form.
    pub fn parse(s: &str) -> (r: Result<OtlpProtocol, String>)
        ensures
            r is Ok <==> protocol_named(unicode_lowercase(s@)) is Some,
            r matches Ok(p) ==> protocol_named(unicode_lowercase(s@)) == Some(p),
            r matches Err(m) ==> m@ == "unknown OTLP protocol: "@ + unicode_lowercase(s@),
            all_ascii(s@) ==> ((r matches Ok(p) && protocol_named(ascii_lower(s@)) == Some(p)) || (
            r is Err && protocol_named(ascii_lower(s@)) is None)),
            all_ascii(s@) ==> (r matches Err(m) ==> m@ == "unknown OTLP protocol: "@ + ascii_lower(s@)),
    {
        let lower = to_lowercase(s);
        if same_text(lower.as_str(), "grpc") {
            Ok(OtlpProtocol::Grpc)
        } else if same_text(lower.as_str(), "http") || same_text(lower.as_str(), "http/protobuf") {
            Ok(OtlpProtocol::Http)
        } else {
            let mut m = "unknown OTLP protocol: ".to_owned();
            m.append(lower.as_str());
            Err(m)
        }
    }
}

impl Default for OtlpProtocol {
    fn default() -> (p: Self)
        ensures
            p == OtlpProtocol::Grpc,
    {
        OtlpProtocol::Grpc
    }
}

impl std::str::FromStr for OtlpProtocol {
    type Err = String;

    fn from_str(s: &str) -> (r: Result<Self, Self::Err>)
        ensures
            r is Ok <==> protocol_named(unicode_lowercase(s@)) is Some,
            r matches Ok(p) ==> protocol_named(unicode_lowercase(s@)) == Some(p),
            r matches Err(m) ==> m@ == "unknown OTLP protocol: "@ + unicode_lowercase(s@),
            all_ascii(s@) ==> ((r matches Ok(p) && protocol_named(ascii_lower(s@)) == Some(p)) || (
            r is Err && protocol_named(ascii_lower(s@)) is None)),
            all_ascii(s@) ==> (r matches Err(m) ==> m@ == "unknown OTLP protocol: "@ + ascii_lower(s@)),
    {
        OtlpProtocol::parse(s)
    }
}

/// Sampling strategy for traces.
#[derive(Debug, Clone, Copy)]
pub enum SamplingStrategy {
    /// Always sample all traces (default).
    AlwaysOn,
    /// Never sample.
    AlwaysOff,
    /// Sample based on trace ID ratio; the ratio (0.0 to 1.0) is held as
    /// the bit pattern of its IEEE 754 binary64 value (`f64::to_bits`).
    TraceIdRatio(u64),
    /// Sample based on parent span decision.
    ParentBased,
}

impl Default for SamplingStrategy {
    fn default() -> (s: Self)
        ensures
            s == SamplingStrategy::AlwaysOn,
    {
        SamplingStrategy::AlwaysOn
    }
}

/// Output format for console/stdout logs.
#[derive(Debug, Clone, Copy, PartialEq, Eq, Structural)]
pub enum OutputFormat {
    /// Human-readable pretty format (default).
    Pretty,
    /// Compact single-line format.
    Compact,
    /// JSON format for structured logging.
    Json,
}

impl Default for OutputFormat {
    fn default() -> (f: Self)
        ensures
            f == OutputFormat::Pretty,
    {
        OutputFormat::Pretty
    }
}


// ── Credentials ────────────────────────────────────────────────────

/// OTLP authentication credentials.
#[derive(Debug, Clone)]
pub enum OtlpCredentials {
    /// No authentication (default).
    NoAuth,
    /// Bearer token (`Authorization: Bearer <token>`).
    Bearer(String),
    /// Basic auth (`Authorization: Basic base64(user:pass)`).
    Basic {
        /// Username.
        username: String,
        /// Password.
        password: String,
    },
    /// Custom headers.
    Headers(HeaderMap),
}

/// The text of a set of credentials.
pub enum Credentials {
    NoAuth,
    Bearer(Seq<char>),
    Basic { username: Seq<char>, password: Seq<char> },
    Headers(Seq<(Seq<char>, Seq<char>)>),
}

impl View for OtlpCredentials {
    type V = Credentials;

    open spec fn view(&self) -> Credentials {
        match self {
            OtlpCredentials::NoAuth => Credentials::NoAuth,
            OtlpCredentials::Bearer(t) => Credentials::Bearer(t@),
            OtlpCredentials::Basic { username, password } => Credentials::Basic {
                username: username@,
                password: password@,
            },
            OtlpCredentials::Headers(h) => Credentials::Headers(h@),
        }
    }
}

impl Default for OtlpCredentials {
    fn default() -> (c: Self)
        ensures
            c@ == Credentials::NoAuth,
    {
        OtlpCredentials::NoAuth
    }
}


// ── Exporter ───────────────────────────────────────────────────────

/// OTLP exporter connection configuration.
#[derive(Debug, Clone)]
pub struct ExporterConfig {
    /// Collector endpoint.
    pub endpoint: String,
    /// Transport protocol.
    pub protocol: OtlpProtocol,
    /// Export timeout.
    pub timeout: Duration,
    /// Authentication.
    pub credentials: OtlpCredentials,
}

/// The settings of an exporter configuration.
pub struct ExporterSettings {
    pub endpoint: Seq<char>,
    pub protocol: OtlpProtocol,
    pub timeout: Duration,
    pub credentials: Credentials,
}

impl View for ExporterConfig {
    type V = ExporterSettings;

    open spec fn view(&self) -> ExporterSettings {
        ExporterSettings {
            endpoint: self.endpoint@,
            protocol: self.protocol,
            timeout: self.timeout,
            credentials: self.credentials@,
        }
    }
}

/// Default collector endpoint.
pub open spec fn default_endpoint() -> Seq<char> {
    "http://localhost:4317"@
}

/// Default exporter settings: local gRPC collector, 10 s timeout, no
/// authentication.
pub open spec fn default_exporter() -> ExporterSettings {
    ExporterSettings {
        endpoint: default_endpoint(),
        protocol: OtlpProtocol::Grpc,
        timeout: seconds(10),
        credentials: Credentials::NoAuth,
    }
}

/// The headers already held by a set of credentials (none unless they
/// are custom headers).
pub open spec fn held_headers(c: Credentials) -> Seq<(Seq<char>, Seq<char>)> {
    match c {
        Credentials::Headers(h) => h,
        _ => Seq::empty(),
    }
}

impl Default for ExporterConfig {
    fn default() -> (c: Self)
        ensures
            c@ == default_exporter(),
    {
        ExporterConfig {
            endpoint: "http://localhost:4317".to_owned(),
            protocol: OtlpProtocol::Grpc,
            timeout: duration_from_secs(10),
            credentials: OtlpCredentials::NoAuth,
        }
    }
}

impl ExporterConfig {
    /// Create a builder.
    pub fn builder() -> (b: ExporterConfigBuilder)
        ensures
            b@ == default_exporter(),
    {
        ExporterConfigBuilder::new()
    }
}

/// Builder for [`ExporterConfig`].
#[derive(Debug, Clone)]
pub struct ExporterConfigBuilder {
    config: ExporterConfig,
}

impl View for ExporterConfigBuilder {
    type V = ExporterSettings;

    closed spec fn view(&self) -> ExporterSettings {
        self.config@
    }
}

impl Default for ExporterConfigBuilder {
    fn default() -> (b: Self)
        ensures
            b@ == default_exporter(),
    {
        Self::new()
    }
}

impl ExporterConfigBuilder {
    /// Create a new builder with defaults.
    pub fn new() -> (b: Self)
        ensures
            b@ == default_exporter(),
    {
        ExporterConfigBuilder { config: ExporterConfig::default() }
    }

    /// Set the OTLP collector endpoint.
    pub fn endpoint(self, endpoint: &str) -> (b: Self)
        ensures
            b@ == (ExporterSettings { endpoint: endpoint@, ..self@ }),
    {
        let mut b = self;
        b.config.endpoint = endpoint.to_owned();
        b
    }

    /// Set the OTLP protocol.
    pub fn protocol(self, protocol: OtlpProtocol) -> (b: Self)
        ensures
            b@ == (ExporterSettings { protocol, ..self@ }),
    {
        let mut b = self;
        b.config.protocol = protocol;
        b
    }

    /// Set the export timeout.
    pub fn timeout(self, timeout: Duration) -> (b: Self)
        ensures
            b@ == (ExporterSettings { timeout, ..self@ }),
    {
        let mut b = self;
        b.config.timeout = timeout;
        b
    }

    /// Set bearer token authentication, replacing any earlier credentials.
    pub fn bearer_token(self, token: &str) -> (b: Self)
        ensures
            b@ == (ExporterSettings { credentials: Credentials::Bearer(token@), ..self@ }),
    {
        let mut b = self;
        b.config.credentials = OtlpCredentials::Bearer(token.to_owned());
        b
    }

    /// Set basic authentication, replacing any earlier credentials.
    pub fn basic_auth(self, username: &str, password: &str) -> (b: Self)
        ensures
            b@ == (ExporterSettings {
                credentials: Credentials::Basic { username: username@, password: password@ },
                ..self@
            }),
    {
        let mut b = self;
        b.config.credentials = OtlpCredentials::Basic {
            username: username.to_owned(),
            password: password.to_owned(),
        };
        b
    }

    /// Add a custom header. Can be called multiple times: headers set
    /// earlier stay, a repeated name takes the new value, and credentials
    /// of another kind are replaced by the headers.
    pub fn header(self, key: &str, value: &str) -> (b: Self)
        ensures
            b@ == (ExporterSettings {
                credentials: Credentials::Headers(
                    with_entry(held_headers(self@.credentials), key@, value@),
                ),
                ..self@
            }),
    {
        let ExporterConfigBuilder { config } = self;
        let ExporterConfig { endpoint, protocol, timeout, credentials } = config;
        let mut headers = match credentials {
            OtlpCredentials::Headers(h) => h,
            _ => HeaderMap::new(),
        };
        headers.insert(key.to_owned(), value.to_owned());
        ExporterConfigBuilder {
            config: ExporterConfig {
                endpoint,
                protocol,
                timeout,
                credentials: OtlpCredentials::Headers(headers),
            },
        }
    }

    /// Set custom headers, replacing any existing credentials.
    pub fn headers(self, headers: HeaderMap) -> (b: Self)
        ensures
            b@ == (ExporterSettings { credentials: Credentials::Headers(headers@), ..self@ }),
    {
        let mut b = self;
        b.config.credentials = OtlpCredentials::Headers(headers);
        b
    }

    /// Build the exporter configuration.
    pub fn build(self) -> (c: ExporterConfig)
        ensures
            c@ == self@,
    {
        self.config
    }
}


// ── Tracing ────────────────────────────────────────────────────────

/// Tracing-specific configuration.
#[derive(Debug, Clone)]
pub struct TracingConfig {
    /// Sampling strategy.
    pub sampling: SamplingStrategy,
    /// Whether exceptions are recorded automatically.
    pub record_exceptions: bool,
    /// Maximum length of exception fields.
    pub exception_field_limit: usize,
    /// Delay between batch exports.
    pub batch_schedule_delay: Duration,
    /// Maximum export batch size.
    pub max_export_batch_size: usize,
    /// Maximum queue size.
    pub max_queue_size: usize,
}

/// Default tracing settings.
pub open spec fn default_tracing() -> TracingConfig {
    TracingConfig {
        sampling: SamplingStrategy::AlwaysOn,
        record_exceptions: true,
        exception_field_limit: 1024,
        batch_schedule_delay: seconds(5),
        max_export_batch_size: 512,
        max_queue_size: 2048,
    }
}

impl Default for TracingConfig {
    fn default() -> (c: Self)
        ensures
            c == default_tracing(),
    {
        TracingConfig {
            sampling: SamplingStrategy::AlwaysOn,
            record_exceptions: true,
            exception_field_limit: 1024,
            batch_schedule_delay: duration_from_secs(5),
            max_export_batch_size: 512,
            max_queue_size: 2048,
        }
    }
}

impl TracingConfig {
    /// Create a builder.
    pub fn builder() -> (b: TracingConfigBuilder)
        ensures
            b@ == default_tracing(),
    {
        TracingConfigBuilder::new()
    }
}

/// Builder for [`TracingConfig`].
#[derive(Debug, Clone)]
pub struct TracingConfigBuilder {
    config: TracingConfig,
}

impl View for TracingConfigBuilder {
    type V = TracingConfig;

    closed spec fn view(&self) -> TracingConfig {
        self.config
    }
}

impl Default for TracingConfigBuilder {
    fn default() -> (b: Self)
        ensures
            b@ == default_tracing(),
    {
        Self::new()
    }
}

impl TracingConfigBuilder {
    /// Create a new builder with defaults.
    pub fn new() -> (b: Self)
        ensures
            b@ == default_tracing(),
    {
        TracingConfigBuilder { config: TracingConfig::default() }
    }

    /// Set the sampling strategy.
    pub fn sampling(self, strategy: SamplingStrategy) -> (b: Self)
        ensures
            b@ == (TracingConfig { sampling: strategy, ..self@ }),
    {
        let mut b = self;
        b.config.sampling = strategy;
        b
    }

    /// Enable or disable automatic exception recording.
    pub fn record_exceptions(self, enabled: bool) -> (b: Self)
        ensures
            b@ == (TracingConfig { record_exceptions: enabled, ..self@ }),
    {
        let mut b = self;
        b.config.record_exceptions = enabled;
        b
    }

    /// Set the maximum length for exception fields.
    pub fn exception_field_limit(self, limit: usize) -> (b: Self)
        ensures
            b@ == (TracingConfig { exception_field_limit: limit, ..self@ }),
    {
        let mut b = self;
        b.config.exception_field_limit = limit;
        b
    }

    /// Set the batch schedule delay for trace export.
    pub fn batch_schedule_delay(self, delay: Duration) -> (b: Self)
        ensures
            b@ == (TracingConfig { batch_schedule_delay: delay, ..self@ }),
    {
        let mut b = self;
        b.config.batch_schedule_delay = delay;
        b
    }

    /// Set the maximum export batch size.
    pub fn max_export_batch_size(self, size: usize) -> (b: Self)
        ensures
            b@ == (TracingConfig { max_export_batch_size: size, ..self@ }),
    {
        let mut b = self;
        b.config.max_export_batch_size = size;
        b
    }

    /// Set the maximum queue size.
    pub fn max_queue_size(self, size: usize) -> (b: Self)
        ensures
            b@ == (TracingConfig { max_queue_size: size, ..self@ }),
    {
        let mut b = self;
        b.config.max_queue_size = size;
        b
    }

    /// Build the tracing configuration.
    pub fn build(self) -> (c: TracingConfig)
        ensures
            c == self@,
    {
        self.config
    }
}

// ── Metrics ────────────────────────────────────────────────────────

/// Metrics-specific configuration.
#[derive(Debug, Clone)]
pub struct MetricsConfig {
    /// Interval between metric exports.
    pub export_interval: Duration,
}

/// Default metrics settings: export every 60 s.
pub open spec fn default_metrics() -> MetricsConfig {
    MetricsConfig { export_interval: seconds(60) }
}

impl Default for MetricsConfig {
    fn default() -> (c: Self)
        ensures
            c == default_metrics(),
    {
        MetricsConfig { export_interval: duration_from_secs(60) }
    }
}

impl MetricsConfig {
    /// Create a builder.
    pub fn builder() -> (b: MetricsConfigBuilder)
        ensures
            b@ == default_metrics(),
    {
        MetricsConfigBuilder::new()
    }
}

/// Builder for [`MetricsConfig`].
#[derive(Debug, Clone)]
pub struct MetricsConfigBuilder {
    config: MetricsConfig,
}

impl View for MetricsConfigBuilder {
    type V = MetricsConfig;

    closed spec fn view(&self) -> MetricsConfig {
        self.config
    }
}

impl Default for MetricsConfigBuilder {
    fn default() -> (b: Self)
        ensures
            b@ == default_metrics(),
    {
        Self::new()
    }
}

impl MetricsConfigBuilder {
    /// Create a new builder with defaults.
    pub fn new() -> (b: Self)
        ensures
            b@ == default_metrics(),
    {
        MetricsConfigBuilder { config: MetricsConfig::default() }
    }

    /// Set the metrics export interval.
    pub fn export_interval(self, interval: Duration) -> (b: Self)
        ensures
            b@ == (MetricsConfig { export_interval: interval }),
    {
        let mut b = self;
        b.config.export_interval = interval;
        b
    }

    /// Build the metrics configuration.
    pub fn build(self) -> (c: MetricsConfig)
        ensures
            c == self@,
    {
        self.config
    }
}


// ── Main config ────────────────────────────────────────────────────

/// Resolved configuration for the observability stack.
///
/// Construct via [`OtelConfigBuilder`].
#[derive(Debug, Clone)]
pub struct OtelConfig {
    // Service identity
    pub service_name: String,
    pub service_version: String,
    pub environment: String,
    pub service_namespace: Option<String>,
    pub service_instance_id: Option<String>,
    // Exporter
    pub exporter: ExporterConfig,
    /// `Some(config)` = tracing enabled, `None` = disabled.
    pub tracing: Option<TracingConfig>,
    /// Whether OTLP log export is enabled.
    pub logging: bool,
    /// `Some(config)` = metrics enabled, `None` = disabled.
    pub metrics: Option<MetricsConfig>,
    // Console
    pub enable_console_output: bool,
    pub log_level: LogLevel,
    pub output_format: OutputFormat,
    // Filtering
    pub allowed_crates: Vec<String>,
    pub custom_filters: Vec<String>,
    // Custom resource attributes
    pub custom_attributes: Vec<(String, String)>,
}

/// The content of an [`OtelConfig`].
pub struct OtelSettings {
    pub service_name: Seq<char>,
    pub service_version: Seq<char>,
    pub environment: Seq<char>,
    pub service_namespace: Option<Seq<char>>,
    pub service_instance_id: Option<Seq<char>>,
    pub exporter: ExporterSettings,
    pub tracing: Option<TracingConfig>,
    pub logging: bool,
    pub metrics: Option<MetricsConfig>,
    pub enable_console_output: bool,
    pub log_level: LogLevel,
    pub output_format: OutputFormat,
    pub allowed_crates: Seq<Seq<char>>,
    pub custom_filters: Seq<Seq<char>>,
    pub custom_attributes: Seq<(Seq<char>, Seq<char>)>,
}

impl View for OtelConfig {
    type V = OtelSettings;

    open spec fn view(&self) -> OtelSettings {
        OtelSettings {
            service_name: self.service_name@,
            service_version: self.service_version@,
            environment: self.environment@,
            service_namespace: opt_text(self.service_namespace),
            service_instance_id: opt_text(self.service_instance_id),
            exporter: self.exporter@,
            tracing: self.tracing,
            logging: self.logging,
            metrics: self.metrics,
            enable_console_output: self.enable_console_output,
            log_level: self.log_level,
            output_format: self.output_format,
            allowed_crates: texts(self.allowed_crates@),
            custom_filters: texts(self.custom_filters@),
            custom_attributes: text_pairs(self.custom_attributes@),
        }
    }
}

/// Default service name.
pub open spec fn default_service_name() -> Seq<char> {
    "unknown-service"@
}

/// Default service version.
pub open spec fn default_service_version() -> Seq<char> {
    "0.0.0"@
}

/// Default deployment environment.
pub open spec fn default_environment() -> Seq<char> {
    "development"@
}

/// Default configuration: every signal enabled with its defaults,
/// console output in pretty format at `info`, nothing allowed through
/// the filter.
pub open spec fn default_settings() -> OtelSettings {
    OtelSettings {
        service_name: default_service_name(),
        service_version: default_service_version(),
        environment: default_environment(),
        service_namespace: None,
        service_instance_id: None,
        exporter: default_exporter(),
        tracing: Some(default_tracing()),
        logging: true,
        metrics: Some(default_metrics()),
        enable_console_output: true,
        log_level: LogLevel::Info,
        output_format: OutputFormat::Pretty,
        allowed_crates: Seq::empty(),
        custom_filters: Seq::empty(),
        custom_attributes: Seq::empty(),
    }
}

impl Default for OtelConfig {
    fn default() -> (c: Self)
        ensures
            c@ == default_settings(),
    {
        let c = OtelConfig {
            service_name: "unknown-service".to_owned(),
            service_version: "0.0.0".to_owned(),
            environment: "development".to_owned(),
            service_namespace: None,
            service_instance_id: None,
            exporter: ExporterConfig::default(),
            tracing: Some(TracingConfig::default()),
            logging: true,
            metrics: Some(MetricsConfig::default()),
            enable_console_output: true,
            log_level: LogLevel::Info,
            output_format: OutputFormat::Pretty,
            allowed_crates: Vec::new(),
            custom_filters: Vec::new(),
            custom_attributes: Vec::new(),
        };
        assert(c@.allowed_crates =~= Seq::empty());
        assert(c@.custom_filters =~= Seq::empty());
        assert(c@.custom_attributes =~= Seq::empty());
        c
    }
}

impl OtelConfig {
    /// Create a new builder.
    pub fn builder() -> (b: OtelConfigBuilder)
        ensures
            b@ == unset(),
    {
        OtelConfigBuilder::new()
    }
}

/// Builder for [`OtelConfig`].
///
/// Resolution order: **builder values > env vars > hardcoded defaults**.
#[derive(Debug, Clone)]
pub struct OtelConfigBuilder {
    service_name: Option<String>,
    service_version: Option<String>,
    environment: Option<String>,
    service_namespace: Option<String>,
    service_instance_id: Option<String>,
    exporter: Option<ExporterConfig>,
    /// `None` = not set (use defaults), `Some(None)` = disabled,
    /// `Some(Some(c))` = custom config.
    tracing: Option<Option<TracingConfig>>,
    logging: Option<bool>,
    metrics: Option<Option<MetricsConfig>>,
    enable_console_output: Option<bool>,
    log_level: Option<LogLevel>,
    output_format: Option<OutputFormat>,
    allowed_crates: Vec<String>,
    custom_filters: Vec<String>,
    custom_attributes: Vec<(String, String)>,
}

/// What an [`OtelConfigBuilder`] holds: `None` for what was not set.
pub struct BuilderSettings {
    pub service_name: Option<Seq<char>>,
    pub service_version: Option<Seq<char>>,
    pub environment: Option<Seq<char>>,
    pub service_namespace: Option<Seq<char>>,
    pub service_instance_id: Option<Seq<char>>,
    pub exporter: Option<ExporterSettings>,
    pub tracing: Option<Option<TracingConfig>>,
    pub logging: Option<bool>,
    pub metrics: Option<Option<MetricsConfig>>,
    pub enable_console_output: Option<bool>,
    pub log_level: Option<LogLevel>,
    pub output_format: Option<OutputFormat>,
    pub allowed_crates: Seq<Seq<char>>,
    pub custom_filters: Seq<Seq<char>>,
    pub custom_attributes: Seq<(Seq<char>, Seq<char>)>,
}

impl View for OtelConfigBuilder {
    type V = BuilderSettings;

    closed spec fn view(&self) -> BuilderSettings {
        BuilderSettings {
            service_name: opt_text(self.service_name),
            service_version: opt_text(self.service_version),
            environment: opt_text(self.environment),
            service_namespace: opt_text(self.service_namespace),
            service_instance_id: opt_text(self.service_instance_id),
            exporter: match self.exporter {
                Some(e) => Some(e@),
                None => None,
            },
            tracing: self.tracing,
            logging: self.logging,
            metrics: self.metrics,
            enable_console_output: self.enable_console_output,
            log_level: self.log_level,
            output_format: self.output_format,
            allowed_crates: texts(self.allowed_crates@),
            custom_filters: texts(self.custom_filters@),
            custom_attributes: text_pairs(self.custom_attributes@),
        }
    }
}

/// A builder on which nothing has been set.
pub open spec fn unset() -> BuilderSettings {
    BuilderSettings {
        service_name: None,
        service_version: None,
        environment: None,
        service_namespace: None,
        service_instance_id: None,
        exporter: None,
        tracing: None,
        logging: None,
        metrics: None,
        enable_console_output: None,
        log_level: None,
        output_format: None,
        allowed_crates: Seq::empty(),
        custom_filters: Seq::empty(),
        custom_attributes: Seq::empty(),
    }
}

/// The value set on the builder if any, else the environment's if any,
/// else the default.
pub open spec fn first_set<T>(builder: Option<T>, env: Option<T>, default: T) -> T {
    match builder {
        Some(v) => v,
        None => match env {
            Some(v) => v,
            None => default,
        },
    }
}

/// Exporter settings drawn from the environment over the defaults.
pub open spec fn env_exporter(e: EnvSettings) -> ExporterSettings {
    ExporterSettings {
        endpoint: first_set(None, e.endpoint, default_endpoint()),
        protocol: first_set(None, e.protocol, OtlpProtocol::Grpc),
        timeout: first_set(None, e.timeout, seconds(10)),
        credentials: match e.headers {
            Some(h) => Credentials::Headers(h),
            None => Credentials::NoAuth,
        },
    }
}

/// The configuration that a builder resolves to in a given environment:
/// builder values win over environment values, which win over defaults.
/// An exporter set on the builder is taken whole; otherwise the
/// environment's endpoint, protocol, timeout and headers apply. Tracing
/// and metrics stay enabled unless disabled; tracing takes the
/// environment's sampler unless a tracing configuration was set.
pub open spec fn resolved(b: BuilderSettings, e: EnvSettings) -> OtelSettings {
    OtelSettings {
        service_name: first_set(b.service_name, e.service_name, default_service_name()),
        service_version: first_set(b.service_version, None, default_service_version()),
        environment: first_set(b.environment, None, default_environment()),
        service_namespace: b.service_namespace,
        service_instance_id: b.service_instance_id,
        exporter: first_set(b.exporter, None, env_exporter(e)),
        tracing: first_set(
            b.tracing,
            None,
            Some(
                TracingConfig {
                    sampling: first_set(None, e.sampler, SamplingStrategy::AlwaysOn),
                    ..default_tracing()
                },
            ),
        ),
        logging: first_set(b.logging, None, true),
        metrics: first_set(b.metrics, None, Some(default_metrics())),
        enable_console_output: first_set(b.enable_console_output, None, true),
        log_level: first_set(b.log_level, None, LogLevel::Info),
        output_format: first_set(b.output_format, None, OutputFormat::Pretty),
        allowed_crates: b.allowed_crates,
        custom_filters: b.custom_filters,
        custom_attributes: b.custom_attributes,
    }
}

impl Default for OtelConfigBuilder {
    fn default() -> (b: Self)
        ensures
            b@ == unset(),
    {
        Self::new()
    }
}

impl OtelConfigBuilder {
    /// Create a new builder. All fields start unset and will fall back
    /// to environment variables, then hardcoded defaults.
    pub fn new() -> (b: Self)
        ensures
            b@ == unset(),
    {
        let b = OtelConfigBuilder {
            service_name: None,
            service_version: None,
            environment: None,
            service_namespace: None,
            service_instance_id: None,
            exporter: None,
            tracing: None,
            logging: None,
            metrics: None,
            enable_console_output: None,
            log_level: None,
            output_format: None,
            allowed_crates: Vec::new(),
            custom_filters: Vec::new(),
            custom_attributes: Vec::new(),
        };
        assert(b@.allowed_crates =~= Seq::empty());
        assert(b@.custom_filters =~= Seq::empty());
        assert(b@.custom_attributes =~= Seq::empty());
        b
    }

    // ── Service identity ───────────────────────────────────────────

    /// Set the service name.
    pub fn service_name(self, name: &str) -> (b: Self)
        ensures
            b@ == (BuilderSettings { service_name: Some(name@), ..self@ }),
    {
        let mut b = self;
        b.service_name = Some(name.to_owned());
        b
    }

    /// Set the service version.
    pub fn service_version(self, version: &str) -> (b: Self)
        ensures
            b@ == (BuilderSettings { service_version: Some(version@), ..self@ }),
    {
        let mut b = self;
        b.service_version = Some(version.to_owned());
        b
    }

    /// Set the deployment environment (e.g., `"production"`, `"staging"`).
    pub fn environment(self, env: &str) -> (b: Self)
        ensures
            b@ == (BuilderSettings { environment: Some(env@), ..self@ }),
    {
        let mut b = self;
        b.environment = Some(env.to_owned());
        b
    }

    /// Set the service namespace for grouping related services.
    pub fn namespace(self, ns: &str) -> (b: Self)
        ensures
            b@ == (BuilderSettings { service_namespace: Some(ns@), ..self@ }),
    {
        let mut b = self;
        b.service_namespace = Some(ns.to_owned());
        b
    }

    /// Set a unique instance identifier for this service instance.
    pub fn instance_id(self, id: &str) -> (b: Self)
        ensures
            b@ == (BuilderSettings { service_instance_id: Some(id@), ..self@ }),
    {
        let mut b = self;
        b.service_instance_id = Some(id.to_owned());
        b
    }

    // ── Sub-configs ────────────────────────────────────────────────

    /// Set the exporter configuration. Overrides any env var defaults
    /// for endpoint, protocol, timeout, and credentials.
    pub fn exporter(self, config: ExporterConfig) -> (b: Self)
        ensures
            b@ == (BuilderSettings { exporter: Some(config@), ..self@ }),
    {
        let mut b = self;
        b.exporter = Some(config);
        b
    }

    /// Set the tracing configuration. Implicitly enables tracing.
    pub fn tracing(self, config: TracingConfig) -> (b: Self)
        ensures
            b@ == (BuilderSettings { tracing: Some(Some(config)), ..self@ }),
    {
        let mut b = self;
        b.tracing = Some(Some(config));
        b
    }

    /// Disable distributed tracing.
    pub fn disable_tracing(self) -> (b: Self)
        ensures
            b@ == (BuilderSettings { tracing: Some(None), ..self@ }),
    {
        let mut b = self;
        b.tracing = Some(None);
        b
    }

    /// Enable or disable OTLP log export.
    pub fn logging(self, enabled: bool) -> (b: Self)
        ensures
            b@ == (BuilderSettings { logging: Some(enabled), ..self@ }),
    {
        let mut b = self;
        b.logging = Some(enabled);
        b
    }

    /// Set the metrics configuration. Implicitly enables metrics.
    pub fn metrics(self, config: MetricsConfig) -> (b: Self)
        ensures
            b@ == (BuilderSettings { metrics: Some(Some(config)), ..self@ }),
    {
        let mut b = self;
        b.metrics = Some(Some(config));
        b
    }

    /// Disable metrics.
    pub fn disable_metrics(self) -> (b: Self)
        ensures
            b@ == (BuilderSettings { metrics: Some(None), ..self@ }),
    {
        let mut b = self;
        b.metrics = Some(None);
        b
    }

    // ── Console & filtering ────────────────────────────────────────

    /// Enable or disable console/stdout output.
    pub fn console_output(self, enabled: bool) -> (b: Self)
        ensures
            b@ == (BuilderSettings { enable_console_output: Some(enabled), ..self@ }),
    {
        let mut b = self;
        b.enable_console_output = Some(enabled);
        b
    }

    /// Set the minimum log level.
    pub fn log_level(self, level: LogLevel) -> (b: Self)
        ensures
            b@ == (BuilderSettings { log_level: Some(level), ..self@ }),
    {
        let mut b = self;
        b.log_level = Some(level);
        b
    }

    /// Set the console output format.
    pub fn output_format(self, format: OutputFormat) -> (b: Self)
        ensures
            b@ == (BuilderSettings { output_format: Some(format), ..self@ }),
    {
        let mut b = self;
        b.output_format = Some(format);
        b
    }

    /// Allow a crate to emit logs at the configured level.
    ///
    /// By default all crates are silenced. Call this for each crate
    /// whose logs you want to see.
    pub fn allow_crate(self, name: &str) -> (b: Self)
        ensures
            b@ == (BuilderSettings { allowed_crates: self@.allowed_crates.push(name@), ..self@ }),
    {
        let mut b = self;
        let s = name.to_owned();
        proof {
            lemma_texts_push(b.allowed_crates@, s);
        }
        b.allowed_crates.push(s);
        b
    }

    /// Allow multiple crates to emit logs, in order.
    pub fn allow_crates(self, names: &[&str]) -> (b: Self)
        ensures
            b@ == (BuilderSettings {
                allowed_crates: self@.allowed_crates + Seq::new(names@.len(), |i: int| names@[i]@),
                ..self@
            }),
    {
        let mut b = self;
        let ghost start = b@;
        let n = names.len();
        let mut i: usize = 0;
        while i < n
            invariant
                n == names@.len(),
                i <= n,
                b@ == (BuilderSettings {
                    allowed_crates: start.allowed_crates + Seq::new(i as nat, |j: int| names@[j]@),
                    ..start
                }),
            decreases n - i,
        {
            let s = names[i].to_owned();
            proof {
                lemma_texts_push(b.allowed_crates@, s);
                assert(start.allowed_crates + Seq::new((i + 1) as nat, |j: int| names@[j]@)
                    =~= (start.allowed_crates + Seq::new(i as nat, |j: int| names@[j]@)).push(s@));
            }
            b.allowed_crates.push(s);
            i = i + 1;
        }
        assert(Seq::new(n as nat, |j: int| names@[j]@) =~= Seq::new(names@.len(), |j: int| names@[j]@));
        b
    }

    /// Add a custom filter directive (tracing-subscriber `EnvFilter` syntax).
    pub fn custom_filter(self, directive: &str) -> (b: Self)
        ensures
            b@ == (BuilderSettings { custom_filters: self@.custom_filters.push(directive@), ..self@ }),
    {
        let mut b = self;
        let s = directive.to_owned();
        proof {
            lemma_texts_push(b.custom_filters@, s);
        }
        b.custom_filters.push(s);
        b
    }

    /// Add a custom resource attribute.
    pub fn attribute(self, key: &str, value: &str) -> (b: Self)
        ensures
            b@ == (BuilderSettings {
                custom_attributes: self@.custom_attributes.push((key@, value@)),
                ..self@
            }),
    {
        let mut b = self;
        let p = (key.to_owned(), value.to_owned());
        proof {
            lemma_text_pairs_push(b.custom_attributes@, p);
        }
        b.custom_attributes.push(p);
        b
    }

    // ── Build ──────────────────────────────────────────────────────

    /// Build the resolved configuration in the given environment.
    ///
    /// Resolution: builder values → env vars → hardcoded defaults.
    pub fn build(self, env: EnvConfig) -> (c: OtelConfig)
        ensures
            c@ == resolved(self@, env@),
    {
        let ghost b = self@;
        let ghost e = env@;
        let EnvConfig {
            service_name: env_service_name,
            endpoint: env_endpoint,
            protocol: env_protocol,
            headers: env_headers,
            timeout: env_timeout,
            sampler: env_sampler,
        } = env;
        // Exporter: if explicitly set, use as-is; otherwise merge env.
        let exporter = match self.exporter {
            Some(x) => x,
            None => {
                let mut exp = ExporterConfig::default();
                if let Some(endpoint) = env_endpoint {
                    exp.endpoint = endpoint;
                }
                if let Some(protocol) = env_protocol {
                    exp.protocol = protocol;
                }
                if let Some(timeout) = env_timeout {
                    exp.timeout = timeout;
                }
                if let Some(headers) = env_headers {
                    exp.credentials = OtlpCredentials::Headers(headers);
                }
                exp
            },
        };
        // Tracing: not-set → defaults + env sampler, disabled → None.
        let tracing = match self.tracing {
            Some(t) => t,
            None => {
                let mut tc = TracingConfig::default();
                if let Some(sampler) = env_sampler {
                    tc.sampling = sampler;
                }
                Some(tc)
            },
        };
        let metrics = match self.metrics {
            Some(m) => m,
            None => Some(MetricsConfig::default()),
        };
        let service_name = match self.service_name {
            Some(n) => n,
            None => match env_service_name {
                Some(n) => n,
                None => "unknown-service".to_owned(),
            },
        };
        let service_version = match self.service_version {
            Some(v) => v,
            None => "0.0.0".to_owned(),
        };
        let environment = match self.environment {
            Some(v) => v,
            None => "development".to_owned(),
        };
        let logging = match self.logging {
            Some(v) => v,
            None => true,
        };
        let enable_console_output = match self.enable_console_output {
            Some(v) => v,
            None => true,
        };
        let log_level = match self.log_level {
            Some(v) => v,
            None => LogLevel::Info,
        };
        let output_format = match self.output_format {
            Some(v) => v,
            None => OutputFormat::Pretty,
        };
        OtelConfig {
            service_name,
            service_version,
            environment,
            service_namespace: self.service_namespace,
            service_instance_id: self.service_instance_id,
            exporter,
            tracing,
            logging,
            metrics,
            enable_console_output,
            log_level,
            output_format,
            allowed_crates: self.allowed_crates,
            custom_filters: self.custom_filters,
            custom_attributes: self.custom_attributes,
        }
    }
}

} // verus!

//! Error types for the observability library.

use opentelemetry_otlp::ExporterBuildError;

use vstd::prelude::*;
use vstd::string::to_string_from_display_ensures;

verus! {

#[verifier::external_type_specification]
#[verifier::external_body]
pub struct ExExporterBuildError(ExporterBuildError);

/// Main error type for the otel-rs library.
#[derive(Debug)]
pub enum OtelError {
    /// Error building an OTLP exporter.
    ExporterBuildError(ExporterBuildError),
    /// Unknown or unsupported OTLP protocol.
    UnknownProtocol(String),
    /// Metrics shutdown error.
    MetricsShutdown(String),
    /// Configuration error.
    Configuration(String),
    /// Initialization error.
    Initialization(String),
    /// Tracing subscriber already set globally.
    SubscriberAlreadySet,
}

/// Result type alias for otel-rs operations.
pub type OtelResult<T> = Result<T, OtelError>;

/// The message of each error kind, given the text it carries.
pub open spec fn error_message(e: OtelError) -> Seq<char> {
    match e {
        OtelError::ExporterBuildError(_) => "OTLP exporter build error: "@,
        OtelError::UnknownProtocol(p) => "unknown OTLP protocol: "@ + p@
            + " (supported: 'grpc', 'http')"@,
        OtelError::MetricsShutdown(m) => "metrics shutdown error: "@ + m@,
        OtelError::Configuration(m) => "configuration error: "@ + m@,
        OtelError::Initialization(m) => "initialization error: "@ + m@,
        OtelError::SubscriberAlreadySet =>
            "tracing subscriber already initialized — only one can be set globally"@,
    }
}

impl OtelError {
    /// Create a configuration error.
    pub fn config(msg: &str) -> (e: Self)
        ensures
            e matches OtelError::Configuration(m) && m@ == msg@,
    {
        OtelError::Configuration(msg.to_owned())
    }

    /// Create an initialization error.
    pub fn init(msg: &str) -> (e: Self)
        ensures
            e matches OtelError::Initialization(m) && m@ == msg@,
    {
        OtelError::Initialization(msg.to_owned())
    }

    /// The human-readable message of the error. For an exporter build
    /// error the message is followed by the exporter error's own text.
    pub fn message(&self) -> (s: String)
        ensures
            self !is ExporterBuildError ==> s@ == error_message(*self),
            self matches OtelError::ExporterBuildError(x) ==> exists|t: String|
                to_string_from_display_ensures::<ExporterBuildError>(&x, t) && s@ == error_message(
                    *self,
                ) + t@,
    {
        match self {
            OtelError::ExporterBuildError(e) => {
                let mut s = "OTLP exporter build error: ".to_owned();
                let t = e.to_string();
                s.append(t.as_str());
                s
            },
            OtelError::UnknownProtocol(p) => {
                let mut s = "unknown OTLP protocol: ".to_owned();
                s.append(p.as_str());
                s.append(" (supported: 'grpc', 'http')");
                s
            },
            OtelError::MetricsShutdown(m) => {
                let mut s = "metrics shutdown error: ".to_owned();
                s.append(m.as_str());
                s
            },
            OtelError::Configuration(m) => {
                let mut s = "configuration error: ".to_owned();
                s.append(m.as_str());
                s
            },
            OtelError::Initialization(m) => {
                let mut s = "initialization error: ".to_owned();
                s.append(m.as_str());
                s
            },
            OtelError::SubscriberAlreadySet => {
                "tracing subscriber already initialized — only one can be set globally".to_owned()
            },
        }
    }
}

impl From<ExporterBuildError> for OtelError {
    fn from(e: ExporterBuildError) -> (r: Self) {
        OtelError::ExporterBuildError(e)
    }
}

impl vstd::std_specs::convert::FromSpecImpl<ExporterBuildError> for OtelError {
    open spec fn obeys_from_spec() -> bool {
        true
    }

    open spec fn from_spec(e: ExporterBuildError) -> OtelError {
        OtelError::ExporterBuildError(e)
    }
}


/// `e` is the initialization error `ctx: text` where `text` is what
/// `to_string` gives for `err`.
pub open spec fn is_context_error<E: std::fmt::Display>(e: OtelError, ctx: Seq<char>, err: E) -> bool {
    e matches OtelError::Initialization(m) && exists|t: String|
        vstd::string::to_string_from_display_ensures::<E>(&err, t) && m@ == ctx + ": "@ + t@
}

/// Extension trait for adding context to errors.
pub trait ErrorContext<T>: Sized {
    /// Wrap the error with additional context.
    fn context(self, ctx: &str) -> OtelResult<T>;

    /// Wrap the error with lazily-evaluated context.
    fn with_context<F: FnOnce() -> String>(self, f: F) -> OtelResult<T>
        requires
            f.requires(()),
    ;
}

impl<T, E: std::fmt::Display> ErrorContext<T> for Result<T, E> {
    /// An `Ok` passes through; an error becomes an initialization error
    /// whose message is `ctx: error`.
    fn context(self, ctx: &str) -> (r: OtelResult<T>)
        ensures
            self matches Ok(v) ==> (r matches Ok(w) && w == v),
            self matches Err(x) ==> (r matches Err(e) && is_context_error(e, ctx@, x)),
    {
        match self {
            Ok(v) => Ok(v),
            Err(e) => {
                let mut m = ctx.to_owned();
                m.append(": ");
                let t = e.to_string();
                m.append(t.as_str());
                let err = OtelError::Initialization(m);
                assert(is_context_error(err, ctx@, e));
                Err(err)
            },
        }
    }

    /// As [`context`](ErrorContext::context), with the context computed
    /// by `f` only when there is an error.
    fn with_context<F: FnOnce() -> String>(self, f: F) -> (r: OtelResult<T>)
        ensures
            self matches Ok(v) ==> (r matches Ok(w) && w == v),
            self matches Err(x) ==> (r matches Err(e) && exists|c: String|
                f.ensures((), c) && #[trigger] is_context_error(e, c@, x)),
    {
        match self {
            Ok(v) => Ok(v),
            Err(e) => {
                let c = f();
                let mut m = c.clone();
                m.append(": ");
                let t = e.to_string();
                m.append(t.as_str());
                let err = OtelError::Initialization(m);
                assert(is_context_error(err, c@, e));
                Err(err)
            },
        }
    }
}

} // verus!

# otel_rs

Configuration and planning for an OpenTelemetry observability stack
(traces, logs and metrics exported over OTLP), with the configuration
logic specified and proved in Verus.

## Layout

- `src/` — the verified library.
  - `config.rs`: protocol, level, format and credential enums; exporter,
    tracing and metrics configurations with their builders; the resolved
    `OtelConfig` and its builder, whose `build` resolves
    builder values over environment values over defaults.
  - `env.rs`: parsing the raw `OTEL_*` variables (header lists, timeouts,
    sampler names).
  - `filter.rs`: allow-list filter strings and `FilterBuilder`.
  - `transport.rs`: per-signal exporter plans (endpoint, TLS, timeout,
    authentication headers or gRPC metadata).
  - `init.rs`: `InitPlan`, what initialization builds from a configuration.
  - `headers.rs`: an insertion-ordered header map.
  - `error.rs`: `OtelError` and `ErrorContext`.
  - `text.rs`: text specifications and the standard-library string calls.
  - `laws.rs`: properties relating several functions.
- `app/` — the running side: reading the environment, building exporters
  and providers from an `InitPlan`, installing the global subscriber,
  `OtelGuard`, `Metrics`, span helpers and macros.
- `tests/` — tests of the library.

Sampling ratios are held as the bit pattern of their `f64` value
(`f64::to_bits`); `app` offers `trace_id_ratio(f64)`.

//! OpenTelemetry configuration for the goose agent's tracing: which signals
//! (traces, metrics, logs) are exported and how, resolved from environment
//! values and the goose configuration file, plus the construction and
//! bookkeeping of the SDK providers behind the tracing layers.
pub mod otel_config;
pub mod otel_sdk;
pub mod otlp_layer;
pub mod text;

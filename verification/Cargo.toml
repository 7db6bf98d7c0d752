[package]
name = "goose_tracing"
version = "0.1.0"
edition = "2021"
publish = false

[dependencies]
opentelemetry = "0.30"
opentelemetry_sdk = "0.30"
opentelemetry-otlp = "0.30"
opentelemetry-stdout = "0.30"
opentelemetry-appender-tracing = "0.30"
tracing = "0.1"
tracing-subscriber = "0.3"
tracing-opentelemetry = "0.31"

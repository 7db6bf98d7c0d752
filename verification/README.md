# goose_tracing

The OpenTelemetry setup of the goose agent's tracing, as a verified library.

- `src/otel_config.rs`: which signals (traces, metrics, logs) are exported and
  through which exporter, from the `OTEL_*` environment values with a fallback
  on the goose config file's OTLP endpoint.
- `src/otlp_layer.rs`: the OTLP settings of the config file, the construction
  of the service resource and of the tracing, metrics and logs layers, the registry of SDK providers
  (initialisation state and shutdown), and the per-signal event filters.
- `src/otel_sdk.rs`: the OpenTelemetry SDK, OTLP, stdout and tracing-bridge
  items used by the layer construction, declared opaque and reached through
  trusted wrappers.
- `src/text.rs`: string predicates (prefix, substring, ASCII-case-insensitive
  equality) over the character view of `&str`.
- `app/lib.rs`: the process side: reading the environment and the config
  file, the process-wide provider registry, and the
  `tracing-subscriber` filters built on the library's decisions.

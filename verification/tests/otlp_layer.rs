use goose_tracing::otel_config::{ExporterType, OtelConfig, OtelEnv, SignalConfig};
use goose_tracing::otlp_layer::{
    create_resource, BuiltResource, create_otlp_logs_layer, create_otlp_metrics_layer, create_otlp_tracing_layer,
    init_otel_propagation, logs_filter_accepts, metrics_filter_accepts, select_exporter,
    service_name_override, tracing_filter_accepts, LayerError, OtlpConfig, OtlpProviders, Signal,
    TraceLevel,
};
use opentelemetry::KeyValue;
use opentelemetry_sdk::resource::{EnvResourceDetector, TelemetryResourceDetector};
use opentelemetry_sdk::Resource;

fn resource() -> BuiltResource {
    create_resource(None, "1.2.3")
}

fn goose_defaults(version: &str) -> opentelemetry_sdk::resource::ResourceBuilder {
    Resource::builder_empty()
        .with_attributes([
            KeyValue::new("service.name", "goose"),
            KeyValue::new("service.version", version.to_string()),
            KeyValue::new("service.namespace", "goose"),
        ])
        .with_detector(Box::new(EnvResourceDetector::new()))
        .with_detector(Box::new(TelemetryResourceDetector))
}

#[test]
fn create_resource_uses_goose_defaults_without_service_name() {
    assert_eq!(create_resource(None, "1.2.3").inner, goose_defaults("1.2.3").build());
}

#[test]
fn create_resource_service_name_overrides_default() {
    assert_eq!(
        create_resource(Some("custom"), "1.2.3").inner,
        goose_defaults("1.2.3").with_service_name("custom").build()
    );
    let name = create_resource(Some("custom"), "1.2.3")
        .inner
        .get(&opentelemetry::Key::from_static_str("service.name"))
        .map(|v| v.to_string());
    assert_eq!(name.as_deref(), Some("custom"));
}

#[test]
fn create_resource_ignores_empty_service_name() {
    assert_eq!(create_resource(Some(""), "1.2.3").inner, goose_defaults("1.2.3").build());
    let version = create_resource(None, "9.9.9")
        .inner
        .get(&opentelemetry::Key::from_static_str("service.version"))
        .map(|v| v.to_string());
    assert_eq!(version.as_deref(), Some("9.9.9"));
}

#[test]
fn test_otlp_config_from_config() {
    let config = OtlpConfig::from_config(Some("http://config:4318".to_string()), Some(3000)).unwrap();
    assert_eq!(config.endpoint.as_deref(), Some("http://config:4318"));
    assert_eq!(config.timeout, Some(3000));
}

#[test]
fn otlp_config_absent_when_nothing_configured() {
    assert!(OtlpConfig::from_config(None, None).is_none());
    let only_timeout = OtlpConfig::from_config(None, Some(10)).unwrap();
    assert_eq!(only_timeout.endpoint, None);
    assert_eq!(only_timeout.timeout, Some(10));
    let only_endpoint = OtlpConfig::from_config(Some("http://e".to_string()), None).unwrap();
    assert_eq!(only_endpoint.timeout, None);
}

fn detected(sdk: Option<&str>, traces: Option<&str>, metrics: Option<&str>, logs: Option<&str>) -> Option<OtelConfig> {
    OtelConfig::detect(OtelEnv::detect(sdk, traces, metrics, logs), None)
}

fn assert_all_layers_err(config: Option<OtelConfig>) {
    let mut providers = OtlpProviders::new();
    assert!(create_otlp_tracing_layer(&mut providers, config, resource(), None).is_err());
    assert!(create_otlp_metrics_layer(&mut providers, config, resource(), None).is_err());
    assert!(create_otlp_logs_layer(&mut providers, config, resource(), None).is_err());
    assert!(!providers.is_otlp_initialized());
}

#[test]
fn test_all_layers_err_sdk_disabled() {
    assert_all_layers_err(detected(Some("true"), None, None, None));
}

#[test]
fn test_all_layers_err_all_none() {
    assert_all_layers_err(detected(None, Some("none"), Some("none"), Some("none")));
}

fn assert_all_layers_ok(exporter: &str, config_file: Option<OtlpConfig>) {
    let config = detected(None, Some(exporter), Some(exporter), Some(exporter));
    let mut providers = OtlpProviders::new();
    assert!(!providers.is_otlp_initialized());
    assert!(create_otlp_tracing_layer(&mut providers, config, resource(), config_file.clone()).is_ok());
    assert!(providers.is_otlp_initialized());
    assert!(create_otlp_metrics_layer(&mut providers, config, resource(), config_file.clone()).is_ok());
    assert!(create_otlp_logs_layer(&mut providers, config, resource(), config_file).is_ok());
    assert!(providers.holds(Signal::Traces) && providers.holds(Signal::Metrics) && providers.holds(Signal::Logs));
    providers.shutdown_otlp();
    assert!(!providers.is_otlp_initialized());
}

#[test]
fn test_all_layers_ok_console() {
    assert_all_layers_ok("console", None);
}

#[test]
fn test_all_layers_ok_otlp() {
    let config_file = OtlpConfig::from_config(Some("http://localhost:4318".to_string()), Some(1000));
    assert_all_layers_ok("otlp", config_file);
}

#[test]
fn layer_refusals_carry_their_reason() {
    let mut providers = OtlpProviders::new();
    match create_otlp_tracing_layer(&mut providers, None, resource(), None) {
        Err(e) => {
            assert!(matches!(e, LayerError::NotConfigured));
            assert_eq!(e.message(), "OTel not configured");
        }
        Ok(_) => panic!("expected an error"),
    }
    let config = detected(None, Some("console"), None, None);
    match create_otlp_metrics_layer(&mut providers, config, resource(), None) {
        Err(e) => {
            assert!(matches!(e, LayerError::SignalNotEnabled(Signal::Metrics)));
            assert_eq!(e.message(), "Metrics not enabled");
        }
        Ok(_) => panic!("expected an error"),
    }
    let disabled = Some(OtelConfig {
        traces: None,
        metrics: None,
        logs: Some(SignalConfig { exporter: ExporterType::Disabled }),
    });
    match create_otlp_logs_layer(&mut providers, disabled, resource(), None) {
        Err(e) => {
            assert!(matches!(e, LayerError::ExporterDisabled(Signal::Logs)));
            assert_eq!(e.message(), "Logs exporter set to none");
        }
        Ok(_) => panic!("expected an error"),
    }
    assert!(!providers.is_otlp_initialized());
}

#[test]
fn select_exporter_cases() {
    let file = OtelConfig::detect(None, Some("http://x"));
    assert!(matches!(select_exporter(&file, Signal::Logs), Ok(ExporterType::Otlp)));
    let env = detected(None, Some("stdout"), Some("none"), None);
    assert!(matches!(select_exporter(&env, Signal::Traces), Ok(ExporterType::Console)));
    assert!(matches!(select_exporter(&env, Signal::Metrics), Err(LayerError::SignalNotEnabled(Signal::Metrics))));
    assert!(matches!(select_exporter(&None, Signal::Traces), Err(LayerError::NotConfigured)));
}

#[test]
fn shutdown_on_empty_registry() {
    let mut providers = OtlpProviders::new();
    providers.shutdown_otlp();
    assert!(!providers.is_otlp_initialized());
}

#[test]
fn propagation_installs() {
    init_otel_propagation();
}

#[test]
fn tracing_filter_decisions() {
    assert!(tracing_filter_accepts(TraceLevel::Error, "anything", false));
    assert!(tracing_filter_accepts(TraceLevel::Warn, "anything", false));
    assert!(tracing_filter_accepts(TraceLevel::Info, "anything", false));
    assert!(tracing_filter_accepts(TraceLevel::Debug, "goose::agents", false));
    assert!(tracing_filter_accepts(TraceLevel::Debug, "opentelemetry_sdk", false));
    assert!(tracing_filter_accepts(TraceLevel::Debug, "tracing_opentelemetry::layer", false));
    assert!(!tracing_filter_accepts(TraceLevel::Debug, "goose", false));
    assert!(!tracing_filter_accepts(TraceLevel::Debug, "hyper::client", false));
    assert!(!tracing_filter_accepts(TraceLevel::Trace, "goose::agents", false));
}

#[test]
fn metrics_filter_decisions() {
    assert!(metrics_filter_accepts(TraceLevel::Info, "anything", false));
    assert!(metrics_filter_accepts(TraceLevel::Debug, "goose::telemetry::x", false));
    assert!(metrics_filter_accepts(TraceLevel::Debug, "goose::metrics", false));
    assert!(metrics_filter_accepts(TraceLevel::Debug, "app::metrics_sink", false));
    assert!(metrics_filter_accepts(TraceLevel::Debug, "metric", false));
    assert!(!metrics_filter_accepts(TraceLevel::Debug, "goose::agents", false));
    assert!(!metrics_filter_accepts(TraceLevel::Debug, "metri", false));
    assert!(!metrics_filter_accepts(TraceLevel::Trace, "goose::metrics", false));
}

#[test]
fn marked_items_pass_tracing_and_metrics_filters() {
    assert!(tracing_filter_accepts(TraceLevel::Trace, "hyper::client", true));
    assert!(tracing_filter_accepts(TraceLevel::Debug, "anything", true));
    assert!(metrics_filter_accepts(TraceLevel::Trace, "goose::agents", true));
    assert!(metrics_filter_accepts(TraceLevel::Debug, "anything", true));
    assert!(!tracing_filter_accepts(TraceLevel::Trace, "hyper::client", false));
}

#[test]
fn registry_tracks_each_signal() {
    let config = detected(None, Some("console"), None, Some("console"));
    let mut providers = OtlpProviders::new();
    assert!(create_otlp_tracing_layer(&mut providers, config, resource(), None).is_ok());
    assert!(providers.holds(Signal::Traces));
    assert!(!providers.holds(Signal::Metrics));
    assert!(!providers.holds(Signal::Logs));
    assert!(create_otlp_metrics_layer(&mut providers, config, resource(), None).is_err());
    assert!(!providers.holds(Signal::Metrics));
    providers.shutdown_otlp();
    assert!(!providers.holds(Signal::Traces));
    assert!(!providers.is_otlp_initialized());
    assert!(create_otlp_logs_layer(&mut providers, config, resource(), None).is_ok());
    assert!(providers.is_otlp_initialized());
    providers.shutdown_otlp();
}

#[test]
fn logs_filter_decisions() {
    assert!(logs_filter_accepts(TraceLevel::Error));
    assert!(logs_filter_accepts(TraceLevel::Warn));
    assert!(!logs_filter_accepts(TraceLevel::Info));
    assert!(!logs_filter_accepts(TraceLevel::Debug));
    assert!(!logs_filter_accepts(TraceLevel::Trace));
}

#[test]
fn trace_level_order() {
    assert!(TraceLevel::Error.at_most(TraceLevel::Warn));
    assert!(TraceLevel::Info.at_most(TraceLevel::Info));
    assert!(!TraceLevel::Trace.at_most(TraceLevel::Debug));
}

#[test]
fn service_name_override_cases() {
    assert_eq!(service_name_override(Some("custom")), Some("custom"));
    assert_eq!(service_name_override(Some("")), None);
    assert_eq!(service_name_override(None), None);
}

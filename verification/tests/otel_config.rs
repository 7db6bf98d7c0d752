use goose_tracing::otel_config::{ExporterType, OtelConfig, OtelEnv, SignalConfig};

#[test]
fn exporter_type_from_env_value() {
    assert_eq!(ExporterType::from_env_value("otlp"), ExporterType::Otlp);
    assert_eq!(ExporterType::from_env_value("OTLP"), ExporterType::Otlp);
    assert_eq!(ExporterType::from_env_value(""), ExporterType::Otlp);
    assert_eq!(
        ExporterType::from_env_value("console"),
        ExporterType::Console
    );
    assert_eq!(
        ExporterType::from_env_value("stdout"),
        ExporterType::Console
    );
    assert_eq!(ExporterType::from_env_value("none"), ExporterType::Disabled);
    assert_eq!(ExporterType::from_env_value("NONE"), ExporterType::Disabled);
    assert_eq!(ExporterType::from_env_value("unknown"), ExporterType::Disabled);
}

#[test]
fn exporter_type_mixed_case_and_unicode() {
    assert_eq!(ExporterType::from_env_value("StdOut"), ExporterType::Console);
    assert_eq!(ExporterType::from_env_value("Console"), ExporterType::Console);
    assert_eq!(ExporterType::from_env_value(" otlp"), ExporterType::Disabled);
    assert_eq!(ExporterType::from_env_value("otlp "), ExporterType::Disabled);
    assert_eq!(ExporterType::from_env_value("ótlp"), ExporterType::Disabled);
    assert_eq!(ExporterType::from_lowercase_value("OTLP"), ExporterType::Disabled);
    assert_eq!(ExporterType::from_lowercase_value("otlp"), ExporterType::Otlp);
    assert_eq!(ExporterType::from_lowercase_value(""), ExporterType::Otlp);
}

#[test]
fn detect_returns_none_sdk_disabled() {
    assert!(OtelEnv::detect(Some("true"), Some("console"), None, None).is_none());
    assert!(OtelEnv::detect(Some("TRUE"), Some("console"), None, None).is_none());
    assert!(OtelEnv::detect(Some("True"), Some("otlp"), Some("otlp"), Some("otlp")).is_none());
}

#[test]
fn detect_returns_none_no_vars() {
    assert!(OtelEnv::detect(None, None, None, None).is_none());
}

#[test]
fn detect_returns_none_all_none() {
    assert!(OtelEnv::detect(None, Some("none"), Some("none"), Some("none")).is_none());
}

#[test]
fn detect_sdk_disabled_other_values_do_not_disable() {
    let env = OtelEnv::detect(Some("false"), Some("console"), None, None).unwrap();
    assert!(env.traces_enabled);
    let env = OtelEnv::detect(Some("true "), Some("console"), None, None).unwrap();
    assert!(env.traces_enabled);
}

fn check_detect(
    traces: Option<&str>,
    metrics: Option<&str>,
    logs: Option<&str>,
    expect_traces: bool,
    expect_metrics: bool,
    expect_logs: bool,
) {
    let env = OtelEnv::detect(None, traces, metrics, logs).unwrap();
    assert_eq!(env.traces_enabled, expect_traces);
    assert_eq!(env.metrics_enabled, expect_metrics);
    assert_eq!(env.logs_enabled, expect_logs);
}

#[test]
fn detect_traces_only() {
    check_detect(Some("console"), None, None, true, false, false);
}

#[test]
fn detect_metrics_only() {
    check_detect(None, Some("otlp"), None, false, true, false);
}

#[test]
fn detect_logs_only() {
    check_detect(None, None, Some("console"), false, false, true);
}

#[test]
fn detect_all_enabled() {
    check_detect(Some("otlp"), Some("console"), Some("otlp"), true, true, true);
}

#[test]
fn detect_mixed() {
    check_detect(Some("console"), Some("none"), Some("otlp"), true, false, true);
}

#[test]
fn detect_empty_value_enables_otlp() {
    let env = OtelEnv::detect(None, Some(""), None, None);
    let config = OtelConfig::detect(env, None).unwrap();
    assert_eq!(config.traces, Some(SignalConfig { exporter: ExporterType::Otlp }));
    assert_eq!(config.metrics, None);
    assert_eq!(config.logs, None);
}

#[test]
fn config_from_env_uses_env_exporters() {
    let env = OtelEnv::detect(None, Some("console"), Some("none"), Some("OTLP"));
    let config = OtelConfig::detect(env, None).unwrap();
    assert_eq!(config.traces, Some(SignalConfig { exporter: ExporterType::Console }));
    assert_eq!(config.metrics, None);
    assert_eq!(config.logs, Some(SignalConfig { exporter: ExporterType::Otlp }));
}

#[test]
fn config_env_takes_precedence_over_config_file() {
    let a = OtelConfig::detect(OtelEnv::detect(None, Some("console"), None, None), None);
    let b = OtelConfig::detect(
        OtelEnv::detect(None, Some("console"), None, None),
        Some("http://config:4318"),
    );
    assert_eq!(a, b);
    assert_eq!(b.unwrap().metrics, None);
}

#[test]
fn config_falls_back_to_config_file() {
    let otlp = Some(SignalConfig { exporter: ExporterType::Otlp });
    let config = OtelConfig::detect(None, Some("http://config:4318")).unwrap();
    assert_eq!(config.traces, otlp);
    assert_eq!(config.metrics, otlp);
    assert_eq!(config.logs, otlp);
    let from_file = OtelConfig::detect_from_config(Some("")).unwrap();
    assert_eq!(from_file, config);
}

#[test]
fn config_none_without_env_or_file() {
    assert_eq!(OtelConfig::detect(None, None), None);
    assert_eq!(OtelConfig::detect_from_config(None), None);
    let disabled = OtelEnv::detect(Some("true"), Some("otlp"), None, None);
    assert_eq!(OtelConfig::detect(disabled, None), None);
}

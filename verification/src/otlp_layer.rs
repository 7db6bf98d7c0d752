//! Construction of the OTLP tracing, metrics and logs layers from a resolved
//! [`OtelConfig`], the registry of the SDK providers behind them, and the
//! event filters that decide which tracing events reach each signal.
use vstd::prelude::*;
use vstd::string::StringExecFns;

use opentelemetry_otlp::ExporterBuildError;
use opentelemetry_sdk::logs::SdkLoggerProvider;
use opentelemetry_sdk::metrics::SdkMeterProvider;
use opentelemetry_sdk::trace::SdkTracerProvider;

use crate::otel_config::{
    exporter_setting, opt_view, lemma_cascade, signal_enabled, spec_detect_config, spec_detect_env,
    ExporterType, OtelConfig, SignalConfig,
};
pub use crate::otel_config::Signal;
use crate::otel_sdk::{
    build_error_text, clone_meter_provider, log_builder_build, log_builder_with_endpoint,
    log_builder_with_http, log_builder_with_timeout, logger_builder_build,
    logger_builder_with_batch_exporter, logger_builder_with_resource,
    logger_builder_with_simple_exporter, logger_provider_builder, meter_builder_build,
    meter_builder_with_otlp_exporter, meter_builder_with_resource,
    meter_builder_with_stdout_exporter, meter_provider_builder, metric_builder_build,
    metric_builder_with_endpoint, metric_builder_with_http, metric_builder_with_timeout,
    new_logs_bridge, new_metrics_layer, new_trace_context_propagator, new_tracing_layer,
    otlp_log_exporter_builder, otlp_metric_exporter_builder, otlp_span_exporter_builder,
    provider_tracer, set_global_meter_provider, set_global_text_map_propagator,
    shutdown_logger_provider, shutdown_meter_provider, shutdown_tracer_provider,
    span_builder_build, span_builder_with_endpoint, span_builder_with_http,
    span_builder_with_timeout, stdout_log_exporter, stdout_metric_exporter, stdout_span_exporter,
    tracer_builder_build, tracer_builder_with_batch_exporter, tracer_builder_with_resource,
    tracer_builder_with_simple_exporter, tracer_provider_builder, BuiltExporter, GlobalMeterLog,
    ProviderHandle, ShutdownLog, resource_build, resource_builder_empty, resource_with_attributes,
    resource_with_env_detector, resource_with_service_name, resource_with_telemetry_detector,
};
pub use crate::otel_sdk::{
    BuiltResource, ExportRoute, GlobalPropagatorInstall, OtlpLogsLayer, OtlpMetricsLayer,
    OtlpTracingLayer, PropagatorKind, ResourceStep,
};
use crate::text::{contains, occurs_at, seq_contains, seq_has_prefix, starts_with};

verus! {

broadcast use vstd::string::group_string_axioms;

/// OTLP exporter settings read from the goose config file.
/// `timeout` is in milliseconds.
#[derive(Debug, Clone, PartialEq, Eq)]
pub struct OtlpConfig {
    pub endpoint: Option<String>,
    pub timeout: Option<u64>,
}

impl OtlpConfig {
    /// Builds the settings from the config file's `otel_exporter_otlp_endpoint`
    /// and `otel_exporter_otlp_timeout` (milliseconds) entries; `None` when
    /// neither is present.
    pub fn from_config(endpoint: Option<String>, timeout: Option<u64>) -> (r: Option<Self>)
        ensures
            r.is_none() <==> (endpoint.is_none() && timeout.is_none()),
            r matches Some(c) ==> c.endpoint == endpoint && c.timeout == timeout,
    {
        if endpoint.is_none() && timeout.is_none() {
            return None;
        }
        Some(Self { endpoint, timeout })
    }
}

/// Why a layer could not be created.
#[derive(Debug)]
pub enum LayerError {
    /// Neither the environment nor the config file configures OpenTelemetry.
    NotConfigured,
    /// The signal is not enabled in the resolved configuration.
    SignalNotEnabled(Signal),
    /// The signal's exporter is set to `none`.
    ExporterDisabled(Signal),
    /// The OTLP exporter could not be built.
    Build(ExporterBuildError),
}

/// The text of a refusal that happens before any exporter is built.
pub open spec fn refusal_text(e: LayerError) -> Seq<char> {
    match e {
        LayerError::NotConfigured => "OTel not configured"@,
        LayerError::SignalNotEnabled(Signal::Traces) => "Traces not enabled"@,
        LayerError::SignalNotEnabled(Signal::Metrics) => "Metrics not enabled"@,
        LayerError::SignalNotEnabled(Signal::Logs) => "Logs not enabled"@,
        LayerError::ExporterDisabled(Signal::Traces) => "Traces exporter set to none"@,
        LayerError::ExporterDisabled(Signal::Metrics) => "Metrics exporter set to none"@,
        LayerError::ExporterDisabled(Signal::Logs) => "Logs exporter set to none"@,
        LayerError::Build(_) => Seq::empty(),
    }
}

impl LayerError {
    /// The error's message: the refusal texts above, or the build error's own
    /// text.
    pub fn message(&self) -> (r: String)
        ensures
            !(self is Build) ==> r@ == refusal_text(*self),
    {
        match self {
            LayerError::NotConfigured => String::from_str("OTel not configured"),
            LayerError::SignalNotEnabled(Signal::Traces) => String::from_str("Traces not enabled"),
            LayerError::SignalNotEnabled(Signal::Metrics) => String::from_str("Metrics not enabled"),
            LayerError::SignalNotEnabled(Signal::Logs) => String::from_str("Logs not enabled"),
            LayerError::ExporterDisabled(Signal::Traces) => String::from_str(
                "Traces exporter set to none",
            ),
            LayerError::ExporterDisabled(Signal::Metrics) => String::from_str(
                "Metrics exporter set to none",
            ),
            LayerError::ExporterDisabled(Signal::Logs) => String::from_str(
                "Logs exporter set to none",
            ),
            LayerError::Build(e) => build_error_text(e),
        }
    }
}

/// The configuration of one signal in a resolved configuration.
pub open spec fn signal_of(config: OtelConfig, signal: Signal) -> Option<SignalConfig> {
    match signal {
        Signal::Traces => config.traces,
        Signal::Metrics => config.metrics,
        Signal::Logs => config.logs,
    }
}

/// The exporter a layer for `signal` uses, or the error its creation reports
/// before any exporter is built.
pub open spec fn spec_select_exporter(config: Option<OtelConfig>, signal: Signal) -> Result<
    ExporterType,
    LayerError,
> {
    match config {
        None => Err(LayerError::NotConfigured),
        Some(c) => match signal_of(c, signal) {
            None => Err(LayerError::SignalNotEnabled(signal)),
            Some(sc) => if sc.exporter == ExporterType::Disabled {
                Err(LayerError::ExporterDisabled(signal))
            } else {
                Ok(sc.exporter)
            },
        },
    }
}

/// Picks the exporter for `signal` from the resolved configuration: an error
/// when nothing is configured, when the signal is not enabled, or when its
/// exporter is `none`.
pub fn select_exporter(config: &Option<OtelConfig>, signal: Signal) -> (r: Result<
    ExporterType,
    LayerError,
>)
    ensures
        r == spec_select_exporter(*config, signal),
        r matches Ok(e) ==> e != ExporterType::Disabled,
{
    match config {
        None => Err(LayerError::NotConfigured),
        Some(c) => {
            let sc = match signal {
                Signal::Traces => c.traces,
                Signal::Metrics => c.metrics,
                Signal::Logs => c.logs,
            };
            match sc {
                None => Err(LayerError::SignalNotEnabled(signal)),
                Some(sc) => match sc.exporter {
                    ExporterType::Disabled => Err(LayerError::ExporterDisabled(signal)),
                    e => Ok(e),
                },
            }
        },
    }
}

/// What happened to a provider registry: a layer was created for a signal,
/// or the registry's providers were shut down.
#[derive(Debug, Clone, Copy, PartialEq, Eq, Structural)]
pub enum RegistryEvent {
    Created(Signal),
    Shutdown,
}

/// Some layer for `signal` was created after the last shutdown in `history`.
pub open spec fn created_since_shutdown(history: Seq<RegistryEvent>, signal: Signal) -> bool {
    exists|i: int|
        0 <= i < history.len() && #[trigger] history[i] == RegistryEvent::Created(signal) && (
        forall|j: int| i < j < history.len() ==> #[trigger] history[j] != RegistryEvent::Shutdown)
}

/// Some layer was created after the last shutdown in `history`.
pub open spec fn initialized_by(history: Seq<RegistryEvent>) -> bool {
    created_since_shutdown(history, Signal::Traces) || created_since_shutdown(
        history,
        Signal::Metrics,
    ) || created_since_shutdown(history, Signal::Logs)
}

/// The signals whose providers a registry holding them in these three slots
/// hands to a shutdown call, in the order traces, metrics, logs.
pub open spec fn held_signals(traces: bool, metrics: bool, logs: bool) -> Seq<Signal> {
    (if traces { seq![Signal::Traces] } else { Seq::empty() }) + (if metrics {
        seq![Signal::Metrics]
    } else {
        Seq::empty()
    }) + (if logs { seq![Signal::Logs] } else { Seq::empty() })
}

struct RegistryState {
    tracer: Option<ProviderHandle<SdkTracerProvider>>,
    meter: Option<ProviderHandle<SdkMeterProvider>>,
    logger: Option<ProviderHandle<SdkLoggerProvider>>,
    global_meter: GlobalMeterLog,
    shutdowns: ShutdownLog,
    history: Ghost<Seq<RegistryEvent>>,
}

impl RegistryState {
    spec fn held(&self, signal: Signal) -> bool {
        match signal {
            Signal::Traces => self.tracer.is_some(),
            Signal::Metrics => self.meter.is_some(),
            Signal::Logs => self.logger.is_some(),
        }
    }

    spec fn wf(&self) -> bool {
        &&& self.held(Signal::Traces) == created_since_shutdown(self.history@, Signal::Traces)
        &&& self.held(Signal::Metrics) == created_since_shutdown(self.history@, Signal::Metrics)
        &&& self.held(Signal::Logs) == created_since_shutdown(self.history@, Signal::Logs)
    }

    fn empty() -> (r: Self)
        ensures
            r.wf(),
            r.history@ == Seq::<RegistryEvent>::empty(),
            r.tracer.is_none() && r.meter.is_none() && r.logger.is_none(),
            r.shutdowns.signals() == Seq::<Signal>::empty(),
            r.global_meter.installs() == Seq::<(Seq<ExportRoute>, Seq<BuiltResource>)>::empty(),
    {
        RegistryState {
            tracer: None,
            meter: None,
            logger: None,
            global_meter: GlobalMeterLog::new(),
            shutdowns: ShutdownLog::new(),
            history: Ghost(Seq::empty()),
        }
    }
}

/// Appending a creation for `signal` makes `signal` created since the last
/// shutdown and keeps the other signals as they were.
proof fn lemma_push_created(h: Seq<RegistryEvent>, signal: Signal, other: Signal)
    ensures
        created_since_shutdown(h.push(RegistryEvent::Created(signal)), signal),
        other != signal ==> created_since_shutdown(h.push(RegistryEvent::Created(signal)), other)
            == created_since_shutdown(h, other),
{
    let h2 = h.push(RegistryEvent::Created(signal));
    assert(h2[h.len() as int] == RegistryEvent::Created(signal));
    if other != signal {
        if created_since_shutdown(h, other) {
            let i = choose|i: int|
                0 <= i < h.len() && #[trigger] h[i] == RegistryEvent::Created(other) && (forall|
                    j: int,
                | i < j < h.len() ==> #[trigger] h[j] != RegistryEvent::Shutdown);
            assert(h2[i] == RegistryEvent::Created(other));
            assert forall|j: int| i < j < h2.len() implies #[trigger] h2[j]
                != RegistryEvent::Shutdown by {
                if j < h.len() {
                    assert(h2[j] == h[j]);
                }
            }
        }
        if created_since_shutdown(h2, other) {
            let i = choose|i: int|
                0 <= i < h2.len() && #[trigger] h2[i] == RegistryEvent::Created(other) && (forall|
                    j: int,
                | i < j < h2.len() ==> #[trigger] h2[j] != RegistryEvent::Shutdown);
            assert(i < h.len());
            assert(h[i] == h2[i]);
            assert forall|j: int| i < j < h.len() implies #[trigger] h[j]
                != RegistryEvent::Shutdown by {
                assert(h2[j] == h[j]);
            }
        }
    }
}

/// After a shutdown nothing is created since the last shutdown.
proof fn lemma_push_shutdown(h: Seq<RegistryEvent>, signal: Signal)
    ensures
        !created_since_shutdown(h.push(RegistryEvent::Shutdown), signal),
{
    let h2 = h.push(RegistryEvent::Shutdown);
    assert(h2[h.len() as int] == RegistryEvent::Shutdown);
}

/// The SDK providers behind the layers created so far, kept so that they can
/// be shut down, with a record of the registry's history, of the shutdown
/// calls made on its providers and of the meter providers it installed as
/// the global meter provider.
///
/// A provider is held for a signal exactly when a layer for that signal was
/// created after the last shutdown.
pub struct OtlpProviders {
    state: RegistryState,
}

impl OtlpProviders {
    #[verifier::type_invariant]
    spec fn registry_wf(self) -> bool {
        self.state.wf()
    }

    /// Whether a provider is held for `signal`.
    pub closed spec fn held(&self, signal: Signal) -> bool {
        self.state.held(signal)
    }

    /// The exporters of the provider held for `signal`, in the order they
    /// were added (empty when none is held).
    pub closed spec fn exporters_of(&self, signal: Signal) -> Seq<ExportRoute> {
        match signal {
            Signal::Traces => match self.state.tracer {
                Some(p) => p.exporters(),
                None => Seq::empty(),
            },
            Signal::Metrics => match self.state.meter {
                Some(p) => p.exporters(),
                None => Seq::empty(),
            },
            Signal::Logs => match self.state.logger {
                Some(p) => p.exporters(),
                None => Seq::empty(),
            },
        }
    }

    /// The resources given to the provider held for `signal`, in order
    /// (empty when none is held).
    pub closed spec fn resources_of(&self, signal: Signal) -> Seq<BuiltResource> {
        match signal {
            Signal::Traces => match self.state.tracer {
                Some(p) => p.resources(),
                None => Seq::empty(),
            },
            Signal::Metrics => match self.state.meter {
                Some(p) => p.resources(),
                None => Seq::empty(),
            },
            Signal::Logs => match self.state.logger {
                Some(p) => p.resources(),
                None => Seq::empty(),
            },
        }
    }

    /// The layer creations and shutdowns this registry has gone through.
    pub closed spec fn history(&self) -> Seq<RegistryEvent> {
        self.state.history@
    }

    /// The signals whose providers this registry handed to a shutdown call, in order.
    pub closed spec fn shutdown_calls(&self) -> Seq<Signal> {
        self.state.shutdowns.signals()
    }

    /// The meter providers this registry installed as the global meter
    /// provider, in order, each by its exporters and resources.
    pub closed spec fn global_meter_installs(&self) -> Seq<(Seq<ExportRoute>, Seq<BuiltResource>)> {
        self.state.global_meter.installs()
    }

    /// Whether any provider is held.
    pub open spec fn initialized(&self) -> bool {
        self.held(Signal::Traces) || self.held(Signal::Metrics) || self.held(Signal::Logs)
    }

    /// A registry holding no provider, with no history.
    pub fn new() -> (r: Self)
        ensures
            !r.held(Signal::Traces),
            !r.held(Signal::Metrics),
            !r.held(Signal::Logs),
            r.history() == Seq::<RegistryEvent>::empty(),
            r.shutdown_calls() == Seq::<Signal>::empty(),
            r.global_meter_installs() == Seq::<(Seq<ExportRoute>, Seq<BuiltResource>)>::empty(),
    {
        OtlpProviders { state: RegistryState::empty() }
    }

    /// Whether a provider is held for `signal`.
    pub fn holds(&self, signal: Signal) -> (r: bool)
        ensures
            r == self.held(signal),
            r == created_since_shutdown(self.history(), signal),
    {
        proof {
            use_type_invariant(self);
        }
        match signal {
            Signal::Traces => self.state.tracer.is_some(),
            Signal::Metrics => self.state.meter.is_some(),
            Signal::Logs => self.state.logger.is_some(),
        }
    }

    /// Whether any OTLP provider has been installed and not shut down since:
    /// exactly when some layer was created after the last shutdown.
    pub fn is_otlp_initialized(&self) -> (r: bool)
        ensures
            r == self.initialized(),
            r == initialized_by(self.history()),
    {
        proof {
            use_type_invariant(self);
        }
        self.state.tracer.is_some() || self.state.meter.is_some() || self.state.logger.is_some()
    }

    /// Shuts down every held provider (traces, then metrics, then logs) and
    /// forgets it.
    pub fn shutdown_otlp(&mut self)
        ensures
            !final(self).initialized(),
            !final(self).held(Signal::Traces),
            !final(self).held(Signal::Metrics),
            !final(self).held(Signal::Logs),
            final(self).shutdown_calls() == old(self).shutdown_calls() + held_signals(
                old(self).held(Signal::Traces),
                old(self).held(Signal::Metrics),
                old(self).held(Signal::Logs),
            ),
            final(self).history() == old(self).history().push(RegistryEvent::Shutdown),
            final(self).global_meter_installs() == old(self).global_meter_installs(),
    {
        proof {
            use_type_invariant(&*self);
        }
        let mut st = RegistryState::empty();
        core::mem::swap(&mut self.state, &mut st);
        let ghost before = st;
        if let Some(provider) = st.tracer.take() {
            shutdown_tracer_provider(provider, &mut st.shutdowns);
        }
        if let Some(provider) = st.meter.take() {
            shutdown_meter_provider(provider, &mut st.shutdowns);
        }
        if let Some(provider) = st.logger.take() {
            shutdown_logger_provider(provider, &mut st.shutdowns);
        }
        st.history = Ghost(st.history@.push(RegistryEvent::Shutdown));
        proof {
            lemma_push_shutdown(before.history@, Signal::Traces);
            lemma_push_shutdown(before.history@, Signal::Metrics);
            lemma_push_shutdown(before.history@, Signal::Logs);
            assert(st.shutdowns.signals() =~= before.shutdowns.signals() + held_signals(
                before.tracer.is_some(),
                before.meter.is_some(),
                before.logger.is_some(),
            ));
        }
        self.state = st;
    }
}

/// The OTLP endpoint of the config-file settings, if any.
pub open spec fn file_endpoint(config_file: Option<OtlpConfig>) -> Option<Seq<char>> {
    match config_file {
        Some(c) => match c.endpoint {
            Some(e) => Some(e@),
            None => None,
        },
        None => None,
    }
}

/// The OTLP timeout (milliseconds) of the config-file settings, if any.
pub open spec fn file_timeout(config_file: Option<OtlpConfig>) -> Option<u64> {
    match config_file {
        Some(c) => c.timeout,
        None => None,
    }
}

/// The exporter a layer's provider is built with once `selected` is chosen:
/// OTLP with the config file's endpoint and timeout, or the console.
pub open spec fn expected_route(selected: ExporterType, config_file: Option<OtlpConfig>) -> ExportRoute {
    if selected == ExporterType::Otlp {
        ExportRoute::Otlp { endpoint: file_endpoint(config_file), timeout_ms: file_timeout(config_file) }
    } else {
        ExportRoute::Console
    }
}

/// The config file's OTLP settings reach the exporter each on its own: a
/// layer built with OTLP gets exactly the file's endpoint whenever one is
/// set, whether or not a timeout is set too, and exactly the file's timeout
/// whenever one is set, whether or not an endpoint is set; without a config
/// file neither is set. A console layer uses neither.
pub proof fn lemma_file_settings_applied(c: OtlpConfig)
    ensures
        c.endpoint matches Some(e) ==> file_endpoint(Some(c)) == Some(e@),
        c.endpoint is None ==> file_endpoint(Some(c)) is None,
        file_timeout(Some(c)) == c.timeout,
        file_endpoint(None) is None,
        file_timeout(None) is None,
        expected_route(ExporterType::Otlp, Some(c)) matches ExportRoute::Otlp { endpoint, timeout_ms }
            && timeout_ms == c.timeout && (c.endpoint matches Some(e) ==> endpoint == Some(e@)) && (
        c.endpoint is None ==> endpoint is None),
        expected_route(ExporterType::Console, Some(c)) == ExportRoute::Console,
{
}

/// The OTLP span exporter over HTTP, with the config file's endpoint and
/// timeout applied where they are set.
fn build_otlp_span_exporter(config_file: &Option<OtlpConfig>) -> (r: Result<
    BuiltExporter<opentelemetry_otlp::SpanExporter>,
    ExporterBuildError,
>)
    ensures
        r matches Ok(e) ==> e.endpoint() == file_endpoint(*config_file) && e.timeout_ms()
            == file_timeout(*config_file),
{
    let mut builder = span_builder_with_http(otlp_span_exporter_builder());
    if let Some(cfg) = config_file {
        if let Some(endpoint) = &cfg.endpoint {
            builder = span_builder_with_endpoint(builder, endpoint.as_str());
        }
        if let Some(timeout) = cfg.timeout {
            builder = span_builder_with_timeout(builder, timeout);
        }
    }
    span_builder_build(builder)
}

/// The OTLP metric exporter over HTTP, with the config file's endpoint and
/// timeout applied where they are set.
fn build_otlp_metric_exporter(config_file: &Option<OtlpConfig>) -> (r: Result<
    BuiltExporter<opentelemetry_otlp::MetricExporter>,
    ExporterBuildError,
>)
    ensures
        r matches Ok(e) ==> e.endpoint() == file_endpoint(*config_file) && e.timeout_ms()
            == file_timeout(*config_file),
{
    let mut builder = metric_builder_with_http(otlp_metric_exporter_builder());
    if let Some(cfg) = config_file {
        if let Some(endpoint) = &cfg.endpoint {
            builder = metric_builder_with_endpoint(builder, endpoint.as_str());
        }
        if let Some(timeout) = cfg.timeout {
            builder = metric_builder_with_timeout(builder, timeout);
        }
    }
    metric_builder_build(builder)
}

/// The OTLP log exporter over HTTP, with the config file's endpoint and
/// timeout applied where they are set.
fn build_otlp_log_exporter(config_file: &Option<OtlpConfig>) -> (r: Result<
    BuiltExporter<opentelemetry_otlp::LogExporter>,
    ExporterBuildError,
>)
    ensures
        r matches Ok(e) ==> e.endpoint() == file_endpoint(*config_file) && e.timeout_ms()
            == file_timeout(*config_file),
{
    let mut builder = log_builder_with_http(otlp_log_exporter_builder());
    if let Some(cfg) = config_file {
        if let Some(endpoint) = &cfg.endpoint {
            builder = log_builder_with_endpoint(builder, endpoint.as_str());
        }
        if let Some(timeout) = cfg.timeout {
            builder = log_builder_with_timeout(builder, timeout);
        }
    }
    log_builder_build(builder)
}

/// The outcome every layer constructor shares: when the configuration
/// selects no exporter for the signal it fails with that selection error;
/// any other failure is a build error, which happens only when OTLP is
/// selected; it succeeds whenever the console exporter is selected.
pub open spec fn layer_outcome<T>(
    config: Option<OtelConfig>,
    signal: Signal,
    r: Result<T, LayerError>,
) -> bool {
    &&& (spec_select_exporter(config, signal) matches Err(e) ==> r matches Err(e2) && e2 == e)
    &&& (r matches Err(e) ==> (!(e is Build) ==> spec_select_exporter(config, signal) == Err::<
        ExporterType,
        LayerError,
    >(e)))
    &&& (r is Ok ==> spec_select_exporter(config, signal) is Ok)
    &&& (r matches Err(LayerError::Build(_)) ==> spec_select_exporter(config, signal) == Ok::<
        ExporterType,
        LayerError,
    >(ExporterType::Otlp))
    &&& (spec_select_exporter(config, signal) == Ok::<ExporterType, LayerError>(
        ExporterType::Console,
    ) ==> r is Ok)
}

/// A successful layer creation for `signal`: the registry now holds a
/// provider for it, built with the selected exporter alone (OTLP with the
/// config file's endpoint and timeout, or the console) and with the given
/// resource alone, the creation is appended to its history, and the other
/// signals' providers and the shutdown record are unchanged.
pub open spec fn created_layer(
    before: OtlpProviders,
    after: OtlpProviders,
    signal: Signal,
    config: Option<OtelConfig>,
    config_file: Option<OtlpConfig>,
    resource: BuiltResource,
) -> bool {
    &&& after.held(signal)
    &&& spec_select_exporter(config, signal) matches Ok(selected) && after.exporters_of(signal)
        == seq![expected_route(selected, config_file)]
    &&& after.resources_of(signal) == seq![resource]
    &&& after.history() == before.history().push(RegistryEvent::Created(signal))
    &&& after.shutdown_calls() == before.shutdown_calls()
    &&& forall|s: Signal| s != signal ==> #[trigger] after.held(s) == before.held(s)
    &&& forall|s: Signal| s != signal ==> #[trigger] after.exporters_of(s) == before.exporters_of(s)
    &&& forall|s: Signal| s != signal ==> #[trigger] after.resources_of(s) == before.resources_of(s)
}

/// Creates the layer that exports tracing spans, from the resolved
/// configuration (`OtelConfig::detect`), the service resource, and the OTLP
/// settings of the config file (`OtlpConfig::from_config`). On success the
/// tracer provider is kept in `providers` (replacing any earlier one).
pub fn create_otlp_tracing_layer(
    providers: &mut OtlpProviders,
    otel_config: Option<OtelConfig>,
    resource: BuiltResource,
    config_file: Option<OtlpConfig>,
) -> (r: Result<OtlpTracingLayer, LayerError>)
    ensures
        layer_outcome(otel_config, Signal::Traces, r),
        r is Err ==> *final(providers) == *old(providers),
        r is Ok ==> final(providers).initialized(),
        r is Ok ==> created_layer(
            *old(providers),
            *final(providers),
            Signal::Traces,
            otel_config,
            config_file,
            resource,
        ),
        r matches Ok(l) ==> l.exporters() == final(providers).exporters_of(Signal::Traces)
            && l.resources() == final(providers).resources_of(Signal::Traces),
        r matches Ok(l) ==> l.tracer_name() == "goose"@,
        r is Ok ==> final(providers).global_meter_installs() == old(providers).global_meter_installs(),
{
    proof {
        use_type_invariant(&*providers);
    }
    let exporter = match select_exporter(&otel_config, Signal::Traces) {
        Ok(e) => e,
        Err(e) => return Err(e),
    };
    let tracer_provider = match exporter {
        ExporterType::Otlp => {
            let otlp_exporter = match build_otlp_span_exporter(&config_file) {
                Ok(x) => x,
                Err(e) => return Err(LayerError::Build(e)),
            };
            let builder = tracer_builder_with_batch_exporter(tracer_provider_builder(), otlp_exporter);
            tracer_builder_build(tracer_builder_with_resource(builder, resource))
        },
        _ => {
            let builder = tracer_builder_with_simple_exporter(
                tracer_provider_builder(),
                stdout_span_exporter(),
            );
            tracer_builder_build(tracer_builder_with_resource(builder, resource))
        },
    };
    let tracer = provider_tracer(&tracer_provider, "goose");
    let mut st = RegistryState::empty();
    core::mem::swap(&mut providers.state, &mut st);
    let ghost before = st;
    st.tracer = Some(tracer_provider);
    st.history = Ghost(st.history@.push(RegistryEvent::Created(Signal::Traces)));
    proof {
        lemma_push_created(before.history@, Signal::Traces, Signal::Metrics);
        lemma_push_created(before.history@, Signal::Traces, Signal::Logs);
    }
    providers.state = st;
    Ok(new_tracing_layer(tracer))
}

/// Creates the layer that turns tracing events into metrics, from the
/// resolved configuration, the service resource, and the OTLP settings of
/// the config file. On success the meter provider is installed as the global
/// meter provider and kept in `providers` (replacing any earlier one).
pub fn create_otlp_metrics_layer(
    providers: &mut OtlpProviders,
    otel_config: Option<OtelConfig>,
    resource: BuiltResource,
    config_file: Option<OtlpConfig>,
) -> (r: Result<OtlpMetricsLayer, LayerError>)
    ensures
        layer_outcome(otel_config, Signal::Metrics, r),
        r is Err ==> *final(providers) == *old(providers),
        r is Ok ==> final(providers).initialized(),
        r is Ok ==> created_layer(
            *old(providers),
            *final(providers),
            Signal::Metrics,
            otel_config,
            config_file,
            resource,
        ),
        r matches Ok(l) ==> l.exporters() == final(providers).exporters_of(Signal::Metrics)
            && l.resources() == final(providers).resources_of(Signal::Metrics),
        r is Ok ==> final(providers).global_meter_installs() == old(
            providers,
        ).global_meter_installs().push(
            (final(providers).exporters_of(Signal::Metrics), final(providers).resources_of(Signal::Metrics)),
        ),
{
    proof {
        use_type_invariant(&*providers);
    }
    let exporter = match select_exporter(&otel_config, Signal::Metrics) {
        Ok(e) => e,
        Err(e) => return Err(e),
    };
    let meter_provider = match exporter {
        ExporterType::Otlp => {
            let otlp_exporter = match build_otlp_metric_exporter(&config_file) {
                Ok(x) => x,
                Err(e) => return Err(LayerError::Build(e)),
            };
            let builder = meter_builder_with_resource(meter_provider_builder(), resource);
            meter_builder_build(meter_builder_with_otlp_exporter(builder, otlp_exporter))
        },
        _ => {
            let builder = meter_builder_with_resource(meter_provider_builder(), resource);
            meter_builder_build(meter_builder_with_stdout_exporter(builder, stdout_metric_exporter()))
        },
    };
    let mut st = RegistryState::empty();
    core::mem::swap(&mut providers.state, &mut st);
    let ghost before = st;
    set_global_meter_provider(clone_meter_provider(&meter_provider), &mut st.global_meter);
    st.meter = Some(clone_meter_provider(&meter_provider));
    st.history = Ghost(st.history@.push(RegistryEvent::Created(Signal::Metrics)));
    proof {
        lemma_push_created(before.history@, Signal::Metrics, Signal::Traces);
        lemma_push_created(before.history@, Signal::Metrics, Signal::Logs);
    }
    providers.state = st;
    Ok(new_metrics_layer(meter_provider))
}

/// Creates the layer that forwards tracing events as OpenTelemetry log
/// records, from the resolved configuration, the service resource, and the
/// OTLP settings of the config file. On success the logger provider is kept
/// in `providers` (replacing any earlier one).
pub fn create_otlp_logs_layer(
    providers: &mut OtlpProviders,
    otel_config: Option<OtelConfig>,
    resource: BuiltResource,
    config_file: Option<OtlpConfig>,
) -> (r: Result<OtlpLogsLayer, LayerError>)
    ensures
        layer_outcome(otel_config, Signal::Logs, r),
        r is Err ==> *final(providers) == *old(providers),
        r is Ok ==> final(providers).initialized(),
        r is Ok ==> created_layer(
            *old(providers),
            *final(providers),
            Signal::Logs,
            otel_config,
            config_file,
            resource,
        ),
        r matches Ok(l) ==> l.exporters() == final(providers).exporters_of(Signal::Logs)
            && l.resources() == final(providers).resources_of(Signal::Logs),
        r is Ok ==> final(providers).global_meter_installs() == old(providers).global_meter_installs(),
{
    proof {
        use_type_invariant(&*providers);
    }
    let exporter = match select_exporter(&otel_config, Signal::Logs) {
        Ok(e) => e,
        Err(e) => return Err(e),
    };
    let logger_provider = match exporter {
        ExporterType::Otlp => {
            let otlp_exporter = match build_otlp_log_exporter(&config_file) {
                Ok(x) => x,
                Err(e) => return Err(LayerError::Build(e)),
            };
            let builder = logger_builder_with_batch_exporter(logger_provider_builder(), otlp_exporter);
            logger_builder_build(logger_builder_with_resource(builder, resource))
        },
        _ => {
            let builder = logger_builder_with_simple_exporter(
                logger_provider_builder(),
                stdout_log_exporter(),
            );
            logger_builder_build(logger_builder_with_resource(builder, resource))
        },
    };
    let bridge = new_logs_bridge(&logger_provider);
    let mut st = RegistryState::empty();
    core::mem::swap(&mut providers.state, &mut st);
    let ghost before = st;
    st.logger = Some(logger_provider);
    st.history = Ghost(st.history@.push(RegistryEvent::Created(Signal::Logs)));
    proof {
        lemma_push_created(before.history@, Signal::Logs, Signal::Traces);
        lemma_push_created(before.history@, Signal::Logs, Signal::Metrics);
    }
    providers.state = st;
    Ok(bridge)
}

/// The exporter variable's value for `signal` among the traces, metrics and
/// logs values.
pub open spec fn value_for(
    signal: Signal,
    traces: Option<Seq<char>>,
    metrics: Option<Seq<char>>,
    logs: Option<Seq<char>>,
) -> Option<Seq<char>> {
    match signal {
        Signal::Traces => traces,
        Signal::Metrics => metrics,
        Signal::Logs => logs,
    }
}

/// What a layer request is answered, from the four environment values and
/// the presence of a config-file endpoint:
/// - when the environment enables nothing (or disables the SDK) and the
///   config file has no endpoint, every layer is refused as not configured;
/// - when the environment enables nothing and the config file has an
///   endpoint, every layer uses OTLP;
/// - when the environment enables something, a layer uses the exporter its
///   variable names if that signal is enabled, and is refused as not enabled
///   otherwise;
/// - the `none`-exporter refusal never occurs for a detected configuration.
pub proof fn lemma_layer_selection(
    sdk: Option<Seq<char>>,
    traces: Option<Seq<char>>,
    metrics: Option<Seq<char>>,
    logs: Option<Seq<char>>,
    endpoint_configured: bool,
    signal: Signal,
)
    ensures
        ({
            let env = spec_detect_env(sdk, traces, metrics, logs);
            let sel = spec_select_exporter(spec_detect_config(env, endpoint_configured), signal);
            let v = value_for(signal, traces, metrics, logs);
            &&& (env.is_none() && !endpoint_configured) ==> (sel matches Err(LayerError::NotConfigured))
            &&& (env.is_none() && endpoint_configured) ==> sel == Ok::<ExporterType, LayerError>(
                ExporterType::Otlp,
            )
            &&& (env.is_some() && signal_enabled(v)) ==> exporter_setting(v) == Some(
                sel->Ok_0,
            ) && sel is Ok
            &&& (env.is_some() && !signal_enabled(v)) ==> (sel matches Err(
                LayerError::SignalNotEnabled(s),
            ) && s == signal)
            &&& !(sel matches Err(LayerError::ExporterDisabled(_)))
        }),
{
    lemma_cascade(sdk, traces, metrics, logs, endpoint_configured);
}

/// Verbosity of tracing levels, least verbose first.
#[derive(Debug, Clone, Copy, PartialEq, Eq, Structural)]
pub enum TraceLevel {
    Error,
    Warn,
    Info,
    Debug,
    Trace,
}

impl TraceLevel {
    /// The level's rank, from `Error` (0) to `Trace` (4); a level compares
    /// below another when it is less verbose.
    pub open spec fn verbosity(self) -> int {
        match self {
            TraceLevel::Error => 0,
            TraceLevel::Warn => 1,
            TraceLevel::Info => 2,
            TraceLevel::Debug => 3,
            TraceLevel::Trace => 4,
        }
    }

    fn rank(self) -> (r: u8)
        ensures
            r == self.verbosity(),
    {
        match self {
            TraceLevel::Error => 0,
            TraceLevel::Warn => 1,
            TraceLevel::Info => 2,
            TraceLevel::Debug => 3,
            TraceLevel::Trace => 4,
        }
    }

    /// `self <= other` in tracing's level order (less or equally verbose).
    pub fn at_most(self, other: TraceLevel) -> (r: bool)
        ensures
            r == (self.verbosity() <= other.verbosity()),
    {
        self.rank() <= other.rank()
    }
}

/// Which spans and events the OTLP tracing filter lets through: everything
/// at INFO level and above, items marked with the `otel.trace` field
/// (`marked`), and DEBUG items whose target starts with `goose::`,
/// `opentelemetry` or `tracing_opentelemetry`.
pub open spec fn tracing_filter_spec(level: TraceLevel, target: Seq<char>, marked: bool) -> bool {
    ||| level.verbosity() <= TraceLevel::Info.verbosity()
    ||| marked
    ||| (level == TraceLevel::Debug && (seq_has_prefix(target, "goose::"@) || seq_has_prefix(
        target,
        "opentelemetry"@,
    ) || seq_has_prefix(target, "tracing_opentelemetry"@)))
}

/// Which events the OTLP metrics filter lets through: everything at INFO
/// level and above, events marked with the `otel.metric` field (`marked`),
/// and DEBUG events whose target starts with `goose::telemetry` or
/// `goose::metrics`, or contains `metric`.
pub open spec fn metrics_filter_spec(level: TraceLevel, target: Seq<char>, marked: bool) -> bool {
    ||| level.verbosity() <= TraceLevel::Info.verbosity()
    ||| marked
    ||| (level == TraceLevel::Debug && (seq_has_prefix(target, "goose::telemetry"@)
        || seq_has_prefix(target, "goose::metrics"@) || seq_contains(target, "metric"@)))
}

/// Which events the OTLP logs filter lets through: everything at WARN level
/// and above.
pub open spec fn logs_filter_spec(level: TraceLevel) -> bool {
    level.verbosity() <= TraceLevel::Warn.verbosity()
}

/// The decision of the OTLP tracing filter for an item's level, its target,
/// and whether it carries the `otel.trace` field.
pub fn tracing_filter_accepts(level: TraceLevel, target: &str, marked: bool) -> (r: bool)
    ensures
        r == tracing_filter_spec(level, target@, marked),
{
    if level.at_most(TraceLevel::Info) {
        return true;
    }
    if marked {
        return true;
    }
    if level == TraceLevel::Debug {
        if starts_with(target, "goose::") || starts_with(target, "opentelemetry") || starts_with(
            target,
            "tracing_opentelemetry",
        ) {
            return true;
        }
    }
    false
}

/// The decision of the OTLP metrics filter for an event's level, its target,
/// and whether it carries the `otel.metric` field.
pub fn metrics_filter_accepts(level: TraceLevel, target: &str, marked: bool) -> (r: bool)
    ensures
        r == metrics_filter_spec(level, target@, marked),
{
    if level.at_most(TraceLevel::Info) {
        return true;
    }
    if marked {
        return true;
    }
    if level == TraceLevel::Debug {
        if starts_with(target, "goose::telemetry") || starts_with(target, "goose::metrics")
            || contains(target, "metric") {
            return true;
        }
    }
    false
}

/// The decision of the OTLP logs filter for an event's level.
pub fn logs_filter_accepts(level: TraceLevel) -> (r: bool)
    ensures
        r == logs_filter_spec(level),
{
    level.at_most(TraceLevel::Warn)
}

/// The filters only narrow with verbosity: an item a filter lets through is
/// let through at every less verbose level with the same target and marker;
/// a marked item passes the tracing and metrics filters at any level;
/// nothing unmarked at TRACE level passes any of them; and what the logs
/// filter lets through the tracing and metrics filters let through too.
pub proof fn lemma_filters_monotone(
    level: TraceLevel,
    quieter: TraceLevel,
    target: Seq<char>,
    marked: bool,
)
    requires
        quieter.verbosity() <= level.verbosity(),
    ensures
        tracing_filter_spec(level, target, marked) ==> tracing_filter_spec(quieter, target, marked),
        metrics_filter_spec(level, target, marked) ==> metrics_filter_spec(quieter, target, marked),
        logs_filter_spec(level) ==> logs_filter_spec(quieter),
        tracing_filter_spec(level, target, true),
        metrics_filter_spec(level, target, true),
        !tracing_filter_spec(TraceLevel::Trace, target, false),
        !metrics_filter_spec(TraceLevel::Trace, target, false),
        !logs_filter_spec(TraceLevel::Trace),
        logs_filter_spec(level) ==> tracing_filter_spec(level, target, marked)
            && metrics_filter_spec(level, target, marked),
{
}

/// Which targets the filters let through at DEBUG level without a marker
/// field, for every target: the tracing filter exactly those that begin
/// with `goose::`, `opentelemetry` or `tracing_opentelemetry`; the metrics
/// filter exactly those that begin with `goose::telemetry` or
/// `goose::metrics` or contain `metric`. Every item at INFO level or above
/// passes both, and a target that passes keeps passing when characters are
/// appended to it (a submodule of a target that passes passes too). The
/// logs filter lets through exactly the ERROR and WARN items.
pub proof fn lemma_filter_targets(
    level: TraceLevel,
    target: Seq<char>,
    suffix: Seq<char>,
    marked: bool,
)
    ensures
        seq_has_prefix(target, "goose::"@) ==> tracing_filter_spec(TraceLevel::Debug, target, false),
        seq_has_prefix(target, "opentelemetry"@) ==> tracing_filter_spec(
            TraceLevel::Debug,
            target,
            false,
        ),
        seq_has_prefix(target, "tracing_opentelemetry"@) ==> tracing_filter_spec(
            TraceLevel::Debug,
            target,
            false,
        ),
        tracing_filter_spec(TraceLevel::Debug, target, false) ==> seq_has_prefix(target, "goose::"@)
            || seq_has_prefix(target, "opentelemetry"@) || seq_has_prefix(
            target,
            "tracing_opentelemetry"@,
        ),
        seq_has_prefix(target, "goose::telemetry"@) ==> metrics_filter_spec(
            TraceLevel::Debug,
            target,
            false,
        ),
        seq_has_prefix(target, "goose::metrics"@) ==> metrics_filter_spec(
            TraceLevel::Debug,
            target,
            false,
        ),
        seq_contains(target, "metric"@) ==> metrics_filter_spec(TraceLevel::Debug, target, false),
        metrics_filter_spec(TraceLevel::Debug, target, false) ==> seq_has_prefix(
            target,
            "goose::telemetry"@,
        ) || seq_has_prefix(target, "goose::metrics"@) || seq_contains(target, "metric"@),
        level.verbosity() <= TraceLevel::Info.verbosity() ==> tracing_filter_spec(
            level,
            target,
            marked,
        ) && metrics_filter_spec(level, target, marked) && (level.verbosity()
            <= TraceLevel::Warn.verbosity() ==> logs_filter_spec(level)),
        tracing_filter_spec(level, target, marked) ==> tracing_filter_spec(
            level,
            target + suffix,
            marked,
        ),
        metrics_filter_spec(level, target, marked) ==> metrics_filter_spec(
            level,
            target + suffix,
            marked,
        ),
        logs_filter_spec(level) <==> (level == TraceLevel::Error || level == TraceLevel::Warn),
{
    let t2 = target + suffix;
    assert forall|p: Seq<char>| seq_has_prefix(target, p) implies #[trigger] seq_has_prefix(t2, p) by {
        assert(t2.subrange(0, p.len() as int) =~= target.subrange(0, p.len() as int));
    }
    if seq_contains(target, "metric"@) {
        let i = choose|i: int| occurs_at(target, "metric"@, i);
        assert(t2.subrange(i, i + "metric"@.len()) =~= target.subrange(i, i + "metric"@.len()));
        assert(occurs_at(t2, "metric"@, i));
    }
}

/// `OTEL_SERVICE_NAME` names the service when it is set and non-empty.
pub fn service_name_override(env_value: Option<&str>) -> (r: Option<&str>)
    ensures
        r == (if env_value matches Some(n) && n@.len() > 0 {
            env_value
        } else {
            None
        }),
{
    match env_value {
        Some(name) => if name.unicode_len() > 0 {
            Some(name)
        } else {
            None
        },
        None => None,
    }
}

/// The steps that build the service resource: goose's default attributes
/// (`service.name` and `service.namespace` set to `goose`, `service.version`
/// to `version`), then the `OTEL_RESOURCE_ATTRIBUTES` detector, then the
/// telemetry-SDK detector, and last, so that it takes highest priority, the
/// `OTEL_SERVICE_NAME` value when it is set and non-empty.
pub open spec fn resource_steps(service_name_value: Option<Seq<char>>, version: Seq<char>) -> Seq<
    ResourceStep,
> {
    seq![
        ResourceStep::Attributes(
            seq![
                ("service.name"@, "goose"@),
                ("service.version"@, version),
                ("service.namespace"@, "goose"@),
            ],
        ),
        ResourceStep::EnvDetector,
        ResourceStep::TelemetryDetector,
    ] + (if service_name_value matches Some(n) && n.len() > 0 {
        seq![ResourceStep::ServiceName(service_name_value.unwrap())]
    } else {
        Seq::empty()
    })
}

/// The layout of the service resource: goose's default attributes come
/// first, the `OTEL_RESOURCE_ATTRIBUTES` detector second (so what it finds
/// overrides the defaults), the telemetry-SDK detector third, and a set,
/// non-empty `OTEL_SERVICE_NAME` last (so it overrides everything before
/// it); an unset or empty name adds nothing, and setting a name only appends
/// that step.
pub proof fn lemma_resource_layout(name: Option<Seq<char>>, version: Seq<char>)
    ensures
        ({
            let s = resource_steps(name, version);
            &&& s[0] == ResourceStep::Attributes(
                seq![
                    ("service.name"@, "goose"@),
                    ("service.version"@, version),
                    ("service.namespace"@, "goose"@),
                ],
            )
            &&& s[1] == ResourceStep::EnvDetector
            &&& s[2] == ResourceStep::TelemetryDetector
            &&& (name is Some && name.unwrap().len() > 0) ==> s.len() == 4 && s[3]
                == ResourceStep::ServiceName(name.unwrap())
            &&& !(name is Some && name.unwrap().len() > 0) ==> s.len() == 3
        }),
        name is Some && name.unwrap().len() > 0 ==> resource_steps(name, version) == resource_steps(
            None,
            version,
        ).push(ResourceStep::ServiceName(name.unwrap())),
        name is Some && name.unwrap().len() == 0 ==> resource_steps(name, version) == resource_steps(
            None,
            version,
        ),
{
    let s = resource_steps(name, version);
    if name is Some && name.unwrap().len() > 0 {
        assert(s =~= resource_steps(None, version).push(ResourceStep::ServiceName(name.unwrap())));
    } else {
        assert(s =~= resource_steps(None, version));
    }
}

/// Builds the service resource from the value of `OTEL_SERVICE_NAME`
/// (`None` when unset) and the service version.
pub fn create_resource(service_name_value: Option<&str>, version: &str) -> (r: BuiltResource)
    ensures
        r.steps() == resource_steps(opt_view(service_name_value), version@),
{
    let mut attributes: Vec<(&str, &str)> = Vec::new();
    attributes.push(("service.name", "goose"));
    attributes.push(("service.version", version));
    attributes.push(("service.namespace", "goose"));
    let builder = resource_with_attributes(resource_builder_empty(), attributes.as_slice());
    let builder = resource_with_env_detector(builder);
    let mut builder = resource_with_telemetry_detector(builder);
    proof {
        assert(attributes@.map_values(|kv: (&str, &str)| (kv.0@, kv.1@)) =~= seq![
            ("service.name"@, "goose"@),
            ("service.version"@, version@),
            ("service.namespace"@, "goose"@),
        ]);
    }
    if let Some(name) = service_name_override(service_name_value) {
        builder = resource_with_service_name(builder, name);
    }
    let r = resource_build(builder);
    proof {
        assert(r.steps() =~= resource_steps(opt_view(service_name_value), version@));
    }
    r
}

/// Installs the W3C trace-context propagator as the global text-map
/// propagator, and returns the record of that installation.
pub fn init_otel_propagation() -> (r: GlobalPropagatorInstall)
    ensures
        r.kind() == PropagatorKind::TraceContext,
{
    set_global_text_map_propagator(new_trace_context_propagator())
}

} // verus!

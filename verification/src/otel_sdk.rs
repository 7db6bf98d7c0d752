//! The OpenTelemetry SDK, OTLP, stdout and tracing-bridge items that the
//! layer construction uses. Each outside type is declared opaque, and each
//! outside function is reached through a trusted wrapper that makes one
//! outside call.
//!
//! The exporter builders, exporters, provider builders, providers, tracers
//! and layers are carried in small structs of this module that record, as
//! ghost state, what has been set up on them: the endpoint and timeout given
//! to an OTLP exporter builder, and the exporters (OTLP with those settings,
//! or the console) and resources added to a provider, in order (the SDK
//! builders add exporters and merge resources cumulatively). A resource
//! carries the steps of the builder it was built from. Tracers carry their
//! name and, like the layers, the record of the provider they come from. The fields are
//! private to this module, so only the trusted items below produce or change
//! these records, each as its contract says. Further records, produced
//! only here, list the providers handed to a shutdown call, the meter
//! providers installed as the global meter provider, and the installation
//! of the global text-map propagator.
use vstd::prelude::*;

use core::time::Duration;

use crate::otel_config::Signal;
use opentelemetry::trace::TracerProvider;
use opentelemetry_otlp::{
    ExporterBuildError, HttpExporterBuilderSet, LogExporterBuilder, MetricExporterBuilder,
    NoExporterBuilderSet, SpanExporterBuilder, WithExportConfig,
};
use opentelemetry_sdk::logs::{LoggerProviderBuilder, SdkLogger, SdkLoggerProvider};
use opentelemetry_sdk::metrics::{MeterProviderBuilder, SdkMeterProvider};
use opentelemetry_sdk::trace::{SdkTracerProvider, Tracer, TracerProviderBuilder};
use opentelemetry_sdk::propagation::TraceContextPropagator;
use opentelemetry::KeyValue;
use opentelemetry_sdk::resource::{EnvResourceDetector, ResourceBuilder, TelemetryResourceDetector};
use opentelemetry_sdk::Resource;
use opentelemetry_appender_tracing::layer::OpenTelemetryTracingBridge;
use tracing_opentelemetry::{MetricsLayer, OpenTelemetryLayer};
use tracing_subscriber::Registry;

verus! {

// ---------------------------------------------------------------------------
// Outside types, declared opaque.
// ---------------------------------------------------------------------------
#[verifier::external_type_specification]
#[verifier::external_body]
pub struct ExResource(Resource);

#[verifier::external_type_specification]
#[verifier::external_body]
pub struct ExResourceBuilder(ResourceBuilder);

#[verifier::external_type_specification]
#[verifier::external_body]
pub struct ExTraceContextPropagator(TraceContextPropagator);

#[verifier::external_type_specification]
#[verifier::external_body]
pub struct ExExporterBuildError(ExporterBuildError);

#[verifier::external_type_specification]
#[verifier::external_body]
pub struct ExNoExporterBuilderSet(NoExporterBuilderSet);

#[verifier::external_type_specification]
#[verifier::external_body]
pub struct ExHttpExporterBuilderSet(HttpExporterBuilderSet);

#[verifier::external_type_specification]
#[verifier::external_body]
#[verifier::reject_recursive_types(C)]
pub struct ExSpanExporterBuilder<C>(SpanExporterBuilder<C>);

#[verifier::external_type_specification]
#[verifier::external_body]
#[verifier::reject_recursive_types(C)]
pub struct ExMetricExporterBuilder<C>(MetricExporterBuilder<C>);

#[verifier::external_type_specification]
#[verifier::external_body]
#[verifier::reject_recursive_types(C)]
pub struct ExLogExporterBuilder<C>(LogExporterBuilder<C>);

#[verifier::external_type_specification]
#[verifier::external_body]
pub struct ExOtlpSpanExporter(opentelemetry_otlp::SpanExporter);

#[verifier::external_type_specification]
#[verifier::external_body]
pub struct ExOtlpMetricExporter(opentelemetry_otlp::MetricExporter);

#[verifier::external_type_specification]
#[verifier::external_body]
pub struct ExOtlpLogExporter(opentelemetry_otlp::LogExporter);

#[verifier::external_type_specification]
#[verifier::external_body]
pub struct ExStdoutSpanExporter(opentelemetry_stdout::SpanExporter);

#[verifier::external_type_specification]
#[verifier::external_body]
pub struct ExStdoutMetricExporter(opentelemetry_stdout::MetricExporter);

#[verifier::external_type_specification]
#[verifier::external_body]
pub struct ExStdoutLogExporter(opentelemetry_stdout::LogExporter);

#[verifier::external_type_specification]
#[verifier::external_body]
pub struct ExTracerProviderBuilder(TracerProviderBuilder);

#[verifier::external_type_specification]
#[verifier::external_body]
pub struct ExSdkTracerProvider(SdkTracerProvider);

#[verifier::external_type_specification]
#[verifier::external_body]
pub struct ExTracer(Tracer);

#[verifier::external_type_specification]
#[verifier::external_body]
pub struct ExMeterProviderBuilder(MeterProviderBuilder);

#[verifier::external_type_specification]
#[verifier::external_body]
pub struct ExSdkMeterProvider(SdkMeterProvider);

#[verifier::external_type_specification]
#[verifier::external_body]
pub struct ExLoggerProviderBuilder(LoggerProviderBuilder);

#[verifier::external_type_specification]
#[verifier::external_body]
pub struct ExSdkLoggerProvider(SdkLoggerProvider);

#[verifier::external_type_specification]
#[verifier::external_body]
pub struct ExRegistry(Registry);

#[verifier::external_type_specification]
#[verifier::external_body]
#[verifier::reject_recursive_types(S)]
#[verifier::reject_recursive_types(T)]
pub struct ExOpenTelemetryLayer<S, T>(OpenTelemetryLayer<S, T>);

#[verifier::external_type_specification]
#[verifier::external_body]
#[verifier::reject_recursive_types(S)]
pub struct ExMetricsLayer<S>(MetricsLayer<S>);

/// The bridge that carries log events to the OpenTelemetry logger
/// provider. `OpenTelemetryTracingBridge` bounds its type parameters by the
/// `LoggerProvider` and `Logger` traits of the `opentelemetry` crate, so the
/// bridge is held in this opaque struct of the library rather than declared
/// as an outside type.
#[verifier::external_body]
pub struct LogsBridge(pub OpenTelemetryTracingBridge<SdkLoggerProvider, SdkLogger>);

// ---------------------------------------------------------------------------
// What has been set up, recorded as ghost state.
// ---------------------------------------------------------------------------
/// A step taken on a resource builder: attributes given as (key, value)
/// pairs, the `OTEL_RESOURCE_ATTRIBUTES` detector, the telemetry-SDK
/// detector, or a `service.name` override.
pub enum ResourceStep {
    Attributes(Seq<(Seq<char>, Seq<char>)>),
    EnvDetector,
    TelemetryDetector,
    ServiceName(Seq<char>),
}

/// A resource builder, with the steps taken on it, in order (each later step
/// is merged over the earlier ones).
pub struct ResourceSetup {
    inner: ResourceBuilder,
    steps: Ghost<Seq<ResourceStep>>,
}

impl ResourceSetup {
    pub closed spec fn steps(&self) -> Seq<ResourceStep> {
        self.steps@
    }
}

/// A built resource (`inner`), with the steps of the builder it was built
/// from.
pub struct BuiltResource {
    pub inner: Resource,
    steps: Ghost<Seq<ResourceStep>>,
}

impl BuiltResource {
    pub closed spec fn steps(&self) -> Seq<ResourceStep> {
        self.steps@
    }
}

/// An exporter a provider sends its data through: OTLP over HTTP with the
/// endpoint and timeout (milliseconds) set on its builder, or the console.
pub enum ExportRoute {
    Otlp { endpoint: Option<Seq<char>>, timeout_ms: Option<u64> },
    Console,
}

/// An OTLP exporter builder (HTTP transport) with the endpoint and timeout
/// that have been set on it.
pub struct HttpExporterSetup<B> {
    inner: B,
    endpoint: Ghost<Option<Seq<char>>>,
    timeout_ms: Ghost<Option<u64>>,
}

impl<B> HttpExporterSetup<B> {
    /// The endpoint set on the builder, if any.
    pub closed spec fn endpoint(&self) -> Option<Seq<char>> {
        self.endpoint@
    }

    /// The timeout (milliseconds) set on the builder, if any.
    pub closed spec fn timeout_ms(&self) -> Option<u64> {
        self.timeout_ms@
    }
}

/// An OTLP exporter, with the endpoint and timeout of the builder it was
/// built from.
pub struct BuiltExporter<E> {
    inner: E,
    endpoint: Ghost<Option<Seq<char>>>,
    timeout_ms: Ghost<Option<u64>>,
}

impl<E> BuiltExporter<E> {
    pub closed spec fn endpoint(&self) -> Option<Seq<char>> {
        self.endpoint@
    }

    pub closed spec fn timeout_ms(&self) -> Option<u64> {
        self.timeout_ms@
    }
}

/// A provider builder, with the exporters and resources added to it, in order.
pub struct ProviderSetup<B> {
    inner: B,
    exporters: Ghost<Seq<ExportRoute>>,
    resources: Ghost<Seq<BuiltResource>>,
}

impl<B> ProviderSetup<B> {
    pub closed spec fn exporters(&self) -> Seq<ExportRoute> {
        self.exporters@
    }

    pub closed spec fn resources(&self) -> Seq<BuiltResource> {
        self.resources@
    }
}

/// A provider (or a handle sharing one), with the exporters and resources it
/// was built with.
pub struct ProviderHandle<P> {
    inner: P,
    exporters: Ghost<Seq<ExportRoute>>,
    resources: Ghost<Seq<BuiltResource>>,
}

impl<P> ProviderHandle<P> {
    pub closed spec fn exporters(&self) -> Seq<ExportRoute> {
        self.exporters@
    }

    pub closed spec fn resources(&self) -> Seq<BuiltResource> {
        self.resources@
    }
}

/// A tracer, with the exporters and resources of the provider it comes from.
pub struct TracerHandle {
    inner: Tracer,
    name: Ghost<Seq<char>>,
    exporters: Ghost<Seq<ExportRoute>>,
    resources: Ghost<Seq<BuiltResource>>,
}

impl TracerHandle {
    /// The name the tracer was obtained under.
    pub closed spec fn name(&self) -> Seq<char> {
        self.name@
    }

    pub closed spec fn exporters(&self) -> Seq<ExportRoute> {
        self.exporters@
    }

    pub closed spec fn resources(&self) -> Seq<BuiltResource> {
        self.resources@
    }
}

/// The layer that exports tracing spans (`inner`), with the exporters and
/// resources of the tracer provider behind it.
pub struct OtlpTracingLayer {
    pub inner: OpenTelemetryLayer<Registry, Tracer>,
    tracer_name: Ghost<Seq<char>>,
    exporters: Ghost<Seq<ExportRoute>>,
    resources: Ghost<Seq<BuiltResource>>,
}

impl OtlpTracingLayer {
    /// The name of the tracer behind the layer.
    pub closed spec fn tracer_name(&self) -> Seq<char> {
        self.tracer_name@
    }

    pub closed spec fn exporters(&self) -> Seq<ExportRoute> {
        self.exporters@
    }

    pub closed spec fn resources(&self) -> Seq<BuiltResource> {
        self.resources@
    }
}

/// The layer that turns tracing events into metrics (`inner`), with the
/// exporters and resources of the meter provider behind it.
pub struct OtlpMetricsLayer {
    pub inner: MetricsLayer<Registry>,
    exporters: Ghost<Seq<ExportRoute>>,
    resources: Ghost<Seq<BuiltResource>>,
}

impl OtlpMetricsLayer {
    pub closed spec fn exporters(&self) -> Seq<ExportRoute> {
        self.exporters@
    }

    pub closed spec fn resources(&self) -> Seq<BuiltResource> {
        self.resources@
    }
}

/// The layer that forwards tracing events as log records (`inner`), with
/// the exporters and resources of the logger provider behind it.
pub struct OtlpLogsLayer {
    pub inner: LogsBridge,
    exporters: Ghost<Seq<ExportRoute>>,
    resources: Ghost<Seq<BuiltResource>>,
}

impl OtlpLogsLayer {
    pub closed spec fn exporters(&self) -> Seq<ExportRoute> {
        self.exporters@
    }

    pub closed spec fn resources(&self) -> Seq<BuiltResource> {
        self.resources@
    }
}

/// The signals whose providers have been handed to a shutdown call, in order.
pub struct ShutdownLog {
    signals: Ghost<Seq<Signal>>,
}

impl ShutdownLog {
    pub closed spec fn signals(&self) -> Seq<Signal> {
        self.signals@
    }

    /// A log of no shutdown call.
    pub fn new() -> (r: Self)
        ensures
            r.signals() == Seq::<Signal>::empty(),
    {
        ShutdownLog { signals: Ghost(Seq::empty()) }
    }
}

/// The meter providers installed as the global meter provider, in order,
/// each by its exporters and resources.
pub struct GlobalMeterLog {
    installs: Ghost<Seq<(Seq<ExportRoute>, Seq<BuiltResource>)>>,
}

impl GlobalMeterLog {
    pub closed spec fn installs(&self) -> Seq<(Seq<ExportRoute>, Seq<BuiltResource>)> {
        self.installs@
    }

    /// A log of no installation.
    pub fn new() -> (r: Self)
        ensures
            r.installs() == Seq::<(Seq<ExportRoute>, Seq<BuiltResource>)>::empty(),
    {
        GlobalMeterLog { installs: Ghost(Seq::empty()) }
    }
}

/// The text-map propagators this library installs.
pub enum PropagatorKind {
    /// The W3C trace-context propagator (`traceparent` / `tracestate`).
    TraceContext,
}

/// A text-map propagator, with its kind.
pub struct PropagatorHandle {
    inner: TraceContextPropagator,
    kind: Ghost<PropagatorKind>,
}

impl PropagatorHandle {
    pub closed spec fn kind(&self) -> PropagatorKind {
        self.kind@
    }
}

/// The record that a propagator was installed as the global text-map
/// propagator.
pub struct GlobalPropagatorInstall {
    kind: Ghost<PropagatorKind>,
}

impl GlobalPropagatorInstall {
    /// The kind of the propagator installed.
    pub closed spec fn kind(&self) -> PropagatorKind {
        self.kind@
    }
}

// ---------------------------------------------------------------------------
// OTLP span exporter (opentelemetry-otlp)
// ---------------------------------------------------------------------------
/// `opentelemetry_otlp::SpanExporter::builder`. Trusted; the builder is opaque.
#[verifier::external_body]
pub(crate) fn otlp_span_exporter_builder() -> SpanExporterBuilder<NoExporterBuilderSet> {
    opentelemetry_otlp::SpanExporter::builder()
}

/// `SpanExporterBuilder::with_http`: selects the HTTP transport. Trusted: the HTTP
/// builder starts with no endpoint and no timeout set (its `ExportConfig` is
/// the default one).
#[verifier::external_body]
pub(crate) fn span_builder_with_http(
    b: SpanExporterBuilder<NoExporterBuilderSet>,
) -> (r: HttpExporterSetup<SpanExporterBuilder<HttpExporterBuilderSet>>)
    ensures
        r.endpoint() == None::<Seq<char>>,
        r.timeout_ms() == None::<u64>,
{
    HttpExporterSetup { inner: b.with_http(), endpoint: Ghost(None), timeout_ms: Ghost(None) }
}

/// `WithExportConfig::with_endpoint` on the span exporter builder. Trusted:
/// the endpoint becomes `endpoint` and the timeout is kept, as
/// `with_endpoint` sets `export_config.endpoint` and nothing else.
#[verifier::external_body]
pub(crate) fn span_builder_with_endpoint(
    b: HttpExporterSetup<SpanExporterBuilder<HttpExporterBuilderSet>>,
    endpoint: &str,
) -> (r: HttpExporterSetup<SpanExporterBuilder<HttpExporterBuilderSet>>)
    ensures
        r.endpoint() == Some(endpoint@),
        r.timeout_ms() == b.timeout_ms(),
{
    let inner = b.inner.with_endpoint(endpoint);
    HttpExporterSetup { inner, endpoint: Ghost(Some(endpoint@)), timeout_ms: b.timeout_ms }
}

/// `WithExportConfig::with_timeout` on the span exporter builder, with the
/// timeout given in milliseconds (`Duration::from_millis`). Trusted: the
/// timeout becomes `millis` and the endpoint is kept, as `with_timeout` sets
/// `export_config.timeout` and nothing else.
#[verifier::external_body]
pub(crate) fn span_builder_with_timeout(
    b: HttpExporterSetup<SpanExporterBuilder<HttpExporterBuilderSet>>,
    millis: u64,
) -> (r: HttpExporterSetup<SpanExporterBuilder<HttpExporterBuilderSet>>)
    ensures
        r.timeout_ms() == Some(millis),
        r.endpoint() == b.endpoint(),
{
    let inner = b.inner.with_timeout(Duration::from_millis(millis));
    HttpExporterSetup { inner, endpoint: b.endpoint, timeout_ms: Ghost(Some(millis)) }
}

/// `SpanExporterBuilder::build` (HTTP). Trusted: a built exporter carries the
/// builder's endpoint and timeout. Whether the build succeeds depends on the
/// machine and the environment (it creates an HTTP client and reads the
/// `OTEL_EXPORTER_OTLP_*` variables), so nothing is stated of that.
#[verifier::external_body]
pub(crate) fn span_builder_build(
    b: HttpExporterSetup<SpanExporterBuilder<HttpExporterBuilderSet>>,
) -> (r: Result<BuiltExporter<opentelemetry_otlp::SpanExporter>, ExporterBuildError>)
    ensures
        r matches Ok(e) ==> e.endpoint() == b.endpoint() && e.timeout_ms() == b.timeout_ms(),
{
    match b.inner.build() {
        Ok(inner) => Ok(BuiltExporter { inner, endpoint: b.endpoint, timeout_ms: b.timeout_ms }),
        Err(e) => Err(e),
    }
}

/// `opentelemetry_stdout::SpanExporter::default`. Trusted; the exporter is opaque.
#[verifier::external_body]
pub(crate) fn stdout_span_exporter() -> opentelemetry_stdout::SpanExporter {
    opentelemetry_stdout::SpanExporter::default()
}

// ---------------------------------------------------------------------------
// OTLP metric exporter (opentelemetry-otlp)
// ---------------------------------------------------------------------------
/// `opentelemetry_otlp::MetricExporter::builder`. Trusted; the builder is opaque.
#[verifier::external_body]
pub(crate) fn otlp_metric_exporter_builder() -> MetricExporterBuilder<NoExporterBuilderSet> {
    opentelemetry_otlp::MetricExporter::builder()
}

/// `MetricExporterBuilder::with_http`: selects the HTTP transport. Trusted: the HTTP
/// builder starts with no endpoint and no timeout set (its `ExportConfig` is
/// the default one).
#[verifier::external_body]
pub(crate) fn metric_builder_with_http(
    b: MetricExporterBuilder<NoExporterBuilderSet>,
) -> (r: HttpExporterSetup<MetricExporterBuilder<HttpExporterBuilderSet>>)
    ensures
        r.endpoint() == None::<Seq<char>>,
        r.timeout_ms() == None::<u64>,
{
    HttpExporterSetup { inner: b.with_http(), endpoint: Ghost(None), timeout_ms: Ghost(None) }
}

/// `WithExportConfig::with_endpoint` on the metric exporter builder. Trusted:
/// the endpoint becomes `endpoint` and the timeout is kept, as
/// `with_endpoint` sets `export_config.endpoint` and nothing else.
#[verifier::external_body]
pub(crate) fn metric_builder_with_endpoint(
    b: HttpExporterSetup<MetricExporterBuilder<HttpExporterBuilderSet>>,
    endpoint: &str,
) -> (r: HttpExporterSetup<MetricExporterBuilder<HttpExporterBuilderSet>>)
    ensures
        r.endpoint() == Some(endpoint@),
        r.timeout_ms() == b.timeout_ms(),
{
    let inner = b.inner.with_endpoint(endpoint);
    HttpExporterSetup { inner, endpoint: Ghost(Some(endpoint@)), timeout_ms: b.timeout_ms }
}

/// `WithExportConfig::with_timeout` on the metric exporter builder, with the
/// timeout given in milliseconds (`Duration::from_millis`). Trusted: the
/// timeout becomes `millis` and the endpoint is kept, as `with_timeout` sets
/// `export_config.timeout` and nothing else.
#[verifier::external_body]
pub(crate) fn metric_builder_with_timeout(
    b: HttpExporterSetup<MetricExporterBuilder<HttpExporterBuilderSet>>,
    millis: u64,
) -> (r: HttpExporterSetup<MetricExporterBuilder<HttpExporterBuilderSet>>)
    ensures
        r.timeout_ms() == Some(millis),
        r.endpoint() == b.endpoint(),
{
    let inner = b.inner.with_timeout(Duration::from_millis(millis));
    HttpExporterSetup { inner, endpoint: b.endpoint, timeout_ms: Ghost(Some(millis)) }
}

/// `MetricExporterBuilder::build` (HTTP). Trusted: a built exporter carries the
/// builder's endpoint and timeout. Whether the build succeeds depends on the
/// machine and the environment (it creates an HTTP client and reads the
/// `OTEL_EXPORTER_OTLP_*` variables), so nothing is stated of that.
#[verifier::external_body]
pub(crate) fn metric_builder_build(
    b: HttpExporterSetup<MetricExporterBuilder<HttpExporterBuilderSet>>,
) -> (r: Result<BuiltExporter<opentelemetry_otlp::MetricExporter>, ExporterBuildError>)
    ensures
        r matches Ok(e) ==> e.endpoint() == b.endpoint() && e.timeout_ms() == b.timeout_ms(),
{
    match b.inner.build() {
        Ok(inner) => Ok(BuiltExporter { inner, endpoint: b.endpoint, timeout_ms: b.timeout_ms }),
        Err(e) => Err(e),
    }
}

/// `opentelemetry_stdout::MetricExporter::default`. Trusted; the exporter is opaque.
#[verifier::external_body]
pub(crate) fn stdout_metric_exporter() -> opentelemetry_stdout::MetricExporter {
    opentelemetry_stdout::MetricExporter::default()
}

// ---------------------------------------------------------------------------
// OTLP log exporter (opentelemetry-otlp)
// ---------------------------------------------------------------------------
/// `opentelemetry_otlp::LogExporter::builder`. Trusted; the builder is opaque.
#[verifier::external_body]
pub(crate) fn otlp_log_exporter_builder() -> LogExporterBuilder<NoExporterBuilderSet> {
    opentelemetry_otlp::LogExporter::builder()
}

/// `LogExporterBuilder::with_http`: selects the HTTP transport. Trusted: the HTTP
/// builder starts with no endpoint and no timeout set (its `ExportConfig` is
/// the default one).
#[verifier::external_body]
pub(crate) fn log_builder_with_http(
    b: LogExporterBuilder<NoExporterBuilderSet>,
) -> (r: HttpExporterSetup<LogExporterBuilder<HttpExporterBuilderSet>>)
    ensures
        r.endpoint() == None::<Seq<char>>,
        r.timeout_ms() == None::<u64>,
{
    HttpExporterSetup { inner: b.with_http(), endpoint: Ghost(None), timeout_ms: Ghost(None) }
}

/// `WithExportConfig::with_endpoint` on the log exporter builder. Trusted:
/// the endpoint becomes `endpoint` and the timeout is kept, as
/// `with_endpoint` sets `export_config.endpoint` and nothing else.
#[verifier::external_body]
pub(crate) fn log_builder_with_endpoint(
    b: HttpExporterSetup<LogExporterBuilder<HttpExporterBuilderSet>>,
    endpoint: &str,
) -> (r: HttpExporterSetup<LogExporterBuilder<HttpExporterBuilderSet>>)
    ensures
        r.endpoint() == Some(endpoint@),
        r.timeout_ms() == b.timeout_ms(),
{
    let inner = b.inner.with_endpoint(endpoint);
    HttpExporterSetup { inner, endpoint: Ghost(Some(endpoint@)), timeout_ms: b.timeout_ms }
}

/// `WithExportConfig::with_timeout` on the log exporter builder, with the
/// timeout given in milliseconds (`Duration::from_millis`). Trusted: the
/// timeout becomes `millis` and the endpoint is kept, as `with_timeout` sets
/// `export_config.timeout` and nothing else.
#[verifier::external_body]
pub(crate) fn log_builder_with_timeout(
    b: HttpExporterSetup<LogExporterBuilder<HttpExporterBuilderSet>>,
    millis: u64,
) -> (r: HttpExporterSetup<LogExporterBuilder<HttpExporterBuilderSet>>)
    ensures
        r.timeout_ms() == Some(millis),
        r.endpoint() == b.endpoint(),
{
    let inner = b.inner.with_timeout(Duration::from_millis(millis));
    HttpExporterSetup { inner, endpoint: b.endpoint, timeout_ms: Ghost(Some(millis)) }
}

/// `LogExporterBuilder::build` (HTTP). Trusted: a built exporter carries the
/// builder's endpoint and timeout. Whether the build succeeds depends on the
/// machine and the environment (it creates an HTTP client and reads the
/// `OTEL_EXPORTER_OTLP_*` variables), so nothing is stated of that.
#[verifier::external_body]
pub(crate) fn log_builder_build(
    b: HttpExporterSetup<LogExporterBuilder<HttpExporterBuilderSet>>,
) -> (r: Result<BuiltExporter<opentelemetry_otlp::LogExporter>, ExporterBuildError>)
    ensures
        r matches Ok(e) ==> e.endpoint() == b.endpoint() && e.timeout_ms() == b.timeout_ms(),
{
    match b.inner.build() {
        Ok(inner) => Ok(BuiltExporter { inner, endpoint: b.endpoint, timeout_ms: b.timeout_ms }),
        Err(e) => Err(e),
    }
}

/// `opentelemetry_stdout::LogExporter::default`. Trusted; the exporter is opaque.
#[verifier::external_body]
pub(crate) fn stdout_log_exporter() -> opentelemetry_stdout::LogExporter {
    opentelemetry_stdout::LogExporter::default()
}

/// The `Display` text of an `ExporterBuildError`. Trusted; nothing is stated
/// of the text.
#[verifier::external_body]
pub(crate) fn build_error_text(e: &ExporterBuildError) -> String {
    format!("{}", e)
}

// ---------------------------------------------------------------------------
// Tracer provider (opentelemetry_sdk)
// ---------------------------------------------------------------------------
/// `SdkTracerProvider::builder`. Trusted: a fresh builder has no exporter and no resource.
#[verifier::external_body]
pub(crate) fn tracer_provider_builder() -> (r: ProviderSetup<TracerProviderBuilder>)
    ensures
        r.exporters() == Seq::<ExportRoute>::empty(),
        r.resources() == Seq::<BuiltResource>::empty(),
{
    ProviderSetup { inner: SdkTracerProvider::builder(), exporters: Ghost(Seq::empty()), resources: Ghost(Seq::empty()) }
}

/// `TracerProviderBuilder::with_batch_exporter` with an OTLP span exporter. Trusted: the exporter
/// (OTLP with its endpoint and timeout) is added after those already there.
#[verifier::external_body]
pub(crate) fn tracer_builder_with_batch_exporter(
    b: ProviderSetup<TracerProviderBuilder>,
    exporter: BuiltExporter<opentelemetry_otlp::SpanExporter>,
) -> (r: ProviderSetup<TracerProviderBuilder>)
    ensures
        r.exporters() == b.exporters().push(
            ExportRoute::Otlp { endpoint: exporter.endpoint(), timeout_ms: exporter.timeout_ms() },
        ),
        r.resources() == b.resources(),
{
    let exporters = Ghost(b.exporters@.push(
        ExportRoute::Otlp { endpoint: exporter.endpoint@, timeout_ms: exporter.timeout_ms@ },
    ));
    ProviderSetup { inner: b.inner.with_batch_exporter(exporter.inner), exporters, resources: b.resources }
}

/// `TracerProviderBuilder::with_simple_exporter` with the stdout span exporter. Trusted: the console
/// exporter is added after those already there.
#[verifier::external_body]
pub(crate) fn tracer_builder_with_simple_exporter(
    b: ProviderSetup<TracerProviderBuilder>,
    exporter: opentelemetry_stdout::SpanExporter,
) -> (r: ProviderSetup<TracerProviderBuilder>)
    ensures
        r.exporters() == b.exporters().push(ExportRoute::Console),
        r.resources() == b.resources(),
{
    let exporters = Ghost(b.exporters@.push(ExportRoute::Console));
    ProviderSetup { inner: b.inner.with_simple_exporter(exporter), exporters, resources: b.resources }
}

/// `TracerProviderBuilder::with_resource`. Trusted: the resource is merged after those
/// already given; the exporters are kept.
#[verifier::external_body]
pub(crate) fn tracer_builder_with_resource(
    b: ProviderSetup<TracerProviderBuilder>,
    resource: BuiltResource,
) -> (r: ProviderSetup<TracerProviderBuilder>)
    ensures
        r.resources() == b.resources().push(resource),
        r.exporters() == b.exporters(),
{
    let resources = Ghost(b.resources@.push(resource));
    ProviderSetup { inner: b.inner.with_resource(resource.inner), exporters: b.exporters, resources }
}

/// `TracerProviderBuilder::build`. Trusted: the provider is built with the builder's
/// exporters and resources.
#[verifier::external_body]
pub(crate) fn tracer_builder_build(b: ProviderSetup<TracerProviderBuilder>) -> (r: ProviderHandle<SdkTracerProvider>)
    ensures
        r.exporters() == b.exporters(),
        r.resources() == b.resources(),
{
    ProviderHandle { inner: b.inner.build(), exporters: b.exporters, resources: b.resources }
}

/// `SdkTracerProvider::shutdown`. Trusted: the call is recorded in `log` as a shutdown
/// of the traces provider; its outcome is discarded.
#[verifier::external_body]
pub(crate) fn shutdown_tracer_provider(p: ProviderHandle<SdkTracerProvider>, log: &mut ShutdownLog)
    ensures
        final(log).signals() == old(log).signals().push(Signal::Traces),
{
    let _ = p.inner.shutdown();
}

// ---------------------------------------------------------------------------
// Meter provider (opentelemetry_sdk)
// ---------------------------------------------------------------------------
/// `SdkMeterProvider::builder`. Trusted: a fresh builder has no exporter and no resource.
#[verifier::external_body]
pub(crate) fn meter_provider_builder() -> (r: ProviderSetup<MeterProviderBuilder>)
    ensures
        r.exporters() == Seq::<ExportRoute>::empty(),
        r.resources() == Seq::<BuiltResource>::empty(),
{
    ProviderSetup { inner: SdkMeterProvider::builder(), exporters: Ghost(Seq::empty()), resources: Ghost(Seq::empty()) }
}

/// `MeterProviderBuilder::with_periodic_exporter` with an OTLP metric exporter. Trusted: the exporter
/// (OTLP with its endpoint and timeout) is added after those already there.
#[verifier::external_body]
pub(crate) fn meter_builder_with_otlp_exporter(
    b: ProviderSetup<MeterProviderBuilder>,
    exporter: BuiltExporter<opentelemetry_otlp::MetricExporter>,
) -> (r: ProviderSetup<MeterProviderBuilder>)
    ensures
        r.exporters() == b.exporters().push(
            ExportRoute::Otlp { endpoint: exporter.endpoint(), timeout_ms: exporter.timeout_ms() },
        ),
        r.resources() == b.resources(),
{
    let exporters = Ghost(b.exporters@.push(
        ExportRoute::Otlp { endpoint: exporter.endpoint@, timeout_ms: exporter.timeout_ms@ },
    ));
    ProviderSetup { inner: b.inner.with_periodic_exporter(exporter.inner), exporters, resources: b.resources }
}

/// `MeterProviderBuilder::with_periodic_exporter` with the stdout metric exporter. Trusted: the console
/// exporter is added after those already there.
#[verifier::external_body]
pub(crate) fn meter_builder_with_stdout_exporter(
    b: ProviderSetup<MeterProviderBuilder>,
    exporter: opentelemetry_stdout::MetricExporter,
) -> (r: ProviderSetup<MeterProviderBuilder>)
    ensures
        r.exporters() == b.exporters().push(ExportRoute::Console),
        r.resources() == b.resources(),
{
    let exporters = Ghost(b.exporters@.push(ExportRoute::Console));
    ProviderSetup { inner: b.inner.with_periodic_exporter(exporter), exporters, resources: b.resources }
}

/// `MeterProviderBuilder::with_resource`. Trusted: the resource is merged after those
/// already given; the exporters are kept.
#[verifier::external_body]
pub(crate) fn meter_builder_with_resource(
    b: ProviderSetup<MeterProviderBuilder>,
    resource: BuiltResource,
) -> (r: ProviderSetup<MeterProviderBuilder>)
    ensures
        r.resources() == b.resources().push(resource),
        r.exporters() == b.exporters(),
{
    let resources = Ghost(b.resources@.push(resource));
    ProviderSetup { inner: b.inner.with_resource(resource.inner), exporters: b.exporters, resources }
}

/// `MeterProviderBuilder::build`. Trusted: the provider is built with the builder's
/// exporters and resources.
#[verifier::external_body]
pub(crate) fn meter_builder_build(b: ProviderSetup<MeterProviderBuilder>) -> (r: ProviderHandle<SdkMeterProvider>)
    ensures
        r.exporters() == b.exporters(),
        r.resources() == b.resources(),
{
    ProviderHandle { inner: b.inner.build(), exporters: b.exporters, resources: b.resources }
}

/// `SdkMeterProvider::shutdown`. Trusted: the call is recorded in `log` as a shutdown
/// of the metrics provider; its outcome is discarded.
#[verifier::external_body]
pub(crate) fn shutdown_meter_provider(p: ProviderHandle<SdkMeterProvider>, log: &mut ShutdownLog)
    ensures
        final(log).signals() == old(log).signals().push(Signal::Metrics),
{
    let _ = p.inner.shutdown();
}

// ---------------------------------------------------------------------------
// Logger provider (opentelemetry_sdk)
// ---------------------------------------------------------------------------
/// `SdkLoggerProvider::builder`. Trusted: a fresh builder has no exporter and no resource.
#[verifier::external_body]
pub(crate) fn logger_provider_builder() -> (r: ProviderSetup<LoggerProviderBuilder>)
    ensures
        r.exporters() == Seq::<ExportRoute>::empty(),
        r.resources() == Seq::<BuiltResource>::empty(),
{
    ProviderSetup { inner: SdkLoggerProvider::builder(), exporters: Ghost(Seq::empty()), resources: Ghost(Seq::empty()) }
}

/// `LoggerProviderBuilder::with_batch_exporter` with an OTLP log exporter. Trusted: the exporter
/// (OTLP with its endpoint and timeout) is added after those already there.
#[verifier::external_body]
pub(crate) fn logger_builder_with_batch_exporter(
    b: ProviderSetup<LoggerProviderBuilder>,
    exporter: BuiltExporter<opentelemetry_otlp::LogExporter>,
) -> (r: ProviderSetup<LoggerProviderBuilder>)
    ensures
        r.exporters() == b.exporters().push(
            ExportRoute::Otlp { endpoint: exporter.endpoint(), timeout_ms: exporter.timeout_ms() },
        ),
        r.resources() == b.resources(),
{
    let exporters = Ghost(b.exporters@.push(
        ExportRoute::Otlp { endpoint: exporter.endpoint@, timeout_ms: exporter.timeout_ms@ },
    ));
    ProviderSetup { inner: b.inner.with_batch_exporter(exporter.inner), exporters, resources: b.resources }
}

/// `LoggerProviderBuilder::with_simple_exporter` with the stdout log exporter. Trusted: the console
/// exporter is added after those already there.
#[verifier::external_body]
pub(crate) fn logger_builder_with_simple_exporter(
    b: ProviderSetup<LoggerProviderBuilder>,
    exporter: opentelemetry_stdout::LogExporter,
) -> (r: ProviderSetup<LoggerProviderBuilder>)
    ensures
        r.exporters() == b.exporters().push(ExportRoute::Console),
        r.resources() == b.resources(),
{
    let exporters = Ghost(b.exporters@.push(ExportRoute::Console));
    ProviderSetup { inner: b.inner.with_simple_exporter(exporter), exporters, resources: b.resources }
}

/// `LoggerProviderBuilder::with_resource`. Trusted: the resource is merged after those
/// already given; the exporters are kept.
#[verifier::external_body]
pub(crate) fn logger_builder_with_resource(
    b: ProviderSetup<LoggerProviderBuilder>,
    resource: BuiltResource,
) -> (r: ProviderSetup<LoggerProviderBuilder>)
    ensures
        r.resources() == b.resources().push(resource),
        r.exporters() == b.exporters(),
{
    let resources = Ghost(b.resources@.push(resource));
    ProviderSetup { inner: b.inner.with_resource(resource.inner), exporters: b.exporters, resources }
}

/// `LoggerProviderBuilder::build`. Trusted: the provider is built with the builder's
/// exporters and resources.
#[verifier::external_body]
pub(crate) fn logger_builder_build(b: ProviderSetup<LoggerProviderBuilder>) -> (r: ProviderHandle<SdkLoggerProvider>)
    ensures
        r.exporters() == b.exporters(),
        r.resources() == b.resources(),
{
    ProviderHandle { inner: b.inner.build(), exporters: b.exporters, resources: b.resources }
}

/// `SdkLoggerProvider::shutdown`. Trusted: the call is recorded in `log` as a shutdown
/// of the logs provider; its outcome is discarded.
#[verifier::external_body]
pub(crate) fn shutdown_logger_provider(p: ProviderHandle<SdkLoggerProvider>, log: &mut ShutdownLog)
    ensures
        final(log).signals() == old(log).signals().push(Signal::Logs),
{
    let _ = p.inner.shutdown();
}

// ---------------------------------------------------------------------------
// Tracers, global meter provider, layers
// ---------------------------------------------------------------------------
/// `TracerProvider::tracer` of the SDK tracer provider. Trusted: the tracer
/// comes from that provider, under the given name, and carries its record.
#[verifier::external_body]
pub(crate) fn provider_tracer(p: &ProviderHandle<SdkTracerProvider>, name: &'static str) -> (r:
    TracerHandle)
    ensures
        r.name() == name@,
        r.exporters() == p.exporters(),
        r.resources() == p.resources(),
{
    let inner = p.inner.tracer(name);
    TracerHandle { inner, name: Ghost(name@), exporters: p.exporters, resources: p.resources }
}

/// `Clone::clone` of `SdkMeterProvider`: a handle on the same provider.
/// Trusted: the handle carries the same record.
#[verifier::external_body]
pub(crate) fn clone_meter_provider(p: &ProviderHandle<SdkMeterProvider>) -> (r: ProviderHandle<
    SdkMeterProvider,
>)
    ensures
        r.exporters() == p.exporters(),
        r.resources() == p.resources(),
{
    ProviderHandle { inner: p.inner.clone(), exporters: p.exporters, resources: p.resources }
}

/// `opentelemetry::global::set_meter_provider`: installs the provider as the
/// process-wide meter provider. Trusted: the installation is recorded in
/// `log` with the provider's exporters and resources.
#[verifier::external_body]
pub(crate) fn set_global_meter_provider(
    p: ProviderHandle<SdkMeterProvider>,
    log: &mut GlobalMeterLog,
)
    ensures
        final(log).installs() == old(log).installs().push((p.exporters(), p.resources())),
{
    opentelemetry::global::set_meter_provider(p.inner)
}

/// `OpenTelemetryLayer::new`: the span layer over the given tracer (the same
/// layer `tracing_opentelemetry::layer().with_tracer(tracer)` builds).
/// Trusted: the layer carries the tracer's name and record.
#[verifier::external_body]
pub(crate) fn new_tracing_layer(tracer: TracerHandle) -> (r: OtlpTracingLayer)
    ensures
        r.tracer_name() == tracer.name(),
        r.exporters() == tracer.exporters(),
        r.resources() == tracer.resources(),
{
    let inner = OpenTelemetryLayer::new(tracer.inner);
    OtlpTracingLayer {
        inner,
        tracer_name: tracer.name,
        exporters: tracer.exporters,
        resources: tracer.resources,
    }
}

/// `MetricsLayer::new` over the given meter provider. Trusted: the layer
/// carries the provider's record.
#[verifier::external_body]
pub(crate) fn new_metrics_layer(p: ProviderHandle<SdkMeterProvider>) -> (r: OtlpMetricsLayer)
    ensures
        r.exporters() == p.exporters(),
        r.resources() == p.resources(),
{
    OtlpMetricsLayer { inner: MetricsLayer::new(p.inner), exporters: p.exporters, resources: p.resources }
}

/// `OpenTelemetryTracingBridge::new` over the given logger provider.
/// Trusted: the bridge carries the provider's record.
#[verifier::external_body]
pub(crate) fn new_logs_bridge(p: &ProviderHandle<SdkLoggerProvider>) -> (r: OtlpLogsLayer)
    ensures
        r.exporters() == p.exporters(),
        r.resources() == p.resources(),
{
    let inner = LogsBridge(OpenTelemetryTracingBridge::new(&p.inner));
    OtlpLogsLayer { inner, exporters: p.exporters, resources: p.resources }
}

// ---------------------------------------------------------------------------
// Context propagation (opentelemetry_sdk::propagation, opentelemetry::global)
// ---------------------------------------------------------------------------
/// `TraceContextPropagator::new`. Trusted: the propagator is the W3C
/// trace-context one.
#[verifier::external_body]
pub(crate) fn new_trace_context_propagator() -> (r: PropagatorHandle)
    ensures
        r.kind() == PropagatorKind::TraceContext,
{
    PropagatorHandle { inner: TraceContextPropagator::new(), kind: Ghost(PropagatorKind::TraceContext) }
}

/// `opentelemetry::global::set_text_map_propagator`: installs the propagator
/// process-wide. Trusted: the returned record names the kind installed.
#[verifier::external_body]
pub(crate) fn set_global_text_map_propagator(p: PropagatorHandle) -> (r: GlobalPropagatorInstall)
    ensures
        r.kind() == p.kind(),
{
    opentelemetry::global::set_text_map_propagator(p.inner);
    GlobalPropagatorInstall { kind: p.kind }
}

// ---------------------------------------------------------------------------
// Resource builder (opentelemetry_sdk::resource)
// ---------------------------------------------------------------------------
/// `Resource::builder_empty`. Trusted: the builder starts with no step taken.
#[verifier::external_body]
pub(crate) fn resource_builder_empty() -> (r: ResourceSetup)
    ensures
        r.steps() == Seq::<ResourceStep>::empty(),
{
    ResourceSetup { inner: Resource::builder_empty(), steps: Ghost(Seq::empty()) }
}

/// `ResourceBuilder::with_attributes`, each (key, value) pair made a
/// `KeyValue`. Trusted: the attributes, in order, are recorded as the next
/// step.
#[verifier::external_body]
pub(crate) fn resource_with_attributes(b: ResourceSetup, attributes: &[(&str, &str)]) -> (r:
    ResourceSetup)
    ensures
        r.steps() == b.steps().push(
            ResourceStep::Attributes(attributes@.map_values(|kv: (&str, &str)| (kv.0@, kv.1@))),
        ),
{
    let kvs = attributes.iter().map(|(k, v)| KeyValue::new(k.to_string(), v.to_string()));
    let steps = Ghost(b.steps@.push(
        ResourceStep::Attributes(attributes@.map_values(|kv: (&str, &str)| (kv.0@, kv.1@))),
    ));
    ResourceSetup { inner: b.inner.with_attributes(kvs), steps }
}

/// `ResourceBuilder::with_detector` with `EnvResourceDetector`, which reads
/// `OTEL_RESOURCE_ATTRIBUTES` when applied. Trusted: the detector is recorded
/// as the next step (what it finds is not).
#[verifier::external_body]
pub(crate) fn resource_with_env_detector(b: ResourceSetup) -> (r: ResourceSetup)
    ensures
        r.steps() == b.steps().push(ResourceStep::EnvDetector),
{
    let inner = b.inner.with_detector(Box::new(EnvResourceDetector::new()));
    ResourceSetup { inner, steps: Ghost(b.steps@.push(ResourceStep::EnvDetector)) }
}

/// `ResourceBuilder::with_detector` with `TelemetryResourceDetector` (the
/// `telemetry.sdk.*` attributes). Trusted: the detector is recorded as the
/// next step.
#[verifier::external_body]
pub(crate) fn resource_with_telemetry_detector(b: ResourceSetup) -> (r: ResourceSetup)
    ensures
        r.steps() == b.steps().push(ResourceStep::TelemetryDetector),
{
    let inner = b.inner.with_detector(Box::new(TelemetryResourceDetector));
    ResourceSetup { inner, steps: Ghost(b.steps@.push(ResourceStep::TelemetryDetector)) }
}

/// `ResourceBuilder::with_service_name`. Trusted: the `service.name`
/// override is recorded as the next step.
#[verifier::external_body]
pub(crate) fn resource_with_service_name(b: ResourceSetup, name: &str) -> (r: ResourceSetup)
    ensures
        r.steps() == b.steps().push(ResourceStep::ServiceName(name@)),
{
    let inner = b.inner.with_service_name(name.to_string());
    ResourceSetup { inner, steps: Ghost(b.steps@.push(ResourceStep::ServiceName(name@))) }
}

/// `ResourceBuilder::build`. Trusted: the resource carries the builder's
/// steps.
#[verifier::external_body]
pub(crate) fn resource_build(b: ResourceSetup) -> (r: BuiltResource)
    ensures
        r.steps() == b.steps(),
{
    BuiltResource { inner: b.inner.build(), steps: b.steps }
}

} // verus!

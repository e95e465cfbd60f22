//! Setting up telemetry and logs: which providers and layers a configuration asks for.

use crate::request_info::Label;
use crate::text::join3;
use crate::tracing_config::{LogFormat, OtlpProtocol, TracingConfig};
use vstd::prelude::*;

verus! {

/// How long an HTTP exporter waits for traces to be taken, in seconds.
pub const DEFAULT_TRACE_TIMEOUT_SEC: u64 = 10;

/// How long a gRPC exporter waits for traces to be taken, in seconds.
pub const GRPC_TRACE_TIMEOUT_SEC: u64 = 3;

/// How long metrics are waited for, in seconds.
pub const DEFAULT_METRIC_TIMEOUT_SEC: u64 = 3;

/// How often metrics are exported, in seconds.
pub const DEFAULT_METRIC_PERIOD_SEC: u64 = 3;

/// Why telemetry could not be set up or shut down.
#[derive(Debug)]
pub enum TracingError {
    TraceError(String),
    MetricsError(String),
}

impl TracingError {
    /// The message of the error.
    pub fn to_text(&self) -> (text: String)
        ensures
            text@ == (match self {
                TracingError::TraceError(error) => "Error from tracing provider: "@ + error@,
                TracingError::MetricsError(error) => "Error from metrics provider: "@ + error@,
            }),
    {
        match self {
            TracingError::TraceError(error) => {
                "Error from tracing provider: ".to_owned().concat(error.as_str())
            },
            TracingError::MetricsError(error) => {
                "Error from metrics provider: ".to_owned().concat(error.as_str())
            },
        }
    }
}

/// The label that names a service in everything that it exports.
pub open spec fn service_label(service_name: Seq<char>) -> (Seq<char>, Seq<char>) {
    ("service.name"@, service_name)
}

/// The label that names a service in everything that it exports.
fn label_of_service(service_name: &String) -> (label: Label)
    ensures
        label@ == service_label(service_name@),
{
    Label::new("service.name", service_name.clone())
}

/// The label that names the service in everything that is exported.
pub fn service_resource(tracing_config: &TracingConfig) -> (label: Label)
    ensures
        label@ == service_label(tracing_config.service_name@),
{
    label_of_service(&tracing_config.service_name)
}

/// How traces are provided. Every trace is sampled, and says which service it is from.
#[derive(Debug)]
pub enum TracerProvider {
    /// Traces are exported in batches.
    Otlp { protocol: OtlpProtocol, endpoint: String, timeout_sec: u64, resource: Label },
    /// Traces are kept to this process, so that logs can name them.
    Local { resource: Label },
}

/// How traces are provided.
pub enum TracerProviderView {
    Otlp {
        protocol: OtlpProtocol,
        endpoint: Seq<char>,
        timeout_sec: u64,
        resource: (Seq<char>, Seq<char>),
    },
    Local { resource: (Seq<char>, Seq<char>) },
}

impl View for TracerProvider {
    type V = TracerProviderView;

    open spec fn view(&self) -> TracerProviderView {
        match self {
            TracerProvider::Otlp { protocol, endpoint, timeout_sec, resource } =>
                TracerProviderView::Otlp {
                protocol: *protocol,
                endpoint: endpoint@,
                timeout_sec: *timeout_sec,
                resource: resource@,
            },
            TracerProvider::Local { resource } => TracerProviderView::Local {
                resource: resource@,
            },
        }
    }
}

/// The view of an optional tracer provider.
pub open spec fn opt_tracer(provider: Option<TracerProvider>) -> Option<TracerProviderView> {
    match provider {
        Some(provider) => Some(provider@),
        None => None,
    }
}

/// How long an exporter waits for traces to be taken.
pub open spec fn trace_timeout(protocol: OtlpProtocol) -> u64 {
    match protocol {
        OtlpProtocol::Grpc => GRPC_TRACE_TIMEOUT_SEC,
        OtlpProtocol::Http => DEFAULT_TRACE_TIMEOUT_SEC,
    }
}

/// The tracer provider that a configuration asks for: an exporter if traces are exported,
/// a local one if there are logs, and none otherwise.
pub open spec fn tracer_provider_of(config: TracingConfig) -> Option<TracerProviderView> {
    match config.traces {
        Some(target) => Some(
            TracerProviderView::Otlp {
                protocol: target.0,
                endpoint: target.1@,
                timeout_sec: trace_timeout(target.0),
                resource: service_label(config.service_name@),
            },
        ),
        None => if config.quiet {
            None
        } else {
            Some(TracerProviderView::Local { resource: service_label(config.service_name@) })
        },
    }
}

/// The tracer provider that the configuration asks for.
pub fn init_tracer_provider(tracing_config: &TracingConfig) -> (provider: Option<TracerProvider>)
    ensures
        opt_tracer(provider) == tracer_provider_of(*tracing_config),
{
    match &tracing_config.traces {
        Some(target) => Some(
            TracerProvider::Otlp {
                protocol: target.0,
                endpoint: target.1.clone(),
                timeout_sec: match target.0 {
                    OtlpProtocol::Grpc => GRPC_TRACE_TIMEOUT_SEC,
                    OtlpProtocol::Http => DEFAULT_TRACE_TIMEOUT_SEC,
                },
                resource: service_resource(tracing_config),
            },
        ),
        None => {
            // A provider is still needed as long as there are logs, so that they can
            // mention the trace of a request.
            if tracing_config.quiet {
                None
            } else {
                Some(TracerProvider::Local { resource: service_resource(tracing_config) })
            }
        },
    }
}

/// How metrics are exported.
#[derive(Debug)]
pub struct MeterProvider {
    pub protocol: OtlpProtocol,
    pub endpoint: String,
    /// How long the exporter waits for metrics to be taken, if that is limited.
    pub exporter_timeout_sec: Option<u64>,
    /// How long metrics are waited for.
    pub timeout_sec: u64,
    /// How often metrics are exported.
    pub period_sec: u64,
    /// Which service the metrics are from.
    pub resource: Label,
}

/// How metrics are exported.
pub struct MeterProviderView {
    pub protocol: OtlpProtocol,
    pub endpoint: Seq<char>,
    pub exporter_timeout_sec: Option<u64>,
    pub timeout_sec: u64,
    pub period_sec: u64,
    pub resource: (Seq<char>, Seq<char>),
}

impl View for MeterProvider {
    type V = MeterProviderView;

    open spec fn view(&self) -> MeterProviderView {
        MeterProviderView {
            protocol: self.protocol,
            endpoint: self.endpoint@,
            exporter_timeout_sec: self.exporter_timeout_sec,
            timeout_sec: self.timeout_sec,
            period_sec: self.period_sec,
            resource: self.resource@,
        }
    }
}

/// The view of an optional meter provider.
pub open spec fn opt_meter(provider: Option<MeterProvider>) -> Option<MeterProviderView> {
    match provider {
        Some(provider) => Some(provider@),
        None => None,
    }
}

/// The meter provider that a configuration asks for: one if metrics are exported. Only
/// the HTTP exporter has a timeout of its own.
pub open spec fn meter_provider_of(config: TracingConfig) -> Option<MeterProviderView> {
    match config.metrics {
        Some(target) => Some(
            MeterProviderView {
                protocol: target.0,
                endpoint: target.1@,
                exporter_timeout_sec: match target.0 {
                    OtlpProtocol::Grpc => None,
                    OtlpProtocol::Http => Some(DEFAULT_METRIC_TIMEOUT_SEC),
                },
                timeout_sec: DEFAULT_METRIC_TIMEOUT_SEC,
                period_sec: DEFAULT_METRIC_PERIOD_SEC,
                resource: service_label(config.service_name@),
            },
        ),
        None => None,
    }
}

/// The meter provider that the configuration asks for.
pub fn init_meter_provider(tracing_config: &TracingConfig) -> (provider: Option<MeterProvider>)
    ensures
        opt_meter(provider) == meter_provider_of(*tracing_config),
{
    match &tracing_config.metrics {
        Some(target) => Some(
            MeterProvider {
                protocol: target.0,
                endpoint: target.1.clone(),
                exporter_timeout_sec: match target.0 {
                    OtlpProtocol::Grpc => None,
                    OtlpProtocol::Http => Some(DEFAULT_METRIC_TIMEOUT_SEC),
                },
                timeout_sec: DEFAULT_METRIC_TIMEOUT_SEC,
                period_sec: DEFAULT_METRIC_PERIOD_SEC,
                resource: service_resource(tracing_config),
            },
        ),
        None => None,
    }
}

/// Where spans and events go.
#[derive(Debug, Clone, Copy, PartialEq, Eq, Structural)]
pub enum TraceLayer {
    /// To the tracer provider.
    Tracer,
    /// To the meter provider.
    Meter,
    /// To the standard output.
    Stdout(LogFormat),
}

/// The layers that a configuration asks for, in their order.
pub open spec fn layers_of(config: TracingConfig) -> Seq<TraceLayer> {
    let tracer = if tracer_provider_of(config) is Some {
        seq![TraceLayer::Tracer]
    } else {
        Seq::empty()
    };
    let meter = if meter_provider_of(config) is Some {
        seq![TraceLayer::Meter]
    } else {
        Seq::empty()
    };
    let stdout = if config.quiet {
        Seq::empty()
    } else {
        seq![TraceLayer::Stdout(config.log_format)]
    };
    tracer + meter + stdout
}

/// The level of what is recorded, where the environment says nothing.
pub fn default_filter() -> (level: &'static str)
    ensures
        level@ == "INFO"@,
{
    "INFO"
}

/// The views of some texts.
pub open spec fn texts_view(texts: Seq<&'static str>) -> Seq<Seq<char>> {
    texts.map_values(|text: &'static str| text@)
}

/// The levels of what other libraries record: little of the load balancer, and only the
/// errors of the rest.
pub open spec fn filter_directives_spec() -> Seq<Seq<char>> {
    seq![
        "ginepro=info"@,
        "hyper=error"@,
        "h2=error"@,
        "trust_dns_resolver=error"@,
        "trust_dns_proto=error"@,
        "tower=error"@,
        "tonic=error"@,
        "reqwest=error"@,
    ]
}

/// The levels of what other libraries record.
pub fn filter_directives() -> (directives: Vec<&'static str>)
    ensures
        texts_view(directives@) == filter_directives_spec(),
{
    let mut directives: Vec<&'static str> = Vec::new();
    directives.push("ginepro=info");
    directives.push("hyper=error");
    directives.push("h2=error");
    directives.push("trust_dns_resolver=error");
    directives.push("trust_dns_proto=error");
    directives.push("tower=error");
    directives.push("tonic=error");
    directives.push("reqwest=error");
    assert(texts_view(directives@) =~= filter_directives_spec());
    directives
}

/// What is announced of an export.
pub open spec fn export_announcement(
    enabled: Seq<char>,
    disabled: Seq<char>,
    target: Option<(OtlpProtocol, String)>,
) -> Seq<char> {
    match target {
        Some(target) => enabled + crate::tracing_config::otlp_protocol_name(target.0) + " to "@
            + target.1@,
        None => disabled,
    }
}

/// What is announced once telemetry is set up: the two exports, and the logs.
pub open spec fn announcements_of(config: TracingConfig) -> (Seq<char>, Seq<char>, Seq<char>) {
    (
        export_announcement(
            "OTLP tracing enabled: Exporting "@,
            "OTLP traces export disabled"@,
            config.traces,
        ),
        export_announcement(
            "OTLP metrics enabled: Exporting "@,
            "OTLP metrics export disabled"@,
            config.metrics,
        ),
        if config.quiet {
            "Stdout logging disabled"@
        } else {
            "Stdout logging enabled with format "@ + ("\""@
                + crate::tracing_config::log_format_name(config.log_format) + "\""@)
        },
    )
}

fn announce_export(enabled: &str, disabled: &str, target: &Option<(OtlpProtocol, String)>) -> (text:
    String)
    ensures
        text@ == export_announcement(enabled@, disabled@, *target),
{
    match target {
        Some(target) => {
            let head: String = join3(enabled, target.0.to_text(), " to ");
            head.concat(target.1.as_str())
        },
        None => disabled.to_owned(),
    }
}

/// Everything that is set up for a configuration.
#[derive(Debug)]
pub struct TracingSetup {
    /// The level of what is recorded, where the environment says nothing.
    pub default_level: &'static str,
    /// The levels of what other libraries record.
    pub directives: Vec<&'static str>,
    pub tracer_provider: Option<TracerProvider>,
    pub meter_provider: Option<MeterProvider>,
    /// The name of the tracer.
    pub tracer_name: String,
    pub layers: Vec<TraceLayer>,
    pub announcements: (String, String, String),
}

/// Initializes tracing for the orchestrator. What telemetry is exported and to where is
/// determined based on the provided config.
pub fn init_tracing(tracing_config: &TracingConfig) -> (setup: TracingSetup)
    ensures
        setup.default_level@ == "INFO"@,
        texts_view(setup.directives@) == filter_directives_spec(),
        setup.tracer_name == tracing_config.service_name,
        opt_tracer(setup.tracer_provider) == tracer_provider_of(*tracing_config),
        opt_meter(setup.meter_provider) == meter_provider_of(*tracing_config),
        setup.layers@ == layers_of(*tracing_config),
        (setup.announcements.0@, setup.announcements.1@, setup.announcements.2@)
            == announcements_of(*tracing_config),
{
    let mut layers: Vec<TraceLayer> = Vec::new();
    let tracer_provider: Option<TracerProvider> = init_tracer_provider(tracing_config);
    if tracer_provider.is_some() {
        layers.push(TraceLayer::Tracer);
    }
    let meter_provider: Option<MeterProvider> = init_meter_provider(tracing_config);
    if meter_provider.is_some() {
        layers.push(TraceLayer::Meter);
    }
    // Logs are traces, and are exported too if traces are.
    if !tracing_config.quiet {
        layers.push(TraceLayer::Stdout(tracing_config.log_format));
    }
    assert(layers@ =~= layers_of(*tracing_config));
    let traces: String = announce_export(
        "OTLP tracing enabled: Exporting ",
        "OTLP traces export disabled",
        &tracing_config.traces,
    );
    let metrics: String = announce_export(
        "OTLP metrics enabled: Exporting ",
        "OTLP metrics export disabled",
        &tracing_config.metrics,
    );
    let logs: String = if !tracing_config.quiet {
        "Stdout logging enabled with format ".to_owned().concat(
            tracing_config.log_format.to_text().as_str(),
        )
    } else {
        "Stdout logging disabled".to_owned()
    };
    TracingSetup {
        default_level: default_filter(),
        directives: filter_directives(),
        tracer_provider,
        meter_provider,
        tracer_name: tracing_config.service_name.clone(),
        layers,
        announcements: (traces, metrics, logs),
    }
}

/// The outcome of making the two providers: the first error, if there is one. The meter
/// provider is made only once there is a tracer provider.
pub fn providers_result(tracer: Result<(), String>, meter: Result<(), String>) -> (result: Result<
    (),
    TracingError,
>)
    ensures
        match (tracer, meter) {
            (Err(error), _) => result == Err::<(), TracingError>(TracingError::TraceError(error)),
            (Ok(_), Err(error)) => result == Err::<(), TracingError>(
                TracingError::MetricsError(error),
            ),
            (Ok(_), Ok(_)) => result is Ok,
        },
{
    match tracer {
        Err(error) => Err(TracingError::TraceError(error)),
        Ok(_) => match meter {
            Err(error) => Err(TracingError::MetricsError(error)),
            Ok(_) => Ok(()),
        },
    }
}

/// The outcome of shutting telemetry down, from that of the meter provider, if there is
/// one. Shutting down the tracer provider cannot fail.
pub fn shutdown_result(meter: Option<Result<(), String>>) -> (result: Result<(), TracingError>)
    ensures
        match meter {
            Some(Err(error)) => result == Err::<(), TracingError>(
                TracingError::MetricsError(error),
            ),
            _ => result is Ok,
        },
{
    match meter {
        Some(Err(error)) => Err(TracingError::MetricsError(error)),
        _ => Ok(()),
    }
}

/// How a tracer is set up by a service name and an endpoint alone.
#[derive(Debug)]
pub struct TracerSetup {
    /// The name of the service, and of its tracer.
    pub service_name: String,
    /// The label that names the service in everything that is exported.
    pub resource: Label,
    pub log_format: LogFormat,
    /// The level of what is recorded, where the environment says nothing.
    pub default_level: &'static str,
    /// The levels of what other libraries record.
    pub directives: Vec<&'static str>,
    /// The endpoint that traces are exported to over gRPC, if they are.
    pub endpoint: Option<String>,
}

/// Sets a tracer up: logs as JSON or in full, little of the load balancer, and an
/// exporter if there is an endpoint.
pub fn init_tracer(
    service_name: String,
    json_output: bool,
    otlp_endpoint: Option<String>,
) -> (setup: TracerSetup)
    ensures
        setup.service_name == service_name,
        setup.resource@ == service_label(service_name@),
        setup.default_level@ == "INFO"@,
        setup.log_format == (if json_output {
            LogFormat::JSON
        } else {
            LogFormat::Full
        }),
        texts_view(setup.directives@) == seq!["ginepro=info"@],
        setup.endpoint == otlp_endpoint,
{
    let mut directives: Vec<&'static str> = Vec::new();
    directives.push("ginepro=info");
    assert(texts_view(directives@) =~= seq!["ginepro=info"@]);
    let resource: Label = label_of_service(&service_name);
    TracerSetup {
        service_name,
        resource,
        default_level: default_filter(),
        log_format: if json_output {
            LogFormat::JSON
        } else {
            LogFormat::Full
        },
        directives,
        endpoint: otlp_endpoint,
    }
}

impl TracerSetup {
    /// The layers, given whether the exporter could be installed. One that could not is
    /// done without.
    pub fn layers(&self, installed: bool) -> (layers: Vec<TraceLayer>)
        ensures
            layers@ == (if self.endpoint is Some && installed {
                seq![TraceLayer::Stdout(self.log_format), TraceLayer::Tracer]
            } else {
                seq![TraceLayer::Stdout(self.log_format)]
            }),
    {
        let mut layers: Vec<TraceLayer> = Vec::new();
        layers.push(TraceLayer::Stdout(self.log_format));
        if self.endpoint.is_some() && installed {
            layers.push(TraceLayer::Tracer);
        }
        assert(layers@ =~= (if self.endpoint is Some && installed {
            seq![TraceLayer::Stdout(self.log_format), TraceLayer::Tracer]
        } else {
            seq![TraceLayer::Stdout(self.log_format)]
        }));
        layers
    }
}

/// Logs can always name the trace of a request: where there are logs, there is a tracer
/// provider.
pub proof fn logs_have_a_tracer(config: TracingConfig)
    requires
        !config.quiet,
    ensures
        tracer_provider_of(config) is Some,
        layers_of(config).contains(TraceLayer::Tracer),
        layers_of(config).contains(TraceLayer::Stdout(config.log_format)),
{
    assert(layers_of(config)[0] == TraceLayer::Tracer);
    assert(layers_of(config).last() == TraceLayer::Stdout(config.log_format));
}

/// A quiet configuration that exports nothing sets up nothing.
pub proof fn quiet_without_exports_sets_up_nothing(config: TracingConfig)
    requires
        config.quiet,
        config.traces is None,
        config.metrics is None,
    ensures
        tracer_provider_of(config) is None,
        meter_provider_of(config) is None,
        layers_of(config).len() == 0,
{
}

/// Which metrics are exported depends on their target and on the name of the service alone:
/// traces and logs have no influence on it.
pub proof fn target_and_name_decide_on_metrics(a: TracingConfig, b: TracingConfig)
    requires
        a.metrics == b.metrics,
        a.service_name@ == b.service_name@,
    ensures
        meter_provider_of(a) == meter_provider_of(b),
{
}

/// Everything that is exported says which service it is from.
pub proof fn exports_name_the_service(config: TracingConfig)
    ensures
        tracer_provider_of(config) matches Some(provider) ==> (match provider {
            TracerProviderView::Otlp { resource, .. } => resource,
            TracerProviderView::Local { resource } => resource,
        }) == service_label(config.service_name@),
        meter_provider_of(config) matches Some(provider) ==> provider.resource == service_label(
            config.service_name@,
        ),
{
}

/// How logs are written has no influence on what is exported.
pub proof fn log_format_does_not_change_exports(config: TracingConfig, format: LogFormat)
    ensures
        tracer_provider_of((TracingConfig { log_format: format, ..config })) == tracer_provider_of(
            config,
        ),
        meter_provider_of((TracingConfig { log_format: format, ..config })) == meter_provider_of(
            config,
        ),
{
}

/// Traces are exported exactly where the configuration names a target for them, over the
/// protocol and to the endpoint of that target, and whether there are logs or metrics has no
/// influence on it. A provider is local only where no target is named.
pub proof fn traces_are_exported_to_their_target(config: TracingConfig)
    ensures
        config.traces matches Some(target) ==> (tracer_provider_of(config) matches Some(
            TracerProviderView::Otlp { protocol, endpoint, timeout_sec, .. },
        ) && protocol == target.0 && endpoint == target.1@ && (protocol is Grpc ==> timeout_sec
            == 3) && (protocol is Http ==> timeout_sec == 10)),
        config.traces is None && !config.quiet ==> tracer_provider_of(config) matches Some(
            TracerProviderView::Local { .. },
        ),
        config.traces is None && config.quiet ==> tracer_provider_of(config) is None,
{
}

/// Two configurations with the same target for traces and the same name export the same
/// traces, whatever else they say.
pub proof fn target_and_name_decide_on_exported_traces(a: TracingConfig, b: TracingConfig)
    requires
        a.traces == b.traces,
        a.traces is Some,
        a.service_name@ == b.service_name@,
    ensures
        tracer_provider_of(a) == tracer_provider_of(b),
{
}

/// Metrics are exported exactly where the configuration names a target for them, over its
/// protocol and to its endpoint. The exporter itself has a limit only over HTTP, and it is
/// that of the whole export.
pub proof fn metrics_are_exported_to_their_target(config: TracingConfig)
    ensures
        config.metrics is None ==> meter_provider_of(config) is None,
        config.metrics matches Some(target) ==> (meter_provider_of(config) matches Some(provider)
            && provider.protocol == target.0 && provider.endpoint == target.1@
            && provider.timeout_sec == 3 && provider.period_sec == 3 && (
        provider.protocol is Grpc ==> provider.exporter_timeout_sec is None) && (
        provider.protocol is Http ==> provider.exporter_timeout_sec == Some(provider.timeout_sec))),
{
}

/// The label of a service names it, under the same key for all services.
pub proof fn services_are_labelled_by_name(name: Seq<char>)
    ensures
        service_label(name).0 == "service.name"@,
        service_label(name).1 == name,
{
}

/// There is one layer for each thing that is set up, and none else: spans go to the tracer
/// provider if there is one, to the meter provider if there is one, and to the standard
/// output, in the format that was asked for, unless it is to be quiet.
pub proof fn layers_follow_what_is_set_up(config: TracingConfig, layer: TraceLayer)
    ensures
        layers_of(config).no_duplicates(),
        layers_of(config).contains(layer) <==> (match layer {
            TraceLayer::Tracer => tracer_provider_of(config) is Some,
            TraceLayer::Meter => meter_provider_of(config) is Some,
            TraceLayer::Stdout(format) => !config.quiet && format == config.log_format,
        }),
{
    let layers = layers_of(config);
    if tracer_provider_of(config) is Some {
        assert(layers[0] == TraceLayer::Tracer);
        if meter_provider_of(config) is Some {
            assert(layers[1] == TraceLayer::Meter);
        }
    } else if meter_provider_of(config) is Some {
        assert(layers[0] == TraceLayer::Meter);
    }
    if !config.quiet {
        assert(layers.last() == TraceLayer::Stdout(config.log_format));
    }
}

/// Spans reach the tracer provider before the meter provider, and both before the standard
/// output.
pub proof fn layers_are_ordered(config: TracingConfig, i: int, j: int)
    requires
        0 <= i < j < layers_of(config).len(),
    ensures
        !(layers_of(config)[j] is Tracer),
        !(layers_of(config)[i] is Stdout),
{
}

/// What is announced of an export is what is set up: it is enabled exactly where there is a
/// target, which is named with its protocol.
pub proof fn announcements_tell_what_is_exported(config: TracingConfig)
    ensures
        match config.traces {
            Some(target) => announcements_of(config).0 == "OTLP tracing enabled: Exporting "@
                + crate::tracing_config::otlp_protocol_name(target.0) + " to "@ + target.1@,
            None => announcements_of(config).0 == "OTLP traces export disabled"@,
        },
        match config.metrics {
            Some(target) => announcements_of(config).1 == "OTLP metrics enabled: Exporting "@
                + crate::tracing_config::otlp_protocol_name(target.0) + " to "@ + target.1@,
            None => announcements_of(config).1 == "OTLP metrics export disabled"@,
        },
        config.quiet ==> announcements_of(config).2 == "Stdout logging disabled"@,
        !config.quiet ==> announcements_of(config).2 == "Stdout logging enabled with format "@ + (
        "\""@ + crate::tracing_config::log_format_name(config.log_format) + "\""@),
{
}

/// What is seen of providers is what they hold.
pub proof fn providers_show_what_they_hold(tracer: TracerProvider, meter: MeterProvider)
    ensures
        match tracer {
            TracerProvider::Otlp { protocol, endpoint, timeout_sec, resource } => tracer@ == (
            TracerProviderView::Otlp {
                protocol,
                endpoint: endpoint@,
                timeout_sec,
                resource: (resource.key@, resource.value@),
            }),
            TracerProvider::Local { resource } => tracer@ == (TracerProviderView::Local {
                resource: (resource.key@, resource.value@),
            }),
        },
        opt_tracer(Some(tracer)) == Some(tracer@),
        opt_tracer(None) is None,
        meter@.protocol == meter.protocol,
        meter@.endpoint == meter.endpoint@,
        meter@.exporter_timeout_sec == meter.exporter_timeout_sec,
        meter@.timeout_sec == meter.timeout_sec,
        meter@.period_sec == meter.period_sec,
        meter@.resource == (meter.resource.key@, meter.resource.value@),
        opt_meter(Some(meter)) == Some(meter@),
        opt_meter(None) is None,
{
}

} // verus!

use orchestrator_client::args::{check_tls_args, Args};
use orchestrator_client::client::{fits, ClientBuilder, ClientKind, Grpc, Http};
use orchestrator_client::config::{
    assemble_tls, ConfigError, KeyFormat, PrivateKey, ServiceConfig, ServiceConfigBuilder,
    TlsConfig, TlsConfigBuilder,
};
use orchestrator_client::generation_nlp;
use orchestrator_client::grpc_client::{
    CallInstrument, ClientMakeSpan, ClientOnEos, ClientOnFailure, ClientOnRequest,
    ClientOnResponse, GrpcClientBuilder, GrpcFailureClass, GrpcServiceConfig, ServiceDefaults,
};
use orchestrator_client::headers::with_context_headers;
use orchestrator_client::nlp::{add_model_id, request_with_headers, NlpClient};
use orchestrator_client::server::{generate_stream_response, health, Route};
use orchestrator_client::status::StatusCode;
use orchestrator_client::tls::{
    build_client_config, build_insecure_client_config, connection_config, grpc_identity,
    supported_verify_schemes, Roots,
};
use orchestrator_client::trace_context::{
    current_trace_id, grpc_request_with_headers, with_traceparent_header,
};
use orchestrator_client::tracing_config::{LogFormat, OtlpExport, OtlpProtocol, TracingConfig};
use orchestrator_client::tracing_setup::{
    default_filter, filter_directives, init_tracer, init_tracing, providers_result,
    service_resource, shutdown_result, TraceLayer, TracerProvider, TracingError,
};

#[test]
fn service_config_has_default_timeouts() {
    let config = ServiceConfigBuilder::new("host".to_string(), 1).build();
    assert_eq!(config.request_timeout, 600);
    assert_eq!(config.connection_timeout, 60);
    assert!(config.tls.is_none());
    let config = ServiceConfig::from_parts("host".to_string(), 1, Some(2), Some(3), None);
    assert_eq!((config.request_timeout, config.connection_timeout), (2, 3));
    let a = ServiceConfigBuilder::new("host".to_string(), 1)
        .with_request_timeout(5)
        .with_connection_timeout(6)
        .build();
    let b = ServiceConfigBuilder::new("host".to_string(), 1)
        .with_connection_timeout(6)
        .with_request_timeout(5)
        .build();
    assert_eq!(a.request_timeout, b.request_timeout);
    assert_eq!(a.connection_timeout, b.connection_timeout);
    let copy = a.clone();
    assert_eq!((copy.hostname.as_str(), copy.port), ("host", 1));
}

const CERTS: &str = "-----BEGIN CERTIFICATE-----\nAQID\n-----END CERTIFICATE-----\n-----BEGIN CERTIFICATE-----\nBAU=\n-----END CERTIFICATE-----\n";
const KEY_BEGIN: &str = "-----BEGIN PRIVATE";

fn key_pem(kind: &str) -> Vec<u8> {
    let begin = KEY_BEGIN.replace("PRIVATE", &format!("{}PRIVATE", kind));
    let end = begin.replace("BEGIN", "END");
    format!("{} KEY-----\nBwg=\n{} KEY-----\n", begin, end).into_bytes()
}

fn builder(key: bool, ca: bool, insecure: Option<bool>) -> TlsConfigBuilder {
    TlsConfigBuilder::from_parts(
        "cert.pem".into(),
        if key { Some("key.pem".into()) } else { None },
        if ca { Some("ca.pem".into()) } else { None },
        insecure,
    )
}

#[test]
fn tls_config_is_read_from_pem() {
    let tls = builder(true, true, None)
        .build(CERTS.into(), Some(key_pem("")), Some(CERTS.into()))
        .unwrap();
    assert_eq!(tls.cert, vec![vec![1, 2, 3], vec![4, 5]]);
    assert_eq!(tls.ca_cert, Some(vec![vec![1, 2, 3], vec![4, 5]]));
    let key = tls.key.as_ref().unwrap();
    assert_eq!((key.format, key.der.clone()), (KeyFormat::Pkcs8, vec![7, 8]));
    assert!(!tls.insecure);
    let copy = tls.clone();
    assert_eq!(copy.cert, tls.cert);
    assert_eq!(copy.key.unwrap().der, vec![7, 8]);
    for (kind, format) in [("RSA ", KeyFormat::Pkcs1), ("EC ", KeyFormat::Sec1)] {
        let tls = builder(true, false, Some(true))
            .build(CERTS.into(), Some(key_pem(kind)), None)
            .unwrap();
        assert_eq!(tls.key.unwrap().format, format);
        assert!(tls.insecure);
        assert!(tls.ca_cert.is_none());
    }
    let tls = builder(true, false, None).clone().build(vec![], Some(CERTS.into()), None).unwrap();
    assert!(tls.cert.is_empty());
    assert!(tls.key.is_none());
}

#[test]
fn broken_pem_is_an_error() {
    let broken = "-----BEGIN CERTIFICATE-----\nAQID\n";
    let result = builder(false, false, None).build(broken.into(), None, None);
    assert!(result.is_err());
    let result = builder(false, true, None).build(CERTS.into(), None, Some(broken.into()));
    assert!(result.is_err());
    let first = assemble_tls(
        Err("cert".to_string()),
        Some(Err("key".to_string())),
        None,
        None,
    );
    match first {
        Err(ConfigError::Pem(message)) => assert_eq!(message, "cert"),
        Ok(_) => panic!("an error was expected"),
    }
    let second = assemble_tls(
        Ok(vec![]),
        Some(Err("key".to_string())),
        Some(Err("ca".to_string())),
        None,
    );
    match second {
        Err(ConfigError::Pem(message)) => assert_eq!(message, "key"),
        Ok(_) => panic!("an error was expected"),
    }
}

fn key() -> PrivateKey {
    PrivateKey { format: KeyFormat::Pkcs8, der: vec![1] }
}

#[test]
fn tls_settings_follow_the_config() {
    let full = TlsConfig {
        cert: vec![vec![1]],
        key: Some(key()),
        ca_cert: Some(vec![vec![2]]),
        insecure: false,
    };
    let config = build_client_config(&full);
    match config.roots {
        Roots::Custom(certs) => assert_eq!(certs, vec![vec![2]]),
        Roots::Native => panic!("custom roots were expected"),
    }
    let auth = config.client_auth.unwrap();
    assert_eq!((auth.cert, auth.key.der), (vec![vec![1]], vec![1]));
    assert!(config.verify);
    let bare =
        TlsConfig { cert: vec![], key: Some(key()), ca_cert: Some(vec![]), insecure: true };
    let config = build_client_config(&bare);
    assert!(matches!(config.roots, Roots::Native));
    assert!(config.client_auth.is_none());
    assert!(!config.verify);
    let keyless = TlsConfig { cert: vec![vec![1]], key: None, ca_cert: None, insecure: false };
    assert!(build_client_config(&keyless).client_auth.is_none());
    let insecure = build_insecure_client_config();
    assert!(!insecure.verify && insecure.client_auth.is_none());
    assert!(connection_config(&Some(keyless)).verify);
    assert!(!connection_config(&None).verify);
    assert!(grpc_identity(&Some(bare)).is_none());
    assert!(grpc_identity(&None).is_none());
    assert_eq!(grpc_identity(&Some(full)).unwrap().cert, vec![vec![1]]);
}

#[test]
fn signature_schemes_are_offered_in_order() {
    let numbers: Vec<u16> = supported_verify_schemes().iter().map(|s| s.number()).collect();
    let expected: Vec<u16> = [
        rustls::SignatureScheme::RSA_PKCS1_SHA1,
        rustls::SignatureScheme::ECDSA_SHA1_Legacy,
        rustls::SignatureScheme::RSA_PKCS1_SHA256,
        rustls::SignatureScheme::ECDSA_NISTP256_SHA256,
        rustls::SignatureScheme::RSA_PKCS1_SHA384,
        rustls::SignatureScheme::ECDSA_NISTP384_SHA384,
        rustls::SignatureScheme::RSA_PKCS1_SHA512,
        rustls::SignatureScheme::ECDSA_NISTP521_SHA512,
        rustls::SignatureScheme::RSA_PSS_SHA256,
        rustls::SignatureScheme::RSA_PSS_SHA384,
        rustls::SignatureScheme::RSA_PSS_SHA512,
        rustls::SignatureScheme::ED25519,
        rustls::SignatureScheme::ED448,
    ]
    .into_iter()
    .map(u16::from)
    .collect();
    assert_eq!(numbers, expected);
}

#[test]
fn http_clients_keep_their_health_service() {
    let client = ClientBuilder::<Http, u8, u16, _, _>::http()
        .health_service::<Http>(2)
        .service(1);
    assert_eq!((client.service, client.health_service), (Some(1), Some(2)));
    assert!(fits::<Http>(ClientKind::Http));
    assert!(!fits::<Grpc>(ClientKind::Http));
    assert!(fits::<Grpc>(ClientKind::Grpc));
}

#[test]
fn grpc_clients_have_one_service() {
    let client = ClientBuilder::<Grpc, u8, u16, _, _>::grpc().service(1);
    assert_eq!((client.service, client.health_service), (Some(1), None));
    let client = client.health_service::<Grpc>(3);
    assert_eq!((client.service, client.health_service), (Some(3), None));
}

fn grpc_config() -> GrpcServiceConfig {
    GrpcServiceConfig {
        hostname: "host".to_string(),
        port: None,
        request_timeout: None,
        connection_timeout: Some(4),
    }
}

fn message<T>(result: Result<T, orchestrator_client::grpc_client::BuildFailed>) -> String {
    match result {
        Ok(_) => panic!("an error was expected"),
        Err(error) => error.message,
    }
}

#[test]
fn grpc_builder_names_what_is_missing() {
    let config = grpc_config();
    type Builder<'a> = GrpcClientBuilder<'a, u8>;
    assert_eq!(message(Builder::new().build(Ok(()))), "no service config provided");
    assert_eq!(
        message(Builder::from_config(&config).build(Ok(()))),
        "no default port provided for client: host"
    );
    assert_eq!(
        message(Builder::from_config(&config).with_default_port(1).build(Ok(()))),
        "no gRPC new service function provided: host"
    );
    let ready = || Builder::from_config(&config).with_default_port(1).with_new_fn(9);
    assert_eq!(message(ready().build::<()>(Err("bad tls".to_string()))), "bad tls");
    let channel = ready().build(Ok("tls")).unwrap();
    assert_eq!((channel.hostname.as_str(), channel.port), ("host", 1));
    assert_eq!((channel.connect_timeout, channel.timeout), (4, 600));
    assert_eq!((channel.tls, channel.new_fn), ("tls", 9));
    let defaults = ServiceDefaults { request_timeout_sec: 8, connection_timeout_sec: 9 };
    let channel = ready().with_service_defaults(defaults).build(Ok(())).unwrap();
    assert_eq!((channel.connect_timeout, channel.timeout), (4, 8));
    let named = GrpcServiceConfig { port: Some(5), ..grpc_config() };
    let channel = ready().with_config(&named).build(Ok(())).unwrap();
    assert_eq!(channel.port, 5);
}

#[test]
fn nlp_channels_have_their_own_port() {
    type Nlp = NlpClient<u8, u8>;
    let channel = Nlp::channel(&grpc_config(), "new", Ok(())).unwrap();
    assert_eq!((channel.port, channel.timeout, channel.new_fn), (8085, 600, "new"));
    assert_eq!(message(Nlp::channel::<&str, ()>(&grpc_config(), "new", Err("e".to_string()))), "e");
    let client = Nlp::from_parts(1, 2);
    assert_eq!(client.name(), "nlp");
    assert_eq!((client.client, client.health_client), (1, 2));
}

#[test]
fn model_ids_are_sent_as_metadata() {
    let mut headers = http::HeaderMap::new();
    headers.insert("accept", http::HeaderValue::from_static("*/*"));
    headers.insert("mm-model-id", http::HeaderValue::from_static("old"));
    let (metadata, request) = request_with_headers("r", "new", headers.clone()).unwrap();
    assert_eq!(request, "r");
    let sent = metadata.into_headers();
    assert_eq!(sent.get("mm-model-id").unwrap(), "new");
    assert_eq!(sent.get_all("mm-model-id").iter().count(), 1);
    assert_eq!(sent.get("accept").unwrap(), "*/*");
    let metadata = tonic::metadata::MetadataMap::new();
    let extended = add_model_id(&metadata, "m").unwrap();
    assert_eq!(extended.get("mm-model-id").unwrap(), "m");
    let (metadata, request) = generation_nlp::request_with_model_id(5, "m");
    assert_eq!((metadata.len(), request), (1, 5));
    assert_eq!(metadata.get("mm-model-id").unwrap(), "m");
    let (metadata, _) = grpc_request_with_headers((), headers).unwrap();
    assert_eq!(metadata.get("mm-model-id").unwrap(), "old");
}

#[test]
fn generation_models_share_the_router() {
    let client = generation_nlp::NlpClient {
        router_key: "router".to_string(),
        clients: vec![("other".to_string(), 1), ("router".to_string(), 2)],
    };
    assert_eq!(*client.client("a").unwrap(), 2);
    assert_eq!(*client.client("other").unwrap(), 2);
    let empty = generation_nlp::NlpClient::<u8> {
        router_key: "router".to_string(),
        clients: vec![],
    };
    let error = empty.client("a").unwrap_err();
    assert_eq!(error.id, "router");
    assert_eq!(error.task, "generation with NLP client");
}

#[test]
fn headers_outside_of_any_span_are_kept() {
    let mut headers = http::HeaderMap::new();
    headers.insert("accept", http::HeaderValue::from_static("*/*"));
    assert_eq!(with_traceparent_header(headers.clone()).unwrap().get("accept").unwrap(), "*/*");
    assert_eq!(with_traceparent_header(headers.clone()), Some(headers));
    assert_eq!(current_trace_id(), 0);
}

#[derive(Debug)]
struct FixedPropagator {
    fields: Vec<String>,
}

impl opentelemetry::propagation::TextMapPropagator for FixedPropagator {
    fn inject_context(
        &self,
        _context: &opentelemetry::Context,
        injector: &mut dyn opentelemetry::propagation::Injector,
    ) {
        injector.set("traceparent", "first".to_string());
        injector.set("Traceparent", "second".to_string());
        injector.set("tracestate", "".to_string());
    }

    fn extract_with_context(
        &self,
        context: &opentelemetry::Context,
        _extractor: &dyn opentelemetry::propagation::Extractor,
    ) -> opentelemetry::Context {
        context.clone()
    }

    fn fields(&self) -> opentelemetry::propagation::text_map_propagator::FieldIter<'_> {
        opentelemetry::propagation::text_map_propagator::FieldIter::new(&self.fields)
    }
}

#[test]
fn injected_headers_go_out_once() {
    opentelemetry::global::set_text_map_propagator(FixedPropagator { fields: vec![] });
    let value = http::HeaderValue::from_static;
    let mut headers = http::HeaderMap::new();
    headers.append("traceparent", value("old"));
    headers.append("traceparent", value("older"));
    headers.append("accept", value("a"));
    headers.append("accept", value("b"));
    let traced = with_traceparent_header(headers.clone()).unwrap();
    let mut expected = http::HeaderMap::new();
    expected.append("traceparent", value("second"));
    expected.append("tracestate", value(""));
    expected.append("accept", value("a"));
    expected.append("accept", value("b"));
    assert_eq!(traced, expected);
    let (metadata, _) = grpc_request_with_headers((), headers.clone()).unwrap();
    assert_eq!(metadata.into_headers(), expected);
    let (metadata, _) = request_with_headers((), "m", headers).unwrap();
    expected.append("mm-model-id", value("m"));
    assert_eq!(metadata.into_headers(), expected);
}

#[test]
fn context_headers_replace_earlier_ones() {
    let value = http::HeaderValue::from_static;
    let mut headers = http::HeaderMap::new();
    headers.append("accept", value("a"));
    headers.append("accept", value("b"));
    headers.append("traceparent", value("old"));
    headers.append("traceparent", value("older"));
    let mut context = http::HeaderMap::new();
    context.append("traceparent", value("new"));
    context.append("tracestate", value("x=1"));
    context.append("tracestate", value("y=2"));
    let traced = with_context_headers(headers.clone(), context.clone()).unwrap();
    let all = |name: &str| -> Vec<&str> {
        traced.get_all(name).iter().map(|v| v.to_str().unwrap()).collect()
    };
    assert_eq!(all("traceparent"), ["new"]);
    assert_eq!(all("tracestate"), ["x=1", "y=2"]);
    assert_eq!(all("accept"), ["a", "b"]);
    assert_eq!(traced.len(), 5);
    assert_eq!(with_context_headers(traced.clone(), context), Some(traced.clone()));
    let empty = http::HeaderMap::new();
    assert_eq!(with_context_headers(headers.clone(), empty), Some(headers));
}

#[test]
fn many_headers_are_sent() {
    let mut headers = http::HeaderMap::new();
    for n in 0..7000 {
        let name = http::HeaderName::from_bytes(format!("h-{}", n).as_bytes()).unwrap();
        headers.insert(name, http::HeaderValue::from_static("v"));
    }
    let (metadata, _) = request_with_headers((), "m", headers).unwrap();
    assert_eq!(metadata.len(), 7001);
}

#[test]
fn responses_are_measured_by_class() {
    let on_response = ClientOnResponse {};
    let cases = [
        (200, Some(CallInstrument::SuccessCount)),
        (404, Some(CallInstrument::ClientErrorCount)),
        (503, Some(CallInstrument::ServerErrorCount)),
        (302, None),
    ];
    for (code, class) in cases {
        let status = StatusCode::from_u16(code).unwrap();
        let measures = on_response.on_response(status, 12);
        assert_eq!(measures.instruments[0].name(), "monotonic_counter.client_response_count");
        assert_eq!(measures.instruments[1].name(), "histogram.client_request_duration");
        assert_eq!(measures.instruments.get(2).copied(), class);
        assert_eq!((measures.response_status, measures.duration_ms), (code, 12));
        assert_eq!(measures.unexpected.is_none(), class.is_some());
    }
    let measures = on_response.on_response(StatusCode::from_u16(302).unwrap(), 1);
    assert_eq!(
        measures.unexpected.unwrap(),
        "unexpected gRPC client response status code: 302"
    );
}

#[test]
fn failures_and_streams_are_measured() {
    let on_failure = ClientOnFailure {};
    let measures = on_failure.on_failure(GrpcFailureClass::Code(14), 34);
    let names: Vec<&str> = measures.instruments.iter().map(|i| i.name()).collect();
    assert_eq!(
        names,
        [
            "monotonic_counter.client_request_failure_count",
            "monotonic_counter.client_5xx_response_count"
        ]
    );
    assert_eq!(measures.latency_ms, "34");
    assert_eq!(measures.status_code, Some(StatusCode::service_unavailable()));
    assert_eq!(measures.error, None);
    let measures = on_failure.on_failure(GrpcFailureClass::Error("io".to_string()), 0);
    assert_eq!((measures.status_code, measures.error), (None, Some("io".to_string())));
    let measures = ClientOnEos {}.on_eos(56);
    assert_eq!(measures.stream_duration_ms, 56);
    let names: Vec<&str> = measures.instruments.iter().map(|i| i.name()).collect();
    assert_eq!(
        names,
        [
            "monotonic_counter.client_stream_response_count",
            "monotonic_histogram.client_stream_response_duration"
        ]
    );
    let measures = ClientOnRequest {}.on_request("POST".to_string(), "/a.B/C".to_string());
    let names: Vec<&str> = measures.instruments.iter().map(|i| i.name()).collect();
    assert_eq!(names, ["monotonic_counter.incoming_request_count"]);
    assert_eq!((measures.request_method.as_str(), measures.request_path.as_str()), ("POST", "/a.B/C"));
    let span = ClientMakeSpan {}.make_span("POST".to_string(), "/a.B/C".to_string());
    assert_eq!(span.name, "client gRPC request");
    assert_eq!((span.request_method.as_str(), span.request_path.as_str()), ("POST", "/a.B/C"));
}

#[test]
fn unknown_names_are_reported() {
    assert_eq!(OtlpProtocol::complaint("GRPC"), None);
    assert_eq!(OtlpProtocol::complaint("http"), None);
    assert_eq!(
        OtlpProtocol::complaint("Smoke").unwrap(),
        "Invalid OTLP protocol Smoke, defaulting to grpc"
    );
    for format in ["Full", "compact", "PRETTY", "json"] {
        assert_eq!(LogFormat::complaint(format), None);
    }
    assert_eq!(
        LogFormat::complaint("xml").unwrap(),
        "Invalid trace format xml, defaulting to \"full\""
    );
}

#[test]
fn names_are_read_in_any_case() {
    let text = |s: &str| s.to_string();
    assert_eq!(OtlpExport::try_from(text("Traces")), Some(OtlpExport::Traces));
    assert_eq!(OtlpExport::from(text("METRICS")), OtlpExport::Metrics);
    assert_eq!(OtlpExport::try_from(text("logs")), None);
    assert_eq!(OtlpProtocol::from(text("HTTP")), OtlpProtocol::Http);
    assert_eq!(OtlpProtocol::from(text("gRPC")), OtlpProtocol::Grpc);
    assert_eq!(OtlpProtocol::from(text("smoke")), OtlpProtocol::default());
    assert_eq!(LogFormat::from(text("Json")), LogFormat::JSON);
    assert_eq!(LogFormat::from(text("COMPACT")), LogFormat::Compact);
    assert_eq!(LogFormat::from(text("")), LogFormat::Full);
    for format in [LogFormat::Full, LogFormat::Compact, LogFormat::Pretty, LogFormat::JSON] {
        assert_eq!(LogFormat::from(format.name().to_uppercase()), format);
    }
    assert_eq!(OtlpExport::try_from(text("TRACE\u{17f}")), None);
    for protocol in [OtlpProtocol::Grpc, OtlpProtocol::Http] {
        assert_eq!(OtlpProtocol::from(protocol.to_text().to_string()), protocol);
        assert_eq!(OtlpProtocol::from(protocol.to_text().to_uppercase()), protocol);
        assert_eq!(OtlpProtocol::from_name(protocol.to_text()), protocol);
    }
    for export in [OtlpExport::Traces, OtlpExport::Metrics] {
        assert_eq!(OtlpExport::from_name(export.to_text()), Some(export));
    }
    assert_eq!(LogFormat::Pretty.to_text(), "\"pretty\"");
    assert_eq!(OtlpProtocol::Http.default_endpoint(), "http://localhost:4318");
    assert_eq!(OtlpProtocol::Grpc.default_endpoint(), "http://localhost:4317");
}

fn args(exports: Vec<OtlpExport>) -> Args {
    Args {
        http_port: 8033,
        health_http_port: 8034,
        config_path: "config/config.yaml".into(),
        tls_cert_path: None,
        tls_key_path: None,
        tls_client_ca_cert_path: None,
        start_up_health_check: false,
        otlp_export: exports,
        log_format: LogFormat::Compact,
        quiet: true,
        otlp_service_name: "service".to_string(),
        otlp_endpoint: None,
        otlp_traces_endpoint: None,
        otlp_metrics_endpoint: None,
        otlp_protocol: OtlpProtocol::Grpc,
        otlp_traces_protocol: None,
        otlp_metrics_protocol: None,
    }
}

#[test]
fn arguments_fall_back_to_common_ones() {
    let config = TracingConfig::from_args(args(vec![]));
    assert_eq!(config.service_name, "service");
    assert!(config.traces.is_none() && config.metrics.is_none());
    assert!(config.quiet);
    assert_eq!(config.log_format, LogFormat::Compact);
    let both = vec![OtlpExport::Metrics, OtlpExport::Traces];
    let config = TracingConfig::from_args(Args {
        otlp_traces_protocol: Some(OtlpProtocol::Http),
        otlp_metrics_endpoint: Some("http://metrics".to_string()),
        ..args(both.clone())
    });
    // The default endpoint is the one of the common protocol.
    assert_eq!(
        config.traces,
        Some((OtlpProtocol::Http, "http://localhost:4317".to_string()))
    );
    assert_eq!(config.metrics, Some((OtlpProtocol::Grpc, "http://metrics".to_string())));
    let config = TracingConfig::from_args(Args {
        otlp_endpoint: Some("http://common".to_string()),
        otlp_traces_endpoint: Some("http://traces".to_string()),
        otlp_protocol: OtlpProtocol::Http,
        otlp_metrics_protocol: Some(OtlpProtocol::Grpc),
        ..args(both)
    });
    assert_eq!(config.traces, Some((OtlpProtocol::Http, "http://traces".to_string())));
    assert_eq!(config.metrics, Some((OtlpProtocol::Grpc, "http://common".to_string())));
}

#[test]
fn tls_arguments_come_in_pairs() {
    assert!(check_tls_args(false, false, false).is_ok());
    assert!(check_tls_args(true, true, false).is_ok());
    assert!(check_tls_args(true, true, true).is_ok());
    assert_eq!(check_tls_args(true, false, false), Err("tls: must provide both cert and key"));
    assert_eq!(check_tls_args(false, true, true), Err("tls: must provide both cert and key"));
    assert_eq!(
        check_tls_args(false, false, true),
        Err("tls: cannot provide client ca cert without keypair")
    );
    assert!(args(vec![]).check_tls().is_ok());
    let lone = Args { tls_key_path: Some("key.pem".into()), ..args(vec![]) };
    assert!(lone.check_tls().is_err());
}

fn tracing(quiet: bool) -> TracingConfig {
    TracingConfig {
        service_name: "service".to_string(),
        traces: None,
        metrics: None,
        log_format: LogFormat::JSON,
        quiet,
    }
}

#[test]
fn logs_need_a_local_tracer() {
    let setup = init_tracing(&tracing(false));
    match setup.tracer_provider.unwrap() {
        TracerProvider::Local { resource } => assert_eq!(
            (resource.key.as_str(), resource.value.as_str()),
            ("service.name", "service")
        ),
        TracerProvider::Otlp { .. } => panic!("a local provider was expected"),
    }
    assert_eq!(setup.tracer_name, "service");
    assert_eq!(setup.default_level, "INFO");
    assert_eq!(setup.directives, filter_directives());
    assert!(setup.meter_provider.is_none());
    assert_eq!(setup.layers, [TraceLayer::Tracer, TraceLayer::Stdout(LogFormat::JSON)]);
    assert_eq!(setup.announcements.0, "OTLP traces export disabled");
    assert_eq!(setup.announcements.1, "OTLP metrics export disabled");
    assert_eq!(setup.announcements.2, "Stdout logging enabled with format \"json\"");
    let setup = init_tracing(&tracing(true));
    assert!(setup.tracer_provider.is_none());
    assert!(setup.layers.is_empty());
    assert_eq!(setup.announcements.2, "Stdout logging disabled");
}

#[test]
fn exports_are_set_up_by_protocol() {
    let config = TracingConfig {
        traces: Some((OtlpProtocol::Http, "http://t".to_string())),
        metrics: Some((OtlpProtocol::Grpc, "http://m".to_string())),
        ..tracing(true)
    };
    let setup = init_tracing(&config.clone());
    match setup.tracer_provider.unwrap() {
        TracerProvider::Otlp { protocol, endpoint, timeout_sec, resource } => {
            assert_eq!((protocol, endpoint.as_str(), timeout_sec), (OtlpProtocol::Http, "http://t", 10));
            assert_eq!(resource, service_resource(&config));
        }
        TracerProvider::Local { .. } => panic!("an exporter was expected"),
    }
    let meter = setup.meter_provider.unwrap();
    assert_eq!(meter.resource, service_resource(&config));
    assert_eq!((meter.protocol, meter.endpoint.as_str()), (OtlpProtocol::Grpc, "http://m"));
    assert_eq!((meter.exporter_timeout_sec, meter.timeout_sec, meter.period_sec), (None, 3, 3));
    assert_eq!(setup.layers, [TraceLayer::Tracer, TraceLayer::Meter]);
    assert_eq!(setup.announcements.0, "OTLP tracing enabled: Exporting http to http://t");
    assert_eq!(setup.announcements.1, "OTLP metrics enabled: Exporting grpc to http://m");
    let other = TracingConfig {
        traces: Some((OtlpProtocol::Grpc, "http://t".to_string())),
        metrics: Some((OtlpProtocol::Http, "http://m".to_string())),
        ..tracing(true)
    };
    let setup = init_tracing(&other);
    match setup.tracer_provider.unwrap() {
        TracerProvider::Otlp { timeout_sec, .. } => assert_eq!(timeout_sec, 3),
        TracerProvider::Local { .. } => panic!("an exporter was expected"),
    }
    assert_eq!(setup.meter_provider.unwrap().exporter_timeout_sec, Some(3));
    let resource = service_resource(&config);
    assert_eq!((resource.key.as_str(), resource.value.as_str()), ("service.name", "service"));
}

#[test]
fn provider_errors_are_told_apart() {
    let error = |m: &str| Err(m.to_string());
    match providers_result(error("t"), error("m")) {
        Err(TracingError::TraceError(message)) => assert_eq!(message, "t"),
        _ => panic!("a trace error was expected"),
    }
    match providers_result(Ok(()), error("m")) {
        Err(other) => assert_eq!(other.to_text(), "Error from metrics provider: m"),
        _ => panic!("a metrics error was expected"),
    }
    assert!(providers_result(Ok(()), Ok(())).is_ok());
    assert!(shutdown_result(None).is_ok());
    assert!(shutdown_result(Some(Ok(()))).is_ok());
    assert!(shutdown_result(Some(error("m"))).is_err());
    let trace = TracingError::TraceError("t".to_string());
    assert_eq!(trace.to_text(), "Error from tracing provider: t");
}

#[test]
fn tracer_is_set_up_by_endpoint() {
    let setup = init_tracer("s".to_string(), true, Some("http://e".to_string()));
    assert_eq!(setup.service_name, "s");
    assert_eq!((setup.resource.key.as_str(), setup.resource.value.as_str()), ("service.name", "s"));
    assert_eq!(setup.default_level, "INFO");
    assert_eq!(setup.directives, ["ginepro=info"]);
    assert_eq!(
        setup.layers(true),
        [TraceLayer::Stdout(LogFormat::JSON), TraceLayer::Tracer]
    );
    assert_eq!(setup.layers(false), [TraceLayer::Stdout(LogFormat::JSON)]);
    let setup = init_tracer("s".to_string(), false, None);
    assert_eq!(setup.layers(true), [TraceLayer::Stdout(LogFormat::Full)]);
    assert_eq!(default_filter(), "INFO");
    assert_eq!(
        filter_directives(),
        [
            "ginepro=info",
            "hyper=error",
            "h2=error",
            "trust_dns_resolver=error",
            "trust_dns_proto=error",
            "tower=error",
            "tonic=error",
            "reqwest=error"
        ]
    );
}

#[test]
fn stream_is_numbered_from_zero() {
    let messages = generate_stream_response();
    let words: Vec<&str> = messages.iter().map(|m| m.generated_text.as_str()).collect();
    assert_eq!(
        words,
        ["This", "is", "very", "good", "news,", "streaming", "is", "working", "!"]
    );
    for (index, message) in messages.iter().enumerate() {
        assert_eq!(message.processed_index, index as i32);
    }
}

#[test]
fn routes_have_paths() {
    assert_eq!(Route::Health.path(), "/health");
    assert_eq!(
        Route::ClassificationWithGeneration.path(),
        "/api/v1/task/classification-with-text-generation"
    );
    assert_eq!(
        Route::StreamClassificationWithGeneration.path(),
        "/api/v1/task/server-streaming-classification-with-text-generation"
    );
    assert!(!Route::Health.is_post());
    assert!(Route::ClassificationWithGeneration.is_post());
    assert!(health().is_ok());
}

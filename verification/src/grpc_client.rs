//! gRPC clients: building them from a configuration, and measuring their calls.

use crate::status::{grpc_to_http_code, Code, StatusCode};
use crate::text::decimal_text;
use vstd::prelude::*;

verus! {

/// Where a gRPC service is; what is missing has a default.
#[derive(Debug)]
pub struct GrpcServiceConfig {
    pub hostname: String,
    pub port: Option<u16>,
    /// Timeout in seconds for request to be handled
    pub request_timeout: Option<u64>,
    /// Timeout in seconds for the connection to be made
    pub connection_timeout: Option<u64>,
}

impl GrpcServiceConfig {
    /// The port, or the given default.
    pub fn port_or(&self, default_port: u16) -> (port: u16)
        ensures
            port == (match self.port {
                Some(port) => port,
                None => default_port,
            }),
    {
        self.port.unwrap_or(default_port)
    }

    /// The timeout for requests, or the given default.
    pub fn request_timeout_or(&self, default_sec: u64) -> (secs: u64)
        ensures
            secs == (match self.request_timeout {
                Some(secs) => secs,
                None => default_sec,
            }),
    {
        self.request_timeout.unwrap_or(default_sec)
    }

    /// The timeout for connections, or the given default.
    pub fn connection_timeout_or(&self, default_sec: u64) -> (secs: u64)
        ensures
            secs == (match self.connection_timeout {
                Some(secs) => secs,
                None => default_sec,
            }),
    {
        self.connection_timeout.unwrap_or(default_sec)
    }
}

/// The timeouts of services that name none.
#[derive(Debug, Clone, Copy, PartialEq, Eq)]
pub struct ServiceDefaults {
    pub request_timeout_sec: u64,
    pub connection_timeout_sec: u64,
}

impl Default for ServiceDefaults {
    /// Ten minutes for a request, and one for a connection.
    fn default() -> (defaults: ServiceDefaults)
        ensures
            defaults.request_timeout_sec == crate::config::DEFAULT_REQUEST_TIMEOUT_SEC,
            defaults.connection_timeout_sec == crate::config::DEFAULT_CONNECT_TIMEOUT_SEC,
    {
        ServiceDefaults {
            request_timeout_sec: crate::config::DEFAULT_REQUEST_TIMEOUT_SEC,
            connection_timeout_sec: crate::config::DEFAULT_CONNECT_TIMEOUT_SEC,
        }
    }
}

/// Why a client could not be built.
#[derive(Debug)]
pub struct BuildFailed {
    pub message: String,
}

/// Everything that is needed to open a channel to a gRPC service and to make the client
/// on it, with `F` making the client and `L` securing the channel.
#[derive(Debug)]
pub struct GrpcChannel<F, L> {
    pub hostname: String,
    pub port: u16,
    /// How long to wait for the connection, in seconds.
    pub connect_timeout: u64,
    /// How long to wait for a response, in seconds.
    pub timeout: u64,
    pub tls: L,
    pub new_fn: F,
}

/// Builds a gRPC client, with `F` making the client on a channel.
#[derive(Debug, Clone)]
pub struct GrpcClientBuilder<'a, F> {
    pub service_config: Option<&'a GrpcServiceConfig>,
    /// Every client implementation needs to specify its own default port. There is no
    /// default across all clients, so this is not part of the service defaults.
    pub default_port: Option<u16>,
    pub new_fn: Option<F>,
    pub service_defaults: ServiceDefaults,
}

/// The message of the first thing that is missing, if something is.
pub open spec fn missing_part(
    hostname: Option<Seq<char>>,
    has_default_port: bool,
    has_new_fn: bool,
) -> Option<Seq<char>> {
    match hostname {
        None => Some("no service config provided"@),
        Some(host) => if !has_default_port {
            Some("no default port provided for client: "@ + host)
        } else if !has_new_fn {
            Some("no gRPC new service function provided: "@ + host)
        } else {
            None
        },
    }
}

impl<'a, F> GrpcClientBuilder<'a, F> {
    /// The message of the first thing that is missing, if something is.
    pub open spec fn missing(self) -> Option<Seq<char>> {
        missing_part(
            match self.service_config {
                Some(config) => Some(config.hostname@),
                None => None,
            },
            self.default_port is Some,
            self.new_fn is Some,
        )
    }

    /// A builder with nothing set but the timeouts of services that name none, as by
    /// default.
    pub fn new() -> (builder: GrpcClientBuilder<'a, F>)
        ensures
            builder.service_config is None,
            builder.default_port is None,
            builder.new_fn is None,
            builder.service_defaults.request_timeout_sec
                == crate::config::DEFAULT_REQUEST_TIMEOUT_SEC,
            builder.service_defaults.connection_timeout_sec
                == crate::config::DEFAULT_CONNECT_TIMEOUT_SEC,
    {
        GrpcClientBuilder {
            service_config: None,
            default_port: None,
            new_fn: None,
            service_defaults: ServiceDefaults::default(),
        }
    }

    /// A builder for a client of the given service.
    pub fn from_config(service_config: &'a GrpcServiceConfig) -> (builder: GrpcClientBuilder<'a, F>)
        ensures
            builder.service_config == Some(service_config),
            builder.default_port is None,
            builder.new_fn is None,
            builder.service_defaults.request_timeout_sec
                == crate::config::DEFAULT_REQUEST_TIMEOUT_SEC,
            builder.service_defaults.connection_timeout_sec
                == crate::config::DEFAULT_CONNECT_TIMEOUT_SEC,
    {
        GrpcClientBuilder::new().with_config(service_config)
    }

    /// Sets the service.
    pub fn with_config(self, service_config: &'a GrpcServiceConfig) -> (builder: GrpcClientBuilder<
        'a,
        F,
    >)
        ensures
            builder == (GrpcClientBuilder { service_config: Some(service_config), ..self }),
    {
        GrpcClientBuilder {
            service_config: Some(service_config),
            default_port: self.default_port,
            new_fn: self.new_fn,
            service_defaults: self.service_defaults,
        }
    }

    /// Sets the port of a service that names none.
    pub fn with_default_port(self, default_port: u16) -> (builder: GrpcClientBuilder<'a, F>)
        ensures
            builder == (GrpcClientBuilder { default_port: Some(default_port), ..self }),
    {
        GrpcClientBuilder {
            service_config: self.service_config,
            default_port: Some(default_port),
            new_fn: self.new_fn,
            service_defaults: self.service_defaults,
        }
    }

    /// Sets what makes the client on a channel.
    pub fn with_new_fn(self, new_fn: F) -> (builder: GrpcClientBuilder<'a, F>)
        ensures
            builder == (GrpcClientBuilder { new_fn: Some(new_fn), ..self }),
    {
        GrpcClientBuilder {
            service_config: self.service_config,
            default_port: self.default_port,
            new_fn: Some(new_fn),
            service_defaults: self.service_defaults,
        }
    }

    /// Sets the timeouts of services that name none.
    pub fn with_service_defaults(self, service_defaults: ServiceDefaults) -> (builder:
        GrpcClientBuilder<'a, F>)
        ensures
            builder == (GrpcClientBuilder { service_defaults, ..self }),
    {
        GrpcClientBuilder {
            service_config: self.service_config,
            default_port: self.default_port,
            new_fn: self.new_fn,
            service_defaults,
        }
    }

    /// Everything that is needed to make the client. Fails with the first thing that is
    /// missing, or else if the channel cannot be secured.
    pub fn build<L>(self, tls: Result<L, String>) -> (channel: Result<
        GrpcChannel<F, L>,
        BuildFailed,
    >)
        ensures
            self.missing() matches Some(message) ==> channel matches Err(error)
                && error.message@ == message,
            self.missing() is None ==> match tls {
                Err(message) => channel matches Err(error) && error.message == message,
                Ok(tls) => channel matches Ok(c) && c.hostname == self.service_config->0.hostname
                    && c.port == (match self.service_config->0.port {
                    Some(port) => port,
                    None => self.default_port->0,
                }) && c.connect_timeout == (match self.service_config->0.connection_timeout {
                    Some(secs) => secs,
                    None => self.service_defaults.connection_timeout_sec,
                }) && c.timeout == (match self.service_config->0.request_timeout {
                    Some(secs) => secs,
                    None => self.service_defaults.request_timeout_sec,
                }) && c.tls == tls && c.new_fn == self.new_fn->0,
            },
    {
        let service_config: &GrpcServiceConfig = match self.service_config {
            Some(config) => config,
            None => return Err(
                BuildFailed { message: "no service config provided".to_owned() },
            ),
        };
        let default_port: u16 = match self.default_port {
            Some(port) => port,
            None => return Err(
                BuildFailed {
                    message: "no default port provided for client: ".to_owned().concat(
                        service_config.hostname.as_str(),
                    ),
                },
            ),
        };
        let new_fn: F = match self.new_fn {
            Some(new_fn) => new_fn,
            None => return Err(
                BuildFailed {
                    message: "no gRPC new service function provided: ".to_owned().concat(
                        service_config.hostname.as_str(),
                    ),
                },
            ),
        };
        let tls: L = match tls {
            Ok(tls) => tls,
            Err(message) => return Err(BuildFailed { message }),
        };
        Ok(
            GrpcChannel {
                hostname: service_config.hostname.clone(),
                port: service_config.port_or(default_port),
                connect_timeout: service_config.connection_timeout_or(
                    self.service_defaults.connection_timeout_sec,
                ),
                timeout: service_config.request_timeout_or(
                    self.service_defaults.request_timeout_sec,
                ),
                tls,
                new_fn,
            },
        )
    }
}

impl<'a, F> Default for GrpcClientBuilder<'a, F> {
    fn default() -> (builder: GrpcClientBuilder<'a, F>)
        ensures
            builder.service_config is None,
            builder.default_port is None,
            builder.new_fn is None,
            builder.service_defaults.request_timeout_sec
                == crate::config::DEFAULT_REQUEST_TIMEOUT_SEC,
            builder.service_defaults.connection_timeout_sec
                == crate::config::DEFAULT_CONNECT_TIMEOUT_SEC,
    {
        GrpcClientBuilder::new()
    }
}

/// The instruments that gRPC client calls are measured with.
#[derive(Debug, Clone, Copy, PartialEq, Eq, Structural)]
pub enum CallInstrument {
    RequestCount,
    ResponseCount,
    RequestDuration,
    ServerErrorCount,
    ClientErrorCount,
    SuccessCount,
    FailureCount,
    StreamResponseCount,
    StreamResponseDuration,
}

/// The name of an instrument.
pub open spec fn call_instrument_name(instrument: CallInstrument) -> Seq<char> {
    match instrument {
        CallInstrument::RequestCount => "monotonic_counter.incoming_request_count"@,
        CallInstrument::ResponseCount => "monotonic_counter.client_response_count"@,
        CallInstrument::RequestDuration => "histogram.client_request_duration"@,
        CallInstrument::ServerErrorCount => "monotonic_counter.client_5xx_response_count"@,
        CallInstrument::ClientErrorCount => "monotonic_counter.client_4xx_response_count"@,
        CallInstrument::SuccessCount => "monotonic_counter.client_success_response_count"@,
        CallInstrument::FailureCount => "monotonic_counter.client_request_failure_count"@,
        CallInstrument::StreamResponseCount => "monotonic_counter.client_stream_response_count"@,
        CallInstrument::StreamResponseDuration =>
            "monotonic_histogram.client_stream_response_duration"@,
    }
}

impl CallInstrument {
    /// The name of the instrument.
    pub fn name(&self) -> (name: &'static str)
        ensures
            name@ == call_instrument_name(*self),
    {
        match self {
            CallInstrument::RequestCount => "monotonic_counter.incoming_request_count",
            CallInstrument::ResponseCount => "monotonic_counter.client_response_count",
            CallInstrument::RequestDuration => "histogram.client_request_duration",
            CallInstrument::ServerErrorCount => "monotonic_counter.client_5xx_response_count",
            CallInstrument::ClientErrorCount => "monotonic_counter.client_4xx_response_count",
            CallInstrument::SuccessCount => "monotonic_counter.client_success_response_count",
            CallInstrument::FailureCount => "monotonic_counter.client_request_failure_count",
            CallInstrument::StreamResponseCount => "monotonic_counter.client_stream_response_count",
            CallInstrument::StreamResponseDuration => {
                "monotonic_histogram.client_stream_response_duration"
            },
        }
    }
}

/// Makes the span of a gRPC client call.
#[derive(Debug, Clone, Copy)]
pub struct ClientMakeSpan {}

/// The span of a gRPC client call: its name, and what it says of the request.
#[derive(Debug)]
pub struct CallSpan {
    pub name: &'static str,
    pub request_method: String,
    pub request_path: String,
}

impl ClientMakeSpan {
    /// The span of a request with the given method and path.
    pub fn make_span(&self, method: String, path: String) -> (span: CallSpan)
        ensures
            span.name@ == "client gRPC request"@,
            span.request_method == method,
            span.request_path == path,
    {
        CallSpan { name: "client gRPC request", request_method: method, request_path: path }
    }
}

/// Measures a request when it is sent.
#[derive(Debug, Clone, Copy)]
pub struct ClientOnRequest {}

/// What a request moves. All instruments get its method and path.
#[derive(Debug)]
pub struct RequestMeasures {
    pub instruments: Vec<CallInstrument>,
    pub request_method: String,
    pub request_path: String,
}

impl ClientOnRequest {
    /// What moves when a request with the given method and path is sent.
    pub fn on_request(&self, method: String, path: String) -> (measures: RequestMeasures)
        ensures
            measures.instruments@ == seq![CallInstrument::RequestCount],
            measures.request_method == method,
            measures.request_path == path,
    {
        let mut instruments: Vec<CallInstrument> = Vec::new();
        instruments.push(CallInstrument::RequestCount);
        assert(instruments@ =~= seq![CallInstrument::RequestCount]);
        RequestMeasures { instruments, request_method: method, request_path: path }
    }
}

/// The counter of the class of a status code, if it has one.
pub open spec fn class_instrument(status: u16) -> Option<CallInstrument> {
    if 500 <= status <= 599 {
        Some(CallInstrument::ServerErrorCount)
    } else if 400 <= status <= 499 {
        Some(CallInstrument::ClientErrorCount)
    } else if 200 <= status <= 299 {
        Some(CallInstrument::SuccessCount)
    } else {
        None
    }
}

/// The instruments that move when a response with the given status arrives.
pub open spec fn response_instruments(status: u16) -> Seq<CallInstrument> {
    let always = seq![CallInstrument::ResponseCount, CallInstrument::RequestDuration];
    match class_instrument(status) {
        Some(instrument) => always.push(instrument),
        None => always,
    }
}

/// Measures a response when it arrives.
#[derive(Debug, Clone, Copy)]
pub struct ClientOnResponse {}

/// What a response moves. All instruments get the status and the duration; a status that
/// belongs to no class is reported.
#[derive(Debug)]
pub struct ResponseMeasures {
    pub instruments: Vec<CallInstrument>,
    pub response_status: u16,
    pub duration_ms: u128,
    pub unexpected: Option<String>,
}

impl ClientOnResponse {
    /// What moves when a response with the given status arrives after the given time.
    pub fn on_response(&self, status: StatusCode, latency_ms: u128) -> (measures: ResponseMeasures)
        ensures
            measures.instruments@ == response_instruments(status@),
            measures.response_status == status@,
            measures.duration_ms == latency_ms,
            crate::text::opt_text(measures.unexpected) == (if class_instrument(status@) is None {
                Some(
                    "unexpected gRPC client response status code: "@ + crate::text::decimal(
                        status@ as nat,
                    ),
                )
            } else {
                None
            }),
    {
        let mut instruments: Vec<CallInstrument> = Vec::new();
        // On every response
        instruments.push(CallInstrument::ResponseCount);
        instruments.push(CallInstrument::RequestDuration);
        let mut unexpected: Option<String> = None;
        if status.is_server_error() {
            // On every server error (HTTP 5xx) response
            instruments.push(CallInstrument::ServerErrorCount);
        } else if status.is_client_error() {
            // On every client error (HTTP 4xx) response
            instruments.push(CallInstrument::ClientErrorCount);
        } else if status.is_success() {
            // On every successful (HTTP 2xx) response
            instruments.push(CallInstrument::SuccessCount);
        } else {
            let number: String = decimal_text(status.as_u16() as u128);
            unexpected = Some(
                "unexpected gRPC client response status code: ".to_owned().concat(number.as_str()),
            );
        }
        assert(instruments@ =~= response_instruments(status@));
        ResponseMeasures {
            instruments,
            response_status: status.as_u16(),
            duration_ms: latency_ms,
            unexpected,
        }
    }
}

/// Why a gRPC call failed.
#[derive(Debug)]
pub enum GrpcFailureClass {
    /// The service answered with a status other than success, by its number.
    Code(i32),
    /// There was no answer, for the given reason.
    Error(String),
}

/// What a failure moves. All instruments get the duration and the status or the error.
#[derive(Debug)]
pub struct FailureMeasures {
    pub instruments: Vec<CallInstrument>,
    pub latency_ms: String,
    pub status_code: Option<StatusCode>,
    pub error: Option<String>,
}

/// Measures a failure.
#[derive(Debug, Clone, Copy)]
pub struct ClientOnFailure {}

impl ClientOnFailure {
    /// What moves when a call failed after the given time.
    pub fn on_failure(&self, failure: GrpcFailureClass, latency_ms: u128) -> (measures:
        FailureMeasures)
        ensures
            measures.instruments@ == seq![
                CallInstrument::FailureCount,
                CallInstrument::ServerErrorCount,
            ],
            measures.latency_ms@ == crate::text::decimal(latency_ms as nat),
            match failure {
                GrpcFailureClass::Code(number) => {
                    &&& measures.error is None
                    &&& measures.status_code matches Some(status) && status@
                        == crate::status::http_code_of(crate::status::code_of_number(number))
                },
                GrpcFailureClass::Error(error) => measures.status_code is None && measures.error
                    == Some(error),
            },
    {
        let mut instruments: Vec<CallInstrument> = Vec::new();
        instruments.push(CallInstrument::FailureCount);
        instruments.push(CallInstrument::ServerErrorCount);
        assert(instruments@ =~= seq![
            CallInstrument::FailureCount,
            CallInstrument::ServerErrorCount,
        ]);
        let latency_ms: String = decimal_text(latency_ms);
        match failure {
            GrpcFailureClass::Code(number) => {
                let code: Code = Code::from_i32(number);
                FailureMeasures {
                    instruments,
                    latency_ms,
                    status_code: Some(grpc_to_http_code(code)),
                    error: None,
                }
            },
            GrpcFailureClass::Error(error) => FailureMeasures {
                instruments,
                latency_ms,
                status_code: None,
                error: Some(error),
            },
        }
    }
}

/// Measures the end of a stream.
#[derive(Debug, Clone, Copy)]
pub struct ClientOnEos {}

/// What the end of a stream moves. All instruments get how long it lasted.
#[derive(Debug)]
pub struct StreamMeasures {
    pub instruments: Vec<CallInstrument>,
    pub stream_duration_ms: u128,
}

impl ClientOnEos {
    /// What moves when a stream ends that lasted the given time.
    pub fn on_eos(&self, stream_duration_ms: u128) -> (measures: StreamMeasures)
        ensures
            measures.instruments@ == seq![
                CallInstrument::StreamResponseCount,
                CallInstrument::StreamResponseDuration,
            ],
            measures.stream_duration_ms == stream_duration_ms,
    {
        let mut instruments: Vec<CallInstrument> = Vec::new();
        instruments.push(CallInstrument::StreamResponseCount);
        instruments.push(CallInstrument::StreamResponseDuration);
        assert(instruments@ =~= seq![
            CallInstrument::StreamResponseCount,
            CallInstrument::StreamResponseDuration,
        ]);
        StreamMeasures { instruments, stream_duration_ms }
    }
}

/// Every response is counted and timed; beyond that, it moves the counter of at most one
/// class, and of exactly one if its status is a success or an error.
pub proof fn responses_are_classified_once(status: u16)
    ensures
        response_instruments(status).no_duplicates(),
        response_instruments(status).contains(CallInstrument::ResponseCount),
        response_instruments(status).contains(CallInstrument::RequestDuration),
        2 <= response_instruments(status).len() <= 3,
        response_instruments(status).len() == 3 <==> (200 <= status <= 299 || 400 <= status <= 599),
{
    assert(response_instruments(status)[0] == CallInstrument::ResponseCount);
    assert(response_instruments(status)[1] == CallInstrument::RequestDuration);
}

/// A client can be built exactly where the service, the default port and what makes the
/// client are all set, in whatever order.
pub proof fn nothing_is_missing_iff_all_is_set<F>(builder: GrpcClientBuilder<F>)
    ensures
        builder.missing() is None <==> builder.service_config is Some
            && builder.default_port is Some && builder.new_fn is Some,
{
}

/// A response moves the counter of the class that its first digit names, and of no other.
pub proof fn responses_move_the_counter_of_their_class(status: u16)
    ensures
        ({
            let moved = response_instruments(status);
            &&& moved.contains(CallInstrument::ServerErrorCount) <==> status / 100 == 5
            &&& moved.contains(CallInstrument::ClientErrorCount) <==> status / 100 == 4
            &&& moved.contains(CallInstrument::SuccessCount) <==> status / 100 == 2
            &&& class_instrument(status) is None <==> status / 100 != 2 && status / 100 != 4
                && status / 100 != 5
            &&& !moved.contains(CallInstrument::RequestCount)
            &&& !moved.contains(CallInstrument::FailureCount)
            &&& !moved.contains(CallInstrument::StreamResponseCount)
            &&& !moved.contains(CallInstrument::StreamResponseDuration)
        }),
{
    let moved = response_instruments(status);
    if moved.len() == 3 {
        assert(moved[2] == class_instrument(status)->0);
    }
}

/// What is missing is told in the order in which it is needed: the service, the port of a
/// service that names none, and what makes the client. All but the first name the service.
pub proof fn the_first_missing_part_is_told(
    hostname: Option<Seq<char>>,
    has_default_port: bool,
    has_new_fn: bool,
)
    ensures
        missing_part(hostname, has_default_port, has_new_fn) is None <==> hostname is Some
            && has_default_port && has_new_fn,
        hostname is None ==> missing_part(hostname, has_default_port, has_new_fn) == Some(
            "no service config provided"@,
        ),
        hostname matches Some(host) ==> {
            &&& missing_part(hostname, false, has_new_fn) == Some(
                "no default port provided for client: "@ + host,
            )
            &&& missing_part(hostname, true, false) == Some(
                "no gRPC new service function provided: "@ + host,
            )
        },
{
}

/// What a builder misses is what was not set, and it is told with the name of its service.
pub proof fn builders_miss_what_was_not_set<F>(builder: GrpcClientBuilder<F>)
    ensures
        builder.service_config is None ==> builder.missing() == Some(
            "no service config provided"@,
        ),
        builder.service_config matches Some(config) ==> {
            &&& builder.default_port is None ==> builder.missing() == Some(
                "no default port provided for client: "@ + config.hostname@,
            )
            &&& builder.default_port is Some && builder.new_fn is None ==> builder.missing()
                == Some("no gRPC new service function provided: "@ + config.hostname@)
            &&& builder.default_port is Some && builder.new_fn is Some ==> builder.missing() is None
        },
{
}

/// The counters of responses are named after the class that they count.
pub proof fn class_counters_are_named_alike()
    ensures
        call_instrument_name(CallInstrument::ResponseCount) == "monotonic_counter.client_"@
            + "response_count"@,
        call_instrument_name(CallInstrument::ServerErrorCount) == "monotonic_counter.client_"@
            + "5xx_"@ + "response_count"@,
        call_instrument_name(CallInstrument::ClientErrorCount) == "monotonic_counter.client_"@
            + "4xx_"@ + "response_count"@,
        call_instrument_name(CallInstrument::SuccessCount) == "monotonic_counter.client_"@
            + "success_"@ + "response_count"@,
        call_instrument_name(CallInstrument::StreamResponseCount) == "monotonic_counter.client_"@
            + "stream_"@ + "response_count"@,
{
    reveal_strlit("monotonic_counter.client_");
    reveal_strlit("response_count");
    reveal_strlit("5xx_");
    reveal_strlit("4xx_");
    reveal_strlit("success_");
    reveal_strlit("stream_");
    reveal_strlit("monotonic_counter.client_response_count");
    reveal_strlit("monotonic_counter.client_5xx_response_count");
    reveal_strlit("monotonic_counter.client_4xx_response_count");
    reveal_strlit("monotonic_counter.client_success_response_count");
    reveal_strlit("monotonic_counter.client_stream_response_count");
    assert("monotonic_counter.client_response_count"@ =~= "monotonic_counter.client_"@
        + "response_count"@);
    assert("monotonic_counter.client_5xx_response_count"@ =~= "monotonic_counter.client_"@
        + "5xx_"@ + "response_count"@);
    assert("monotonic_counter.client_4xx_response_count"@ =~= "monotonic_counter.client_"@
        + "4xx_"@ + "response_count"@);
    assert("monotonic_counter.client_success_response_count"@ =~= "monotonic_counter.client_"@
        + "success_"@ + "response_count"@);
    assert("monotonic_counter.client_stream_response_count"@ =~= "monotonic_counter.client_"@
        + "stream_"@ + "response_count"@);
}

} // verus!

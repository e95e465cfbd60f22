//! The client of the NLP service: gRPC calls on behalf of a model.

use crate::grpc_client::{BuildFailed, GrpcChannel, GrpcClientBuilder, GrpcServiceConfig};
use crate::headers::{insert_header, metadata_from_headers, metadata_to_headers};
use crate::health::{HealthCheckResult, HealthStatus};
use crate::status::{grpc_to_http_code, Code};
use crate::trace_context::grpc_request_with_headers;
use vstd::prelude::*;

verus! {

/// The port of an NLP service that names none.
pub const DEFAULT_PORT: u16 = 8085;

/// The client of an NLP service, with `C` making its calls and `H` telling its health.
#[derive(Debug, Clone)]
pub struct NlpClient<C, H> {
    pub client: C,
    pub health_client: H,
}

/// The gRPC code that a health check of an NLP service counts as. A service that does not
/// know what it is asked for answers, and so is well.
pub open spec fn nlp_health_code(response: Result<(), Code>) -> Code {
    match response {
        Ok(_) => Code::Okay,
        Err(Code::InvalidArgument) => Code::Okay,
        Err(Code::NotFound) => Code::Okay,
        Err(code) => code,
    }
}

/// What a health check of an NLP service says.
pub open spec fn nlp_health(response: Result<(), Code>) -> crate::health::HealthCheckResultView {
    crate::health::HealthCheckResultView {
        status: if nlp_health_code(response) == Code::Okay {
            HealthStatus::Healthy
        } else {
            HealthStatus::Unhealthy
        },
        code: crate::status::http_code_of(nlp_health_code(response)),
        reason: None,
    }
}

impl<C, H> NlpClient<C, H> {
    /// A client that uses the given channels.
    pub fn from_parts(client: C, health_client: H) -> (nlp: NlpClient<C, H>)
        ensures
            nlp == (NlpClient { client, health_client }),
    {
        NlpClient { client, health_client }
    }

    /// What is needed to open the channel of a client, with `new_fn` making the client.
    pub fn channel<F, L>(config: &GrpcServiceConfig, new_fn: F, tls: Result<L, String>) -> (channel:
        Result<GrpcChannel<F, L>, BuildFailed>)
        ensures
            match tls {
                Err(message) => channel matches Err(error) && error.message == message,
                Ok(tls) => channel matches Ok(c) && c.hostname == config.hostname && c.port == (
                match config.port {
                    Some(port) => port,
                    None => DEFAULT_PORT,
                }) && c.connect_timeout == (match config.connection_timeout {
                    Some(secs) => secs,
                    None => crate::config::DEFAULT_CONNECT_TIMEOUT_SEC,
                }) && c.timeout == (match config.request_timeout {
                    Some(secs) => secs,
                    None => crate::config::DEFAULT_REQUEST_TIMEOUT_SEC,
                }) && c.tls == tls && c.new_fn == new_fn,
            },
    {
        GrpcClientBuilder::from_config(config).with_default_port(DEFAULT_PORT).with_new_fn(
            new_fn,
        ).build(tls)
    }

    /// The name of the client.
    pub fn name(&self) -> (name: &'static str)
        ensures
            name@ == "nlp"@,
    {
        "nlp"
    }

    /// What the outcome of a health check says.
    pub fn health(response: Result<(), Code>) -> (health: HealthCheckResult)
        ensures
            health@ == nlp_health(response),
    {
        let code: Code = match response {
            Ok(_) => Code::Okay,
            Err(Code::InvalidArgument) => Code::Okay,
            Err(Code::NotFound) => Code::Okay,
            Err(code) => code,
        };
        let status: HealthStatus = match code {
            Code::Okay => HealthStatus::Healthy,
            _ => HealthStatus::Unhealthy,
        };
        HealthCheckResult { status, code: grpc_to_http_code(code), reason: None }
    }
}

/// The metadata of a call on behalf of a model: the given one, and the id of the model.
pub open spec fn with_model_id(
    values: Map<Seq<char>, Seq<Seq<u8>>>,
    model_id: Seq<char>,
) -> Map<Seq<char>, Seq<Seq<u8>>> {
    values.insert("mm-model-id"@, seq![vstd::utf8::encode_utf8(model_id)])
}

/// Adds the id of a model to the metadata of a call. `None` if the map cannot hold another
/// name, which it can as long as there is room.
pub fn add_model_id(metadata: &tonic::metadata::MetadataMap, model_id: &str) -> (extended: Option<
    tonic::metadata::MetadataMap,
>)
    requires
        crate::headers::is_header_value(model_id@),
    ensures
        extended matches Some(m) ==> crate::headers::metadata_values(m) == with_model_id(
            crate::headers::metadata_values(*metadata),
            model_id@,
        ),
        crate::headers::has_room(crate::headers::metadata_values(*metadata)) ==> extended is Some,
        extended is None ==> crate::ambient::may_refuse(crate::headers::metadata_values(*metadata)),
{
    proof {
        reveal_strlit("mm-model-id");
    }
    let mut headers: http::HeaderMap = metadata_to_headers(metadata);
    if insert_header(&mut headers, "mm-model-id", model_id.as_bytes()) {
        Some(metadata_from_headers(headers))
    } else {
        None
    }
}

/// `sent` is the message with the headers, the injected ones in place of their own names,
/// one value each, and the id of the model; there is such a message as long as there is
/// room.
pub open spec fn is_sent_with<T>(
    headers: Map<Seq<char>, Seq<Seq<u8>>>,
    injected: Map<Seq<char>, Seq<Seq<u8>>>,
    model_id: Seq<char>,
    request: T,
    sent: Option<(tonic::metadata::MetadataMap, T)>,
) -> bool {
    &&& crate::ambient::may_be_injected(injected)
    &&& crate::headers::has_single_values(injected)
    &&& sent matches Some(s) ==> s.1 == request && crate::headers::metadata_values(s.0)
        == with_model_id(headers.union_prefer_right(injected), model_id)
    &&& crate::headers::has_room(headers.union_prefer_right(injected)) ==> sent is Some
    &&& sent is None ==> crate::ambient::is_refused(headers.union_prefer_right(injected))
}

/// Turns an NLP client gRPC request body of type `T` and headers into the metadata and
/// message of a request. Also injects the given `model_id`, and `traceparent` from the
/// current context, into the headers. `None` if the map cannot hold them.
pub fn request_with_headers<T>(request: T, model_id: &str, headers: http::HeaderMap) -> (parts:
    Option<(tonic::metadata::MetadataMap, T)>)
    requires
        crate::headers::is_header_value(model_id@),
    ensures
        exists|injected: Map<Seq<char>, Seq<Seq<u8>>>| #[trigger]
            is_sent_with(
                crate::headers::header_values(headers),
                injected,
                model_id@,
                request,
                parts,
            ),
{
    let traced: Option<(tonic::metadata::MetadataMap, T)> = grpc_request_with_headers(
        request,
        headers,
    );
    let ghost injected = choose|injected: Map<Seq<char>, Seq<Seq<u8>>>| #[trigger]
        crate::trace_context::is_traced(
            crate::headers::header_values(headers),
            injected,
            crate::trace_context::opt_metadata(traced),
        );
    let parts: Option<(tonic::metadata::MetadataMap, T)> = match traced {
        Some(traced) => match add_model_id(&traced.0, model_id) {
            Some(metadata) => Some((metadata, traced.1)),
            None => {
                assert(crate::ambient::may_refuse(crate::headers::metadata_values(traced.0)));
                None
            },
        },
        None => None,
    };
    assert(is_sent_with(
        crate::headers::header_values(headers),
        injected,
        model_id@,
        request,
        parts,
    ));
    parts
}

/// An NLP service is healthy exactly where it answers: with success, or by not knowing
/// what it was asked for. Its code then is `200`.
pub proof fn nlp_is_healthy_iff_it_answers(response: Result<(), Code>)
    ensures
        nlp_health(response).status is Healthy <==> (response is Ok || response
            == Err::<(), Code>(Code::InvalidArgument) || response == Err::<(), Code>(
            Code::NotFound,
        ) || response == Err::<(), Code>(Code::Okay)),
        nlp_health(response).status is Healthy <==> nlp_health(response).code == 200,
        !(nlp_health(response).status is Unknown),
{
}

/// The id of a model replaces any other that was given, and changes nothing else.
pub proof fn model_id_changes_no_other_header(
    values: Map<Seq<char>, Seq<Seq<u8>>>,
    model_id: Seq<char>,
    name: Seq<char>,
)
    ensures
        name != "mm-model-id"@ ==> crate::headers::all_values(with_model_id(values, model_id), name)
            == crate::headers::all_values(values, name),
        crate::headers::all_values(with_model_id(values, model_id), "mm-model-id"@)
            == seq![vstd::utf8::encode_utf8(model_id)],
{
}

/// A service that does not answer is unhealthy with the HTTP code that stands for its gRPC
/// code. No reason is ever given.
pub proof fn nlp_health_keeps_the_code(response: Result<(), Code>)
    ensures
        nlp_health(response).reason is None,
        response matches Err(code) && !(code is Okay || code is InvalidArgument
            || code is NotFound) ==> nlp_health(response).code == crate::status::http_code_of(
            response->Err_0,
        ) && nlp_health(response).status is Unhealthy,
        response is Ok ==> nlp_health(response).code == 200,
{
}

/// What is sent for a model is the message itself, the id of the model and no other id, every
/// header that was injected for the current span with its one value, and every other header
/// as it was given.
pub proof fn model_requests_carry_the_current_context<T>(
    headers: Map<Seq<char>, Seq<Seq<u8>>>,
    injected: Map<Seq<char>, Seq<Seq<u8>>>,
    model_id: Seq<char>,
    request: T,
    sent: Option<(tonic::metadata::MetadataMap, T)>,
    name: Seq<char>,
)
    requires
        is_sent_with(headers, injected, model_id, request, sent),
    ensures
        crate::ambient::may_be_injected(injected),
        sent matches Some(s) ==> {
            let values = crate::headers::metadata_values(s.0);
            &&& s.1 == request
            &&& values["mm-model-id"@] == seq![vstd::utf8::encode_utf8(model_id)]
            &&& name != "mm-model-id"@ && injected.contains_key(name) ==> values.contains_key(name)
                && values[name] == injected[name] && values[name].len() == 1
            &&& name != "mm-model-id"@ && !injected.contains_key(name)
                ==> crate::headers::all_values(values, name) == crate::headers::all_values(
                headers,
                name,
            )
        },
        headers.union_prefer_right(injected).dom().finite() && headers.union_prefer_right(
            injected,
        ).dom().len() < 6000 ==> sent is Some,
        sent is None ==> crate::ambient::is_refused(headers.union_prefer_right(injected)),
{
    crate::ambient::injected_headers_have_single_values(injected);
}

} // verus!

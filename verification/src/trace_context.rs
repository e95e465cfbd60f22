//! The span that is current where a call is made, and its propagation in headers.

use crate::headers::{metadata_from_headers, with_context_headers};
use crate::request::SpanContext;
use opentelemetry::trace::TraceContextExt;
use tracing_opentelemetry::OpenTelemetrySpanExt;
use vstd::prelude::*;

verus! {

/// `tracing::Span::current` and the OpenTelemetry context attached to it. It depends on
/// where the call is made; nothing more is promised of it.
#[verifier::external_body]
pub(crate) fn current_span_context() -> (context: SpanContext)
    ensures
        crate::ambient::may_be_current(context),
{
    let context = tracing::Span::current().context();
    let span = context.span();
    let current = span.span_context();
    SpanContext {
        trace_id: u128::from_be_bytes(current.trace_id().to_bytes()),
        span_id: u64::from_be_bytes(current.span_id().to_bytes()),
        trace_flags: current.trace_flags().to_u8(),
        is_remote: current.is_remote(),
        trace_state: current.trace_state().header(),
    }
}

/// The headers that carry the context of the current span, as the propagator sets them
/// that is installed (`opentelemetry::global::get_text_map_propagator`, through
/// `opentelemetry_http::HeaderInjector`, on an empty map). The injector only inserts, so
/// each of them has one value. Which these are depends on the span and on that propagator.
#[verifier::external_body]
pub(crate) fn current_context_headers() -> (headers: http::HeaderMap)
    ensures
        crate::headers::has_single_values(crate::headers::header_values(headers)),
        crate::ambient::may_be_injected(crate::headers::header_values(headers)),
{
    let mut headers = http::HeaderMap::new();
    let context = tracing::Span::current().context();
    opentelemetry::global::get_text_map_propagator(|propagator| {
        propagator.inject_context(&context, &mut opentelemetry_http::HeaderInjector(&mut headers))
    });
    headers
}

/// `traced` holds the headers with the ones that were injected for the current span in place
/// of their own names, one value each; there is such a map as long as it has room.
pub open spec fn is_traced(
    headers: Map<Seq<char>, Seq<Seq<u8>>>,
    injected: Map<Seq<char>, Seq<Seq<u8>>>,
    traced: Option<Map<Seq<char>, Seq<Seq<u8>>>>,
) -> bool {
    &&& crate::ambient::may_be_injected(injected)
    &&& crate::headers::has_single_values(injected)
    &&& traced matches Some(t) ==> t == headers.union_prefer_right(injected)
    &&& crate::headers::has_room(headers.union_prefer_right(injected)) ==> traced is Some
    &&& traced is None ==> crate::ambient::is_refused(headers.union_prefer_right(injected))
}

/// The view of optional headers.
pub open spec fn opt_headers(headers: Option<http::HeaderMap>) -> Option<
    Map<Seq<char>, Seq<Seq<u8>>>,
> {
    match headers {
        Some(headers) => Some(crate::headers::header_values(headers)),
        None => None,
    }
}

/// Injects the `traceparent` header into the header map from the current tracing span
/// context. Used by both gRPC and HTTP requests. Which headers are injected depends on
/// the span and on the propagator that is installed; all others keep their values. `None`
/// if the map cannot hold them.
/// See https://www.w3.org/TR/trace-context/#trace-context-http-headers-format.
pub fn with_traceparent_header(headers: http::HeaderMap) -> (traced: Option<http::HeaderMap>)
    ensures
        exists|injected: Map<Seq<char>, Seq<Seq<u8>>>| #[trigger]
            is_traced(crate::headers::header_values(headers), injected, opt_headers(traced)),
{
    let context: http::HeaderMap = current_context_headers();
    let ghost injected = crate::headers::header_values(context);
    let traced: Option<http::HeaderMap> = with_context_headers(headers, context);
    assert(is_traced(crate::headers::header_values(headers), injected, opt_headers(traced)));
    traced
}

/// The trace that the current span belongs to, whatever it is.
pub fn current_trace_id() -> (trace_id: u128)
    ensures
        exists|context: SpanContext| #[trigger]
            crate::ambient::may_be_current(context) && trace_id == context.trace_id,
{
    current_span_context().trace_id
}

/// The view of the metadata of an optional request.
pub open spec fn opt_metadata<T>(parts: Option<(tonic::metadata::MetadataMap, T)>) -> Option<
    Map<Seq<char>, Seq<Seq<u8>>>,
> {
    match parts {
        Some(parts) => Some(crate::headers::metadata_values(parts.0)),
        None => None,
    }
}

/// Turns a gRPC client request body of type `T` and header map into the metadata and
/// message of a request. The current `traceparent` header is injected, based on the
/// current span. `None` if the map cannot hold what is injected.
pub fn grpc_request_with_headers<T>(request: T, headers: http::HeaderMap) -> (parts: Option<
    (tonic::metadata::MetadataMap, T),
>)
    ensures
        parts matches Some(p) ==> p.1 == request,
        exists|injected: Map<Seq<char>, Seq<Seq<u8>>>| #[trigger]
            is_traced(crate::headers::header_values(headers), injected, opt_metadata(parts)),
{
    let traced: Option<http::HeaderMap> = with_traceparent_header(headers);
    let ghost injected = choose|injected: Map<Seq<char>, Seq<Seq<u8>>>| #[trigger]
        is_traced(crate::headers::header_values(headers), injected, opt_headers(traced));
    let parts: Option<(tonic::metadata::MetadataMap, T)> = match traced {
        Some(traced) => Some((metadata_from_headers(traced), request)),
        None => None,
    };
    assert(is_traced(crate::headers::header_values(headers), injected, opt_metadata(parts)));
    parts
}

/// A header that is injected goes out with one value, whatever it had before; every other
/// header keeps its values.
pub proof fn injected_headers_have_one_value(
    headers: Map<Seq<char>, Seq<Seq<u8>>>,
    injected: Map<Seq<char>, Seq<Seq<u8>>>,
    traced: Map<Seq<char>, Seq<Seq<u8>>>,
    name: Seq<char>,
)
    requires
        is_traced(headers, injected, Some(traced)),
    ensures
        crate::ambient::may_be_injected(injected),
        injected.contains_key(name) ==> crate::headers::all_values(traced, name).len() == 1
            && traced[name] == injected[name],
        !injected.contains_key(name) ==> crate::headers::all_values(traced, name)
            == crate::headers::all_values(headers, name),
{
}

/// As long as there is room for the headers and for what is injected, nothing is lost: there
/// is a map with the names of both and no others.
pub proof fn traced_headers_lose_nothing(
    headers: Map<Seq<char>, Seq<Seq<u8>>>,
    injected: Map<Seq<char>, Seq<Seq<u8>>>,
    traced: Option<Map<Seq<char>, Seq<Seq<u8>>>>,
    name: Seq<char>,
)
    requires
        is_traced(headers, injected, traced),
    ensures
        crate::ambient::may_be_injected(injected),
        headers.union_prefer_right(injected).dom().finite() && headers.union_prefer_right(
            injected,
        ).dom().len() < 6000 ==> traced is Some,
        traced is None ==> crate::ambient::is_refused(headers.union_prefer_right(injected)),
        traced matches Some(t) ==> (t.contains_key(name) <==> headers.contains_key(name)
            || injected.contains_key(name)),
{
}

/// What is seen of optional headers and metadata is what they hold.
pub proof fn optional_maps_show_what_they_hold<T>(
    headers: http::HeaderMap,
    parts: (tonic::metadata::MetadataMap, T),
)
    ensures
        opt_headers(Some(headers)) == Some(crate::headers::header_values(headers)),
        opt_headers(None) is None,
        opt_metadata(Some(parts)) == Some(crate::headers::metadata_values(parts.0)),
        opt_metadata::<T>(None) is None,
{
}

} // verus!

//! What is known of a request while it is traced: its identifiers, where it came from,
//! and the labels that its metrics carry.

use crate::headers::{
    clone_headers, empty_headers, metadata_from_headers, metadata_to_headers, same_headers,
};
use crate::text::same_text;
use vstd::prelude::*;

verus! {

/// `true` for the headers that are passed on and that labels may show: `traceparent`.
pub fn is_allowed_header(name: &str) -> (allowed: bool)
    ensures
        allowed == (name@ == "traceparent"@),
{
    same_text(name, "traceparent")
}

/// The text of a request id: the digits in groups of 8, 4, 4, 4 and 12.
pub open spec fn uuid_text(id: u128) -> Seq<char> {
    let digits = crate::text::hexadecimal(id as nat, 32);
    digits.subrange(0, 8) + "-"@ + digits.subrange(8, 12) + "-"@ + digits.subrange(12, 16) + "-"@
        + digits.subrange(16, 20) + "-"@ + digits.subrange(20, 32)
}

/// The text of a trace id.
pub open spec fn trace_id_text(id: u128) -> Seq<char> {
    crate::text::hexadecimal(id as nat, 32)
}

/// The text of a span id.
pub open spec fn span_id_text(id: u64) -> Seq<char> {
    crate::text::hexadecimal(id as nat, 16)
}

/// `uuid::Uuid`'s rendering: the hyphenated form, in lower-case hexadecimal digits.
#[verifier::external_body]
pub(crate) fn uuid_to_string(id: u128) -> (text: String)
    ensures
        text@ == uuid_text(id),
{
    uuid::Uuid::from_u128(id).to_string()
}

/// `uuid::Uuid::new_v4`: a random identifier. Whatever the outcome, its version digit is
/// 4 and the two bits after it that name the variant are `10`.
#[verifier::external_body]
pub(crate) fn new_uuid() -> (id: u128)
    ensures
        is_random_uuid(id),
{
    uuid::Uuid::new_v4().as_u128()
}

/// The bits that every random identifier has.
pub open spec fn is_random_uuid(id: u128) -> bool {
    (id >> 76) & 0xf == 4 && (id >> 62) & 0x3 == 2
}

/// `opentelemetry::trace::TraceId`'s rendering: 32 lower-case hexadecimal digits.
#[verifier::external_body]
pub(crate) fn trace_id_to_string(id: u128) -> (text: String)
    ensures
        text@ == trace_id_text(id),
{
    opentelemetry::trace::TraceId::from(id).to_string()
}

/// `opentelemetry::trace::SpanId`'s rendering: 16 lower-case hexadecimal digits.
#[verifier::external_body]
pub(crate) fn span_id_to_string(id: u64) -> (text: String)
    ensures
        text@ == span_id_text(id),
{
    opentelemetry::trace::SpanId::from(id).to_string()
}

/// The part of a trace that is carried from span to span.
#[derive(Debug, PartialEq)]
pub struct SpanContext {
    pub trace_id: u128,
    pub span_id: u64,
    pub trace_flags: u8,
    pub is_remote: bool,
    pub trace_state: String,
}

impl SpanContext {
    /// The context of no span at all.
    pub fn empty_context() -> (context: SpanContext)
        ensures
            context.trace_id == 0,
            context.span_id == 0,
            context.trace_flags == 0,
            !context.is_remote,
            context.trace_state@ == ""@,
    {
        SpanContext {
            trace_id: 0,
            span_id: 0,
            trace_flags: 0,
            is_remote: false,
            trace_state: "".to_owned(),
        }
    }
}

impl Clone for SpanContext {
    fn clone(&self) -> (copy: SpanContext)
        ensures
            copy == *self,
    {
        SpanContext {
            trace_id: self.trace_id,
            span_id: self.span_id,
            trace_flags: self.trace_flags,
            is_remote: self.is_remote,
            trace_state: self.trace_state.clone(),
        }
    }
}

/// The identifiers of a request.
#[derive(Debug, PartialEq)]
pub struct RequestTrace {
    pub request_id: u128,
    pub trace_id: u128,
    pub context: SpanContext,
}

impl RequestTrace {
    /// The trace id is the one of the span context.
    pub open spec fn wf(self) -> bool {
        self.trace_id == self.context.trace_id
    }

    /// A trace of the given request in the given span context.
    pub fn new(request_id: u128, context: SpanContext) -> (trace: RequestTrace)
        ensures
            trace.request_id == request_id,
            trace.trace_id == context.trace_id,
            trace.context == context,
            trace.wf(),
    {
        RequestTrace { request_id, trace_id: context.trace_id, context }
    }

    /// Moves the trace to another span of the same trace.
    pub fn update_context(self, context: SpanContext) -> (trace: RequestTrace)
        requires
            context.trace_id == self.trace_id,
        ensures
            trace == (RequestTrace { context, ..self }),
            trace.wf(),
    {
        RequestTrace { request_id: self.request_id, trace_id: self.trace_id, context }
    }

    /// The request id as text.
    pub fn request_id_text(&self) -> (text: String)
        ensures
            text@ == uuid_text(self.request_id),
    {
        uuid_to_string(self.request_id)
    }

    /// The trace id as text.
    pub fn trace_id_text(&self) -> (text: String)
        ensures
            text@ == trace_id_text(self.trace_id),
    {
        trace_id_to_string(self.trace_id)
    }

    /// The id of the current span as text.
    pub fn span_id_text(&self) -> (text: String)
        ensures
            text@ == span_id_text(self.context.span_id),
    {
        span_id_to_string(self.context.span_id)
    }
}

impl Clone for RequestTrace {
    fn clone(&self) -> (copy: RequestTrace)
        ensures
            copy == *self,
    {
        RequestTrace {
            request_id: self.request_id,
            trace_id: self.trace_id,
            context: self.context.clone(),
        }
    }
}

impl Default for RequestTrace {
    /// A fresh request outside of any trace.
    fn default() -> (trace: RequestTrace)
        ensures
            is_random_uuid(trace.request_id),
            trace.trace_id == 0,
            trace.context.trace_id == 0,
            trace.context.span_id == 0,
            trace.context.trace_flags == 0,
            !trace.context.is_remote,
            trace.context.trace_state@ == ""@,
    {
        RequestTrace {
            request_id: new_uuid(),
            trace_id: 0,
            context: SpanContext::empty_context(),
        }
    }
}

/// Who handles a request.
#[derive(Debug, PartialEq)]
pub enum RequestService {
    Orchestrator,
    Client(String),
}

impl RequestService {
    /// The name of the service.
    pub open spec fn name(self) -> Seq<char> {
        match self {
            RequestService::Orchestrator => "orchestrator"@,
            RequestService::Client(name) => name@,
        }
    }

    /// The name of the service.
    pub fn to_text(&self) -> (text: String)
        ensures
            text@ == self.name(),
    {
        match self {
            RequestService::Orchestrator => "orchestrator".to_owned(),
            RequestService::Client(name) => name.clone(),
        }
    }
}

impl Clone for RequestService {
    fn clone(&self) -> (copy: RequestService)
        ensures
            copy == *self,
    {
        match self {
            RequestService::Orchestrator => RequestService::Orchestrator,
            RequestService::Client(name) => RequestService::Client(name.clone()),
        }
    }
}

/// How a request was sent.
#[derive(Debug)]
pub enum RequestMetadataKind {
    Http { headers: http::HeaderMap, method: String, path: String },
    Grpc { metadata: tonic::metadata::MetadataMap, method: String },
}

/// What a `RequestMetadataKind` holds.
pub enum RequestMetadataKindView {
    Http { headers: Map<Seq<char>, Seq<Seq<u8>>>, method: Seq<char>, path: Seq<char> },
    Grpc { metadata: Map<Seq<char>, Seq<Seq<u8>>>, method: Seq<char> },
}

impl View for RequestMetadataKind {
    type V = RequestMetadataKindView;

    open spec fn view(&self) -> RequestMetadataKindView {
        match self {
            RequestMetadataKind::Http { headers, method, path } => RequestMetadataKindView::Http {
                headers: crate::headers::header_values(*headers),
                method: method@,
                path: path@,
            },
            RequestMetadataKind::Grpc { metadata, method } => RequestMetadataKindView::Grpc {
                metadata: crate::headers::metadata_values(*metadata),
                method: method@,
            },
        }
    }
}

impl PartialEq for RequestMetadataKind {
    fn eq(&self, other: &Self) -> (equal: bool) {
        match (self, other) {
            (
                RequestMetadataKind::Http { headers: headers1, method: method1, path: path1 },
                RequestMetadataKind::Http { headers: headers2, method: method2, path: path2 },
            ) => same_headers(headers1, headers2) && *method1 == *method2 && *path1 == *path2,
            (
                RequestMetadataKind::Grpc { metadata: metadata1, method: method1 },
                RequestMetadataKind::Grpc { metadata: metadata2, method: method2 },
            ) => {
                let headers1: http::HeaderMap = metadata_to_headers(metadata1);
                let headers2: http::HeaderMap = metadata_to_headers(metadata2);
                same_headers(&headers1, &headers2) && *method1 == *method2
            },
            _ => false,
        }
    }
}

impl vstd::std_specs::cmp::PartialEqSpecImpl for RequestMetadataKind {
    open spec fn obeys_eq_spec() -> bool {
        true
    }

    open spec fn eq_spec(&self, other: &Self) -> bool {
        self@ == other@
    }
}

impl Clone for RequestMetadataKind {
    fn clone(&self) -> (copy: RequestMetadataKind)
        ensures
            copy@ == self@,
    {
        match self {
            RequestMetadataKind::Http { headers, method, path } => RequestMetadataKind::Http {
                headers: clone_headers(headers),
                method: method.clone(),
                path: path.clone(),
            },
            RequestMetadataKind::Grpc { metadata, method } => RequestMetadataKind::Grpc {
                metadata: metadata_from_headers(metadata_to_headers(metadata)),
                method: method.clone(),
            },
        }
    }
}

impl Default for RequestMetadataKind {
    /// An HTTP request of which nothing is known.
    fn default() -> (kind: RequestMetadataKind)
        ensures
            kind@ == (RequestMetadataKindView::Http {
                headers: crate::headers::no_values(),
                method: ""@,
                path: ""@,
            }),
    {
        RequestMetadataKind::Http {
            headers: empty_headers(),
            method: "".to_owned(),
            path: "".to_owned(),
        }
    }
}

impl RequestMetadataKind {
    /// An HTTP request with the given headers, method and path.
    pub fn http(headers: http::HeaderMap, method: String, path: String) -> (kind:
        RequestMetadataKind)
        ensures
            kind == (RequestMetadataKind::Http { headers, method, path }),
    {
        RequestMetadataKind::Http { headers, method, path }
    }

    /// A gRPC request with the given metadata and method.
    pub fn grpc(metadata: tonic::metadata::MetadataMap, method: String) -> (kind:
        RequestMetadataKind)
        ensures
            kind == (RequestMetadataKind::Grpc { metadata, method }),
    {
        RequestMetadataKind::Grpc { metadata, method }
    }

    /// The name of the protocol.
    pub fn to_text(&self) -> (text: String)
        ensures
            text@ == self@.name(),
    {
        match self {
            RequestMetadataKind::Http { .. } => "http".to_owned(),
            RequestMetadataKind::Grpc { .. } => "grpc".to_owned(),
        }
    }
}

impl RequestMetadataKindView {
    /// The name of the protocol.
    pub open spec fn name(self) -> Seq<char> {
        match self {
            RequestMetadataKindView::Http { .. } => "http"@,
            RequestMetadataKindView::Grpc { .. } => "grpc"@,
        }
    }

    /// The headers, whatever the protocol calls them.
    pub open spec fn values(self) -> Map<Seq<char>, Seq<Seq<u8>>> {
        match self {
            RequestMetadataKindView::Http { headers, .. } => headers,
            RequestMetadataKindView::Grpc { metadata, .. } => metadata,
        }
    }

    /// The values of the headers that are passed on.
    pub open spec fn allowed_values(self) -> Seq<Seq<u8>> {
        crate::headers::all_values(self.values(), "traceparent"@)
    }
}

/// Where a request comes from and how it was sent.
#[derive(Debug, PartialEq)]
pub struct RequestMetadata {
    pub service: RequestService,
    pub kind: RequestMetadataKind,
}

impl RequestMetadata {
    /// A request that the orchestrator itself handles.
    pub fn orchestrator(kind: RequestMetadataKind) -> (metadata: RequestMetadata)
        ensures
            metadata == (RequestMetadata { service: RequestService::Orchestrator, kind }),
    {
        RequestMetadata { service: RequestService::Orchestrator, kind }
    }

    /// A request that goes out to a client service.
    pub fn client(service: String, kind: RequestMetadataKind) -> (metadata: RequestMetadata)
        ensures
            metadata == (RequestMetadata { service: RequestService::Client(service), kind }),
    {
        RequestMetadata { service: RequestService::Client(service), kind }
    }
}

impl Clone for RequestMetadata {
    fn clone(&self) -> (copy: RequestMetadata)
        ensures
            copy.service == self.service,
            copy.kind@ == self.kind@,
    {
        RequestMetadata { service: self.service.clone(), kind: self.kind.clone() }
    }
}

/// What is known of a request once its body was read.
#[derive(Debug, PartialEq)]
pub struct ExtraRequestMetadata {
    pub is_streaming: bool,
    pub generation_model_id: Option<String>,
    pub with_detection: bool,
}

impl Clone for ExtraRequestMetadata {
    fn clone(&self) -> (copy: ExtraRequestMetadata)
        ensures
            copy == *self,
    {
        ExtraRequestMetadata {
            is_streaming: self.is_streaming,
            generation_model_id: match &self.generation_model_id {
                Some(id) => Some(id.clone()),
                None => None,
            },
            with_detection: self.with_detection,
        }
    }
}

/// Identifiers have texts of a fixed length.
pub proof fn identifier_texts_have_fixed_lengths(request_id: u128, trace_id: u128, span_id: u64)
    ensures
        uuid_text(request_id).len() == 36,
        trace_id_text(trace_id).len() == 32,
        span_id_text(span_id).len() == 16,
{
    reveal_strlit("-");
    crate::text::hexadecimal_len(request_id as nat, 32);
    crate::text::hexadecimal_len(trace_id as nat, 32);
    crate::text::hexadecimal_len(span_id as nat, 16);
}

/// Two requests are told apart by the text of their ids.
pub proof fn uuid_text_is_injective(a: u128, b: u128)
    requires
        uuid_text(a) == uuid_text(b),
    ensures
        a == b,
{
    reveal_strlit("-");
    let x = crate::text::hexadecimal(a as nat, 32);
    let y = crate::text::hexadecimal(b as nat, 32);
    crate::text::hexadecimal_len(a as nat, 32);
    crate::text::hexadecimal_len(b as nat, 32);
    let u = uuid_text(a);
    let v = uuid_text(b);
    assert forall|i: int| 0 <= i < 32 implies x[i] == y[i] by {
        let gaps: int = if i < 8 {
            0
        } else if i < 12 {
            1
        } else if i < 16 {
            2
        } else if i < 20 {
            3
        } else {
            4
        };
        assert(u[i + gaps] == x[i]);
        assert(v[i + gaps] == y[i]);
    }
    assert(x =~= y);
    assert(vstd::arithmetic::power::pow(16, 32) == u128::MAX + 1) by {
        reveal(vstd::arithmetic::power::pow);
        assert(vstd::arithmetic::power::pow(16, 8) == 0x1_0000_0000int) by {
            reveal_with_fuel(vstd::arithmetic::power::pow, 9);
        }
        assert(vstd::arithmetic::power::pow(0x1_0000_0000int, 4)
            == 0x1_0000_0000_0000_0000_0000_0000_0000_0000int) by {
            reveal_with_fuel(vstd::arithmetic::power::pow, 5);
        }
        vstd::arithmetic::power::lemma_pow_multiplies(16, 8, 4);
    }
    crate::text::hexadecimal_is_injective(a as nat, b as nat, 32);
}

/// A service goes by its own name, and the orchestrator by its.
pub proof fn services_go_by_their_names(name: String)
    ensures
        RequestService::Client(name).name() == name@,
        RequestService::Orchestrator.name() == "orchestrator"@,
{
}

/// What is known of a request shows what was given, whatever the protocol; of its headers,
/// only the `traceparent`s are passed on.
pub proof fn kinds_show_what_they_hold(
    headers: http::HeaderMap,
    metadata: tonic::metadata::MetadataMap,
    method: String,
    path: String,
)
    ensures
        ({
            let kind = RequestMetadataKind::Http { headers, method, path }@;
            &&& kind == (RequestMetadataKindView::Http {
                headers: crate::headers::header_values(headers),
                method: method@,
                path: path@,
            })
            &&& kind.name() == "http"@
            &&& kind.values() == crate::headers::header_values(headers)
            &&& kind.allowed_values() == crate::headers::all_values(
                crate::headers::header_values(headers),
                "traceparent"@,
            )
        }),
        ({
            let kind = RequestMetadataKind::Grpc { metadata, method }@;
            &&& kind == (RequestMetadataKindView::Grpc {
                metadata: crate::headers::metadata_values(metadata),
                method: method@,
            })
            &&& kind.name() == "grpc"@
            &&& kind.values() == crate::headers::metadata_values(metadata)
            &&& kind.allowed_values() == crate::headers::all_values(
                crate::headers::metadata_values(metadata),
                "traceparent"@,
            )
        }),
{
}

/// The text of a request id is its 32 digits with hyphens behind the 8th, 12th, 16th and
/// 20th.
pub proof fn uuid_text_has_hyphens_between_groups(id: u128, i: int)
    requires
        0 <= i < 36,
    ensures
        uuid_text(id).len() == 36,
        i == 8 || i == 13 || i == 18 || i == 23 ==> uuid_text(id)[i] == '-',
        i < 8 ==> uuid_text(id)[i] == trace_id_text(id)[i],
        8 < i < 13 ==> uuid_text(id)[i] == trace_id_text(id)[i - 1],
        13 < i < 18 ==> uuid_text(id)[i] == trace_id_text(id)[i - 2],
        18 < i < 23 ==> uuid_text(id)[i] == trace_id_text(id)[i - 3],
        23 < i ==> uuid_text(id)[i] == trace_id_text(id)[i - 4],
{
    reveal_strlit("-");
    crate::text::hexadecimal_len(id as nat, 32);
}

/// A trace is consistent exactly where its id is that of the span that it is in.
pub proof fn traces_are_those_of_their_spans(trace: RequestTrace, context: SpanContext)
    ensures
        trace.wf() <==> trace.trace_id == trace.context.trace_id,
        (RequestTrace { context, ..trace }).wf() <==> context.trace_id == trace.trace_id,
{
}

/// Two requests are equal exactly where they agree in everything that is seen of them.
pub proof fn kinds_are_equal_by_what_they_hold(a: RequestMetadataKind, b: RequestMetadataKind)
    ensures
        vstd::std_specs::cmp::PartialEqSpec::eq_spec(&a, &b) <==> a@ == b@,
{
}

} // verus!

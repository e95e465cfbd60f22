//! A request under way, and the labels that its metrics carry.

use crate::clock::{current_instant, current_time, elapsed_since, Elapsed, Timestamp};
use crate::headers::{header_text, list_headers, metadata_to_headers};
use crate::request::{
    is_allowed_header, ExtraRequestMetadata, RequestMetadata, RequestMetadataKind, RequestTrace,
    SpanContext,
};
use crate::text::bool_text;
use crate::trace_context::current_span_context;
use vstd::prelude::*;

verus! {

/// A name and a value that are attached to a metric.
#[derive(Debug, PartialEq)]
pub struct Label {
    pub key: String,
    pub value: String,
}

impl View for Label {
    type V = (Seq<char>, Seq<char>);

    /// The key and the value.
    open spec fn view(&self) -> (Seq<char>, Seq<char>) {
        (self.key@, self.value@)
    }
}

/// The keys and values of a list of labels.
pub open spec fn labels_view(labels: Seq<Label>) -> Seq<(Seq<char>, Seq<char>)> {
    labels.map_values(|label: Label| label@)
}

impl Label {
    /// A label with the given key and value.
    pub fn new(key: &str, value: String) -> (label: Label)
        ensures
            label@ == (key@, value@),
    {
        Label { key: key.to_owned(), value }
    }
}

/// Adding a label adds its key and value.
pub(crate) proof fn lemma_labels_push(labels: Seq<Label>, label: Label)
    ensures
        labels_view(labels.push(label)) == labels_view(labels).push(label@),
{
    assert(labels_view(labels.push(label)) =~= labels_view(labels).push(label@));
}

/// Adds a label with the given key and value.
fn push_label(labels: &mut Vec<Label>, key: &str, value: String)
    ensures
        labels_view(final(labels)@) == labels_view(old(labels)@).push((key@, value@)),
{
    let label: Label = Label::new(key, value);
    proof {
        lemma_labels_push(labels@, label);
    }
    labels.push(label);
}

/// The texts of header values.
pub open spec fn readable_texts(values: Seq<Seq<u8>>) -> Seq<Seq<char>> {
    values.map_values(|value: Seq<u8>| crate::headers::readable_text(value))
}

/// `true` if every one of the header values can be read as text.
pub open spec fn all_readable(values: Seq<Seq<u8>>) -> bool {
    forall|i: int| 0 <= i < values.len() ==> crate::headers::is_readable(#[trigger] values[i])
}

/// The labels of the headers that may be shown, one for each value.
pub open spec fn header_labels(values: Seq<Seq<u8>>) -> Seq<(Seq<char>, Seq<char>)> {
    readable_texts(values).map_values(|text: Seq<char>| ("header.traceparent"@, text))
}

/// The labels that are particular to a protocol.
pub open spec fn kind_labels(kind: crate::request::RequestMetadataKindView) -> Seq<
    (Seq<char>, Seq<char>),
> {
    match kind {
        crate::request::RequestMetadataKindView::Http { headers: _, method, path } => seq![
            ("method"@, method),
            ("path"@, path),
        ],
        crate::request::RequestMetadataKindView::Grpc { metadata: _, method } => seq![
            ("method"@, method),
        ],
    }
}

/// The labels of what the body of a request said.
pub open spec fn extra_labels(extra: Option<ExtraRequestMetadata>) -> Seq<(Seq<char>, Seq<char>)> {
    match extra {
        None => Seq::empty(),
        Some(extra) => {
            let common = seq![
                ("streaming"@, crate::text::bool_word(extra.is_streaming)),
                ("with_generation"@, crate::text::bool_word(extra.generation_model_id is Some)),
                ("with_detection"@, crate::text::bool_word(extra.with_detection)),
            ];
            match extra.generation_model_id {
                Some(id) => common.push(("model_id"@, id@)),
                None => common,
            }
        },
    }
}

/// The texts of the values of the headers that may be shown; `None` if one of them
/// cannot be read.
fn allowed_texts(kind: &RequestMetadataKind) -> (texts: Option<Vec<String>>)
    ensures
        texts is Some <==> all_readable(kind@.allowed_values()),
        texts matches Some(t) ==> t@.map_values(|text: String| text@) == readable_texts(
            kind@.allowed_values(),
        ),
{
    let pairs: Vec<(String, Vec<u8>)> = match kind {
        RequestMetadataKind::Http { headers, .. } => list_headers(headers),
        RequestMetadataKind::Grpc { metadata, .. } => {
            let headers: http::HeaderMap = metadata_to_headers(metadata);
            list_headers(&headers)
        },
    };
    let ghost all = crate::headers::pairs_view(pairs@);
    let ghost name = "traceparent"@;
    proof {
        crate::headers::lemma_values_listed_are_all(all, name);
    }
    let mut texts: Vec<String> = Vec::new();
    let mut i: usize = 0;
    while i < pairs.len()
        invariant
            i <= pairs@.len(),
            all == crate::headers::pairs_view(pairs@),
            name == "traceparent"@,
            crate::headers::values_listed(all, name) == kind@.allowed_values(),
            all_readable(crate::headers::values_listed(all.take(i as int), name)),
            texts@.map_values(|text: String| text@) == readable_texts(
                crate::headers::values_listed(all.take(i as int), name),
            ),
        decreases pairs@.len() - i,
    {
        let pair: &(String, Vec<u8>) = &pairs[i];
        assert(all[i as int] == (pair.0@, pair.1@));
        let ghost before = crate::headers::values_listed(all.take(i as int), name);
        let ghost after = crate::headers::values_listed(all.take(i + 1), name);
        proof {
            crate::headers::lemma_values_listed_step(all, i as int, name);
            crate::headers::lemma_values_listed_prefix(all, i + 1, name);
        }
        if is_allowed_header(pair.0.as_str()) {
            assert(after[before.len() as int] == pair.1@);
            match header_text(&pair.1) {
                Some(text) => {
                    let ghost old_texts = texts@.map_values(|text: String| text@);
                    texts.push(text);
                    assert(texts@.map_values(|text: String| text@) =~= old_texts.push(text@));
                    assert(readable_texts(after) =~= readable_texts(before).push(
                        crate::headers::readable_text(pair.1@),
                    ));
                },
                None => {
                    assert(!crate::headers::is_readable(
                        kind@.allowed_values()[before.len() as int],
                    ));
                    return None;
                },
            }
        }
        i += 1;
    }
    assert(all.take(i as int) =~= all);
    Some(texts)
}

/// A request under way.
#[derive(Debug, PartialEq)]
pub struct RequestInfo {
    pub trace: RequestTrace,
    pub metadata: RequestMetadata,
    pub extra_metadata: Option<ExtraRequestMetadata>,
    pub created_at: tokio::time::Instant,
}

impl Clone for RequestInfo {
    fn clone(&self) -> (copy: RequestInfo)
        ensures
            copy.trace == self.trace,
            copy.metadata.service == self.metadata.service,
            copy.metadata.kind@ == self.metadata.kind@,
            copy.extra_metadata == self.extra_metadata,
            copy.created_at == self.created_at,
    {
        RequestInfo {
            trace: self.trace.clone(),
            metadata: self.metadata.clone(),
            extra_metadata: match &self.extra_metadata {
                Some(extra) => Some(extra.clone()),
                None => None,
            },
            created_at: self.created_at,
        }
    }
}

impl RequestInfo {
    /// The allowed headers of the request can be shown.
    pub open spec fn showable(self) -> bool {
        all_readable(self.metadata.kind@.allowed_values())
    }

    /// The labels of a request that was created at the time with the given text.
    pub open spec fn labels_spec(self, created_at: Seq<char>) -> Seq<(Seq<char>, Seq<char>)> {
        seq![
            ("request_id"@, crate::request::uuid_text(self.trace.request_id)),
            ("trace_id"@, crate::request::trace_id_text(self.trace.trace_id)),
            ("span_id"@, crate::request::span_id_text(self.trace.context.span_id)),
            ("created_at"@, created_at),
            ("service"@, self.metadata.service.name()),
            ("service_kind"@, self.metadata.kind@.name()),
        ] + kind_labels(self.metadata.kind@) + header_labels(self.metadata.kind@.allowed_values())
            + extra_labels(self.extra_metadata)
    }

    /// The request is in another span of the same trace, and otherwise as before.
    pub open spec fn moved_to(self, context: SpanContext, moved: RequestInfo) -> bool {
        &&& moved.trace == (RequestTrace { context, ..self.trace })
        &&& moved.metadata.service == self.metadata.service
        &&& moved.metadata.kind@ == self.metadata.kind@
        &&& moved.created_at == self.created_at
    }

    /// The request in the given span; nothing if that span belongs to another trace.
    pub open spec fn in_span(self, context: SpanContext) -> Option<RequestInfo> {
        if context.trace_id == self.trace.trace_id {
            Some(RequestInfo { trace: RequestTrace { context, ..self.trace }, ..self })
        } else {
            None
        }
    }

    /// `info` is the request in the given span with what its body said, or nothing if that
    /// span belongs to another trace.
    pub open spec fn extends_to(
        self,
        context: SpanContext,
        extra: ExtraRequestMetadata,
        info: Option<RequestInfo>,
    ) -> bool {
        if context.trace_id == self.trace.trace_id {
            info matches Some(i) && self.moved_to(context, i) && i.extra_metadata == Some(extra)
        } else {
            info is None
        }
    }

    /// `labels` are those of the request with the given text for the time of its creation,
    /// or nothing if there is no such text.
    pub open spec fn is_labelled(
        self,
        created_at: Option<Seq<char>>,
        labels: Option<Vec<Label>>,
    ) -> bool {
        match created_at {
            Some(text) => labels matches Some(l) && labels_view(l@) == self.labels_spec(text),
            None => labels is None,
        }
    }

    /// Moves the request to another span of the same trace.
    pub fn with_span_context(self, context: SpanContext) -> (info: RequestInfo)
        requires
            context.trace_id == self.trace.trace_id,
        ensures
            info == (RequestInfo { trace: RequestTrace { context, ..self.trace }, ..self }),
    {
        RequestInfo {
            trace: self.trace.update_context(context),
            metadata: self.metadata,
            extra_metadata: self.extra_metadata,
            created_at: self.created_at,
        }
    }

    /// Moves the request to the given span; `None` if that span belongs to another trace.
    pub fn in_given_span(self, context: SpanContext) -> (info: Option<RequestInfo>)
        ensures
            info == self.in_span(context),
    {
        if context.trace_id == self.trace.trace_id {
            Some(self.with_span_context(context))
        } else {
            None
        }
    }

    /// Moves the request to the span that is current where the call is made; `None` if
    /// that span belongs to another trace.
    pub fn with_current_span_context(self) -> (info: Option<RequestInfo>)
        ensures
            exists|context: SpanContext|
                crate::ambient::may_be_current(context) && info == #[trigger] self.in_span(context),
    {
        let context: SpanContext = current_span_context();
        self.in_given_span(context)
    }

    /// A request that came in at the given reading of the clock, in the given span.
    pub fn incoming_at(
        trace: RequestTrace,
        metadata: RequestMetadata,
        created_at: tokio::time::Instant,
        context: SpanContext,
    ) -> (info: RequestInfo)
        requires
            context.trace_id == trace.trace_id,
        ensures
            info == (RequestInfo {
                trace: RequestTrace { context, ..trace },
                metadata,
                extra_metadata: None,
                created_at,
            }),
    {
        RequestInfo { trace, metadata, extra_metadata: None, created_at }.with_span_context(context)
    }

    /// A request that comes in now, in the current span; `None` if that span belongs to
    /// another trace.
    pub fn incoming(trace: RequestTrace, metadata: RequestMetadata) -> (info: Option<RequestInfo>)
        ensures
            exists|context: SpanContext, created_at: tokio::time::Instant|
                crate::ambient::may_be_current(context) && crate::ambient::may_be_now(created_at)
                    && info == #[trigger] (RequestInfo {
                    trace,
                    metadata,
                    extra_metadata: None,
                    created_at,
                }).in_span(context),
    {
        let created_at: tokio::time::Instant = current_instant();
        RequestInfo {
            trace,
            metadata,
            extra_metadata: None,
            created_at,
        }.with_current_span_context()
    }

    /// The same request in the given span, with what its body said.
    pub fn with_extra(&self, context: SpanContext, extra: ExtraRequestMetadata) -> (info:
        RequestInfo)
        requires
            context.trace_id == self.trace.trace_id,
        ensures
            self.moved_to(context, info),
            info.extra_metadata == Some(extra),
    {
        let info: RequestInfo = self.clone().with_span_context(context);
        RequestInfo {
            trace: info.trace,
            metadata: info.metadata,
            extra_metadata: Some(extra),
            created_at: info.created_at,
        }
    }

    /// The same request in the given span, with what its body said; `None` if that span
    /// belongs to another trace.
    pub fn extended_in(&self, context: SpanContext, extra: ExtraRequestMetadata) -> (info: Option<
        RequestInfo,
    >)
        ensures
            self.extends_to(context, extra, info),
    {
        if context.trace_id == self.trace.trace_id {
            Some(self.with_extra(context, extra))
        } else {
            None
        }
    }

    /// The same request in the current span, with what its body said; `None` if that span
    /// belongs to another trace.
    fn in_current_span(&self, extra: ExtraRequestMetadata) -> (info: Option<RequestInfo>)
        ensures
            exists|context: SpanContext|
                crate::ambient::may_be_current(context) && #[trigger] self.extends_to(
                    context,
                    extra,
                    info,
                ),
    {
        let context: SpanContext = current_span_context();
        self.extended_in(context, extra)
    }

    /// The same request in the current span, answered in one piece; `None` if that span
    /// belongs to another trace.
    pub fn unary(&self, generation_model_id: Option<String>, with_detection: bool) -> (info: Option<
        RequestInfo,
    >)
        ensures
            exists|context: SpanContext|
                crate::ambient::may_be_current(context) && #[trigger] self.extends_to(
                    context,
                    (ExtraRequestMetadata {
                        is_streaming: false,
                        generation_model_id,
                        with_detection,
                    }),
                    info,
                ),
    {
        let extra = ExtraRequestMetadata {
            is_streaming: false,
            generation_model_id,
            with_detection,
        };
        self.in_current_span(extra)
    }

    /// The same request in the current span, answered by a stream; `None` if that span
    /// belongs to another trace.
    pub fn streaming(&self, generation_model_id: Option<String>, with_detection: bool) -> (info:
        Option<RequestInfo>)
        ensures
            exists|context: SpanContext|
                crate::ambient::may_be_current(context) && #[trigger] self.extends_to(
                    context,
                    (ExtraRequestMetadata {
                        is_streaming: true,
                        generation_model_id,
                        with_detection,
                    }),
                    info,
                ),
    {
        let extra = ExtraRequestMetadata {
            is_streaming: true,
            generation_model_id,
            with_detection,
        };
        self.in_current_span(extra)
    }

    /// The request may have been created at the given point in time: what has passed since
    /// then leads up to the current one.
    pub open spec fn may_be_created(self, time: Option<Timestamp>) -> bool {
        exists|now: Timestamp, elapsed: Elapsed|
            crate::ambient::may_be_time(now) && crate::ambient::may_have_passed(
                self.created_at,
                elapsed,
            ) && #[trigger] now.is_preceded_by(elapsed, time)
    }

    /// The time at which the request was created may be shown as the given text.
    pub open spec fn may_be_dated(self, text: Option<Seq<char>>) -> bool {
        exists|time: Option<Timestamp>| #[trigger]
            self.may_be_created(time) && match time {
                Some(t) => crate::ambient::may_be_text(t, text),
                None => text is None,
            }
    }

    /// When the request was created, by the system clock; `None` if that lies too far
    /// back for a point in time.
    pub fn created_at(&self) -> (time: Option<Timestamp>)
        ensures
            time matches Some(t) ==> t.wf(),
            exists|now: Timestamp, elapsed: Elapsed|
                now.wf() && elapsed.wf() && crate::ambient::may_be_time(now)
                    && crate::ambient::may_have_passed(self.created_at, elapsed)
                    && #[trigger] now.is_preceded_by(elapsed, time),
            self.may_be_created(time),
    {
        let elapsed: Elapsed = elapsed_since(&self.created_at);
        let now: Timestamp = current_time();
        now.checked_sub(elapsed)
    }

    /// The text of the time at which the request was created; `None` if the system clock
    /// cannot represent it. The text depends on the clock and the platform.
    pub fn created_at_text(&self) -> (text: Option<String>)
        ensures
            self.may_be_dated(crate::text::opt_text(text)),
    {
        let time: Option<Timestamp> = self.created_at();
        assert(self.may_be_created(time));
        match time {
            Some(time) => time.to_text(),
            None => None,
        }
    }

    /// `true` if the labels of the request can be made: its allowed headers are text.
    pub fn is_showable(&self) -> (showable: bool)
        ensures
            showable == self.showable(),
    {
        allowed_texts(&self.metadata.kind).is_some()
    }

    /// The labels of the request, with the given text for the time of its creation.
    pub fn labels_at(&self, created_at: &str) -> (labels: Vec<Label>)
        requires
            self.showable(),
        ensures
            labels_view(labels@) == self.labels_spec(created_at@),
    {
        let mut labels: Vec<Label> = Vec::new();
        push_label(&mut labels, "request_id", self.trace.request_id_text());
        push_label(&mut labels, "trace_id", self.trace.trace_id_text());
        push_label(&mut labels, "span_id", self.trace.span_id_text());
        push_label(&mut labels, "created_at", created_at.to_owned());
        push_label(&mut labels, "service", self.metadata.service.to_text());
        push_label(&mut labels, "service_kind", self.metadata.kind.to_text());
        match &self.metadata.kind {
            RequestMetadataKind::Http { headers: _, method, path } => {
                push_label(&mut labels, "method", method.clone());
                push_label(&mut labels, "path", path.clone());
            },
            RequestMetadataKind::Grpc { metadata: _, method } => {
                push_label(&mut labels, "method", method.clone());
            },
        }
        let ghost start = labels_view(labels@);
        let ghost values = self.metadata.kind@.allowed_values();
        let texts: Vec<String> = match allowed_texts(&self.metadata.kind) {
            Some(texts) => texts,
            None => Vec::new(),
        };
        let ghost shown = texts@.map_values(|text: String| text@);
        let mut i: usize = 0;
        while i < texts.len()
            invariant
                i <= texts@.len(),
                shown == texts@.map_values(|text: String| text@),
                shown == readable_texts(values),
                labels_view(labels@) == start + header_labels(values).take(i as int),
            decreases texts@.len() - i,
        {
            push_label(&mut labels, "header.traceparent", texts[i].clone());
            proof {
                assert(shown[i as int] == texts@[i as int]@);
                let pushed = header_labels(values).take(i as int).push(
                    ("header.traceparent"@, texts@[i as int]@),
                );
                assert(header_labels(values).take(i + 1) =~= pushed);
                assert(labels_view(labels@) =~= start + pushed);
            }
            i += 1;
        }
        assert(header_labels(values).take(i as int) =~= header_labels(values));
        match &self.extra_metadata {
            Some(extra) => {
                push_label(&mut labels, "streaming", bool_text(extra.is_streaming));
                push_label(
                    &mut labels,
                    "with_generation",
                    bool_text(extra.generation_model_id.is_some()),
                );
                push_label(&mut labels, "with_detection", bool_text(extra.with_detection));
                match &extra.generation_model_id {
                    Some(id) => push_label(&mut labels, "model_id", id.clone()),
                    None => {},
                }
            },
            None => {},
        }
        assert(labels_view(labels@) =~= self.labels_spec(created_at@));
        labels
    }

    /// The labels of the request; `None` if the system clock cannot represent the time
    /// of its creation.
    pub fn to_labels(&self) -> (labels: Option<Vec<Label>>)
        requires
            self.showable(),
        ensures
            exists|created_at: Option<Seq<char>>|
                self.may_be_dated(created_at) && #[trigger] self.is_labelled(created_at, labels),
    {
        match self.created_at_text() {
            Some(created_at) => {
                let labels: Option<Vec<Label>> = Some(self.labels_at(created_at.as_str()));
                assert(self.is_labelled(Some(created_at@), labels));
                labels
            },
            None => {
                let labels: Option<Vec<Label>> = None;
                assert(self.is_labelled(None, labels));
                labels
            },
        }
    }
}

/// Labels show no header but `traceparent`: two requests that differ only in the values
/// of other headers have the same labels.
pub proof fn labels_hide_other_headers(a: RequestInfo, b: RequestInfo, created_at: Seq<char>)
    requires
        a.trace == b.trace,
        a.metadata.service.name() == b.metadata.service.name(),
        a.extra_metadata == b.extra_metadata,
        a.metadata.kind@.name() == b.metadata.kind@.name(),
        kind_labels(a.metadata.kind@) == kind_labels(b.metadata.kind@),
        crate::headers::all_values(a.metadata.kind@.values(), "traceparent"@)
            == crate::headers::all_values(b.metadata.kind@.values(), "traceparent"@),
    ensures
        a.labels_spec(created_at) == b.labels_spec(created_at),
{
}

/// Every request has its six identifying labels first, in this order.
pub proof fn labels_start_with_identity(info: RequestInfo, created_at: Seq<char>)
    ensures
        info.labels_spec(created_at).len() >= 6,
        info.labels_spec(created_at).take(6) == seq![
            ("request_id"@, crate::request::uuid_text(info.trace.request_id)),
            ("trace_id"@, crate::request::trace_id_text(info.trace.trace_id)),
            ("span_id"@, crate::request::span_id_text(info.trace.context.span_id)),
            ("created_at"@, created_at),
            ("service"@, info.metadata.service.name()),
            ("service_kind"@, info.metadata.kind@.name()),
        ],
{
    assert(info.labels_spec(created_at).take(6) =~= seq![
        ("request_id"@, crate::request::uuid_text(info.trace.request_id)),
        ("trace_id"@, crate::request::trace_id_text(info.trace.trace_id)),
        ("span_id"@, crate::request::span_id_text(info.trace.context.span_id)),
        ("created_at"@, created_at),
        ("service"@, info.metadata.service.name()),
        ("service_kind"@, info.metadata.kind@.name()),
    ]);
}

/// The model is named exactly where the label `with_generation` says that there is one.
pub proof fn model_id_label_iff_with_generation(extra: ExtraRequestMetadata)
    ensures
        extra_labels(Some(extra))[1] == ("with_generation"@, "true"@)
            <==> extra_labels(Some(extra)).len() == 4,
        extra_labels(Some(extra)).len() == 4 ==> extra_labels(Some(extra))[3] == (
            "model_id"@,
            extra.generation_model_id->0@,
        ),
        extra_labels(Some(extra)).len() == 3 || extra_labels(Some(extra)).len() == 4,
{
    reveal_strlit("true");
    reveal_strlit("false");
    assert("true"@.len() != "false"@.len());
}

/// In one span of its trace, a request that is answered by a stream and the same request
/// answered in one piece differ in that alone: both are known, with the extras that they
/// were given, and everything else is as before. In a span of another trace, neither is.
pub proof fn streaming_and_unary_differ_only_in_streaming(
    info: RequestInfo,
    context: SpanContext,
    generation_model_id: Option<String>,
    with_detection: bool,
    unary: Option<RequestInfo>,
    streaming: Option<RequestInfo>,
)
    requires
        info.extends_to(
            context,
            (ExtraRequestMetadata { is_streaming: false, generation_model_id, with_detection }),
            unary,
        ),
        info.extends_to(
            context,
            (ExtraRequestMetadata { is_streaming: true, generation_model_id, with_detection }),
            streaming,
        ),
    ensures
        unary is Some <==> context.trace_id == info.trace.trace_id,
        streaming is Some <==> context.trace_id == info.trace.trace_id,
        context.trace_id == info.trace.trace_id ==> {
            let u = unary->0;
            let s = streaming->0;
            &&& s.trace == u.trace
            &&& s.metadata.service == u.metadata.service
            &&& s.metadata.kind@ == u.metadata.kind@
            &&& s.created_at == u.created_at
            &&& u.extra_metadata == Some(
                ExtraRequestMetadata { is_streaming: false, generation_model_id, with_detection },
            )
            &&& s.extra_metadata == Some(
                ExtraRequestMetadata { is_streaming: true, generation_model_id, with_detection },
            )
            &&& s.trace == (RequestTrace { context, ..info.trace })
            &&& s.metadata.service == info.metadata.service
            &&& s.metadata.kind@ == info.metadata.kind@
            &&& s.created_at == info.created_at
        },
{
}

/// The number of labels that come before those of what the body of a request said: six of
/// its identity, two of an HTTP request or one of a gRPC request, and one for each
/// `traceparent`.
pub open spec fn labels_before_extras(kind: crate::request::RequestMetadataKindView) -> int {
    (if kind is Http {
        8int
    } else {
        7int
    }) + crate::headers::all_values(kind.values(), "traceparent"@).len()
}

/// Behind the identity of a request stand its method and, for HTTP, its path; then each
/// `traceparent` in the order in which it came, character by character; then what its body
/// said, if that is known; and nothing else.
pub proof fn labels_have_their_places(info: RequestInfo, created_at: Seq<char>, i: int)
    ensures
        ({
            let labels = info.labels_spec(created_at);
            let kind = info.metadata.kind@;
            let parents = crate::headers::all_values(kind.values(), "traceparent"@);
            let n = labels_before_extras(kind);
            &&& match kind {
                crate::request::RequestMetadataKindView::Http { method, path, .. } => labels[6] == (
                    "method"@,
                    method,
                ) && labels[7] == ("path"@, path),
                crate::request::RequestMetadataKindView::Grpc { method, .. } => labels[6] == (
                    "method"@,
                    method,
                ),
            }
            &&& 0 <= i < parents.len() ==> {
                let label = labels[n - parents.len() + i];
                &&& label.0 == "header.traceparent"@
                &&& label.1.len() == parents[i].len()
                &&& forall|k: int|
                    0 <= k < parents[i].len() ==> #[trigger] label.1[k] == parents[i][k] as char
            }
            &&& match info.extra_metadata {
                None => labels.len() == n,
                Some(extra) => {
                    &&& labels.len() == n + 3 + (if extra.generation_model_id is Some {
                        1int
                    } else {
                        0int
                    })
                    &&& labels[n].0 == "streaming"@
                    &&& labels[n + 1].0 == "with_generation"@
                    &&& labels[n + 2].0 == "with_detection"@
                    &&& extra.generation_model_id matches Some(id) ==> labels[n + 3] == (
                        "model_id"@,
                        id@,
                    )
                },
            }
        }),
{
    let labels = info.labels_spec(created_at);
    let kind = info.metadata.kind@;
    let parents = crate::headers::all_values(kind.values(), "traceparent"@);
    let n = labels_before_extras(kind);
    assert(header_labels(parents).len() == parents.len());
    if 0 <= i < parents.len() {
        assert(labels[n - parents.len() + i] == header_labels(parents)[i]);
    }
    match info.extra_metadata {
        Some(extra) => {
            let extras = extra_labels(Some(extra));
            assert(labels[n] == extras[0]);
            assert(labels[n + 1] == extras[1]);
            assert(labels[n + 2] == extras[2]);
            if extra.generation_model_id is Some {
                assert(labels[n + 3] == extras[3]);
            }
        },
        None => {},
    }
}

/// The labels `streaming`, `with_generation` and `with_detection` each say `true` exactly
/// where the body of the request said so, and `false` otherwise: each of them follows its own
/// part of what was said, whatever the other parts are.
pub proof fn labels_say_what_the_body_said(
    info: RequestInfo,
    extra: ExtraRequestMetadata,
    created_at: Seq<char>,
)
    requires
        info.extra_metadata == Some(extra),
    ensures
        ({
            let labels = info.labels_spec(created_at);
            let n = labels_before_extras(info.metadata.kind@);
            &&& labels[n] == ("streaming"@, "true"@) <==> extra.is_streaming
            &&& labels[n] == ("streaming"@, "false"@) <==> !extra.is_streaming
            &&& labels[n + 1] == ("with_generation"@, "true"@)
                <==> extra.generation_model_id is Some
            &&& labels[n + 1] == ("with_generation"@, "false"@)
                <==> extra.generation_model_id is None
            &&& labels[n + 2] == ("with_detection"@, "true"@) <==> extra.with_detection
            &&& labels[n + 2] == ("with_detection"@, "false"@) <==> !extra.with_detection
        }),
{
    reveal_strlit("true");
    reveal_strlit("false");
    assert("true"@.len() != "false"@.len());
    let labels = info.labels_spec(created_at);
    let n = labels_before_extras(info.metadata.kind@);
    let extras = extra_labels(Some(extra));
    assert(labels[n] == extras[0]);
    assert(labels[n + 1] == extras[1]);
    assert(labels[n + 2] == extras[2]);
}

/// Requests that differ in one thing that their bodies said differ in the label of that
/// thing alone.
pub proof fn each_extra_has_a_label_of_its_own(
    info: RequestInfo,
    extra: ExtraRequestMetadata,
    streaming: bool,
    detection: bool,
    created_at: Seq<char>,
    i: int,
)
    requires
        info.extra_metadata == Some(extra),
        0 <= i < info.labels_spec(created_at).len(),
    ensures
        ({
            let labels = info.labels_spec(created_at);
            let n = labels_before_extras(info.metadata.kind@);
            let other = (RequestInfo {
                extra_metadata: Some(ExtraRequestMetadata { is_streaming: streaming, ..extra }),
                ..info
            }).labels_spec(created_at);
            let detected = (RequestInfo {
                extra_metadata: Some(ExtraRequestMetadata { with_detection: detection, ..extra }),
                ..info
            }).labels_spec(created_at);
            &&& other.len() == labels.len()
            &&& i != n ==> other[i] == labels[i]
            &&& detected.len() == labels.len()
            &&& i != n + 2 ==> detected[i] == labels[i]
        }),
{
    let labels = info.labels_spec(created_at);
    let kind = info.metadata.kind@;
    let n = labels_before_extras(kind);
    let streamed = ExtraRequestMetadata { is_streaming: streaming, ..extra };
    let found = ExtraRequestMetadata { with_detection: detection, ..extra };
    let other = (RequestInfo { extra_metadata: Some(streamed), ..info }).labels_spec(created_at);
    let detected = (RequestInfo { extra_metadata: Some(found), ..info }).labels_spec(created_at);
    let parents = crate::headers::all_values(kind.values(), "traceparent"@);
    assert(header_labels(parents).len() == parents.len());
    assert(extra_labels(Some(streamed)).len() == extra_labels(Some(extra)).len());
    assert(extra_labels(Some(found)).len() == extra_labels(Some(extra)).len());
    if i >= n {
        assert(labels[i] == extra_labels(Some(extra))[i - n]);
        assert(other[i] == extra_labels(Some(streamed))[i - n]);
        assert(detected[i] == extra_labels(Some(found))[i - n]);
    }
}

/// The labels can be made exactly where every byte of every `traceparent` is a character that
/// can be read: visible ASCII or the tab.
pub proof fn labels_need_readable_traceparents(info: RequestInfo)
    ensures
        info.showable() <==> forall|i: int, k: int|
            #![trigger crate::headers::all_values(info.metadata.kind@.values(), "traceparent"@)[i][k]]
            0 <= i < crate::headers::all_values(info.metadata.kind@.values(), "traceparent"@).len()
                && 0 <= k < crate::headers::all_values(
                info.metadata.kind@.values(),
                "traceparent"@,
            )[i].len() ==> {
                let byte = crate::headers::all_values(
                    info.metadata.kind@.values(),
                    "traceparent"@,
                )[i][k];
                byte == 9 || 32 <= byte <= 126
            },
{
    let parents = crate::headers::all_values(info.metadata.kind@.values(), "traceparent"@);
    if info.showable() {
        assert forall|i: int, k: int|
            #![trigger parents[i][k]]
            0 <= i < parents.len() && 0 <= k < parents[i].len() implies parents[i][k] == 9 || 32
            <= parents[i][k] <= 126 by {
            assert(crate::headers::is_readable(parents[i]));
            assert(crate::headers::is_visible(parents[i][k]));
        }
    }
}

/// A request can be moved exactly to the spans of its own trace, and moving it changes its
/// span alone. Moving it on forgets the span in between.
pub proof fn requests_stay_in_their_trace(info: RequestInfo, a: SpanContext, b: SpanContext)
    ensures
        info.in_span(a) is Some <==> a.trace_id == info.trace.trace_id,
        info.in_span(a) matches Some(moved) ==> {
            &&& moved.trace.context == a
            &&& moved.trace.trace_id == info.trace.trace_id
            &&& moved.trace.request_id == info.trace.request_id
            &&& moved.metadata == info.metadata
            &&& moved.extra_metadata == info.extra_metadata
            &&& moved.created_at == info.created_at
            &&& moved.in_span(b) == info.in_span(b)
        },
{
}

/// What is known of a request once its body was read: the new extras in place of any earlier
/// ones, in the given span, and all else as before. There is nothing to know in a span of
/// another trace.
pub proof fn extras_are_replaced(
    info: RequestInfo,
    context: SpanContext,
    extra: ExtraRequestMetadata,
    extended: Option<RequestInfo>,
)
    requires
        info.extends_to(context, extra, extended),
    ensures
        extended is Some <==> context.trace_id == info.trace.trace_id,
        extended matches Some(e) ==> {
            &&& e.extra_metadata == Some(extra)
            &&& e.trace.context == context
            &&& e.trace.trace_id == info.trace.trace_id
            &&& e.trace.request_id == info.trace.request_id
            &&& e.metadata.service == info.metadata.service
            &&& e.metadata.kind@ == info.metadata.kind@
            &&& e.created_at == info.created_at
        },
{
}

/// A request has labels exactly where the time of its creation can be shown, and they are
/// those with that text.
pub proof fn labels_need_a_date(
    info: RequestInfo,
    created_at: Option<Seq<char>>,
    labels: Option<Vec<Label>>,
)
    requires
        info.is_labelled(created_at, labels),
    ensures
        labels is Some <==> created_at is Some,
        labels matches Some(l) ==> labels_view(l@) == info.labels_spec(created_at->0)
            && labels_view(l@)[3] == ("created_at"@, created_at->0),
{
}

/// A request was created as long ago as has passed since then.
pub proof fn creation_precedes_the_present(info: RequestInfo, time: Option<Timestamp>)
    requires
        info.may_be_created(time),
    ensures
        exists|now: Timestamp, elapsed: Elapsed|
            #![trigger crate::ambient::may_be_time(now), crate::ambient::may_have_passed(
                info.created_at,
                elapsed,
            )]
            crate::ambient::may_be_time(now) && crate::ambient::may_have_passed(
                info.created_at,
                elapsed,
            ) && (time matches Some(t) ==> t@ + elapsed@ == now@),
{
    let (now, elapsed) = choose|now: Timestamp, elapsed: Elapsed|
        crate::ambient::may_be_time(now) && crate::ambient::may_have_passed(
            info.created_at,
            elapsed,
        ) && #[trigger] now.is_preceded_by(elapsed, time);
    assert(crate::ambient::may_be_time(now));
    assert(crate::ambient::may_have_passed(info.created_at, elapsed));
}

/// What is seen of labels is their keys and values, in their order.
pub proof fn labels_show_what_they_hold(labels: Seq<Label>, i: int)
    requires
        0 <= i < labels.len(),
    ensures
        labels_view(labels).len() == labels.len(),
        labels_view(labels)[i].0 == labels[i].key@,
        labels_view(labels)[i].1 == labels[i].value@,
{
}

} // verus!

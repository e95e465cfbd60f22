use http::{HeaderMap, HeaderName, HeaderValue};
use orchestrator_client::clock::{Elapsed, Timestamp};
use orchestrator_client::metrics::{
    stream_close_callback, trace_incoming_request_metrics, trace_incoming_stream_request_metrics,
    trace_outgoing_request_metrics, trace_outgoing_stream_request_metrics, Instrument, Metrics,
    Recordings,
};
use orchestrator_client::propagation::MetadataIntoRequest;
use orchestrator_client::request::{
    is_allowed_header, ExtraRequestMetadata, RequestMetadata, RequestMetadataKind, RequestService,
    RequestTrace, SpanContext,
};
use orchestrator_client::request_info::{Label, RequestInfo};
use tonic::metadata::MetadataMap;

const PARENT: &str = "00-0af7651916cd43dd8448eb211c80319c-b7ad6b7169203331-01";

fn headers(pairs: &[(&'static str, &[u8])]) -> HeaderMap {
    let mut map = HeaderMap::new();
    for (name, value) in pairs {
        map.append(
            HeaderName::from_static(name),
            HeaderValue::from_bytes(value).unwrap(),
        );
    }
    map
}

fn metadata(pairs: &[(&'static str, &[u8])]) -> MetadataMap {
    MetadataMap::from_headers(headers(pairs))
}

fn context(trace_id: u128, span_id: u64) -> SpanContext {
    SpanContext {
        trace_id,
        span_id,
        trace_flags: 1,
        is_remote: false,
        trace_state: "".to_string(),
    }
}

fn trace() -> RequestTrace {
    RequestTrace::new(
        0x67e55044_10b1_426f_9247_bb680e5fe0c8,
        context(0x0af7651916cd43dd8448eb211c80319c, 0xb7ad6b7169203331),
    )
}

fn info(kind: RequestMetadataKind, extra: Option<ExtraRequestMetadata>) -> RequestInfo {
    RequestInfo {
        trace: trace(),
        metadata: RequestMetadata::client("nlp".to_string(), kind),
        extra_metadata: extra,
        created_at: tokio::time::Instant::now(),
    }
}

fn pairs(labels: &[Label]) -> Vec<(String, String)> {
    labels.iter().map(|l| (l.key.clone(), l.value.clone())).collect()
}

fn expect(labels: &[(&str, &str)]) -> Vec<(String, String)> {
    labels.iter().map(|(k, v)| (k.to_string(), v.to_string())).collect()
}

const IDENTITY: [(&str, &str); 4] = [
    ("request_id", "67e55044-10b1-426f-9247-bb680e5fe0c8"),
    ("trace_id", "0af7651916cd43dd8448eb211c80319c"),
    ("span_id", "b7ad6b7169203331"),
    ("created_at", "now"),
];

#[test]
fn http_labels_are_in_order() {
    let kind = RequestMetadataKind::http(
        headers(&[
            ("accept", b"*/*"),
            ("traceparent", PARENT.as_bytes()),
            ("traceparent", b"second"),
            ("authorization", b"SECRET-REDACTED"),
        ]),
        "POST".to_string(),
        "/api/v1/task".to_string(),
    );
    let extra = ExtraRequestMetadata {
        is_streaming: true,
        generation_model_id: Some("model".to_string()),
        with_detection: false,
    };
    let info = info(kind, Some(extra));
    assert!(info.is_showable());
    let mut expected = IDENTITY.to_vec();
    expected.extend([
        ("service", "nlp"),
        ("service_kind", "http"),
        ("method", "POST"),
        ("path", "/api/v1/task"),
        ("header.traceparent", PARENT),
        ("header.traceparent", "second"),
        ("streaming", "true"),
        ("with_generation", "true"),
        ("with_detection", "false"),
        ("model_id", "model"),
    ]);
    assert_eq!(pairs(&info.labels_at("now")), expect(&expected));
}

#[test]
fn grpc_labels_have_no_path() {
    let kind = RequestMetadataKind::grpc(
        metadata(&[("traceparent", PARENT.as_bytes()), ("other", b"x")]),
        "Predict".to_string(),
    );
    let extra = ExtraRequestMetadata {
        is_streaming: false,
        generation_model_id: None,
        with_detection: true,
    };
    let mut info = info(kind, Some(extra));
    info.metadata.service = RequestService::Orchestrator;
    let mut expected = IDENTITY.to_vec();
    expected.extend([
        ("service", "orchestrator"),
        ("service_kind", "grpc"),
        ("method", "Predict"),
        ("header.traceparent", PARENT),
        ("streaming", "false"),
        ("with_generation", "false"),
        ("with_detection", "true"),
    ]);
    assert_eq!(pairs(&info.labels_at("now")), expect(&expected));
}

#[test]
fn labels_ignore_other_headers() {
    let kind = |name: &'static str| {
        RequestMetadataKind::http(
            headers(&[("traceparent", b"p"), (name, b"x")]),
            "GET".to_string(),
            "/".to_string(),
        )
    };
    let a = info(kind("accept"), None);
    let b = info(kind("host"), None);
    assert_eq!(pairs(&a.labels_at("t")), pairs(&b.labels_at("t")));
    assert_eq!(a.labels_at("t").len(), 9);
}

#[test]
fn unreadable_headers_cannot_be_shown() {
    let kind = |value: &[u8]| {
        RequestMetadataKind::http(
            headers(&[("traceparent", value)]),
            "GET".to_string(),
            "/".to_string(),
        )
    };
    assert!(!info(kind(&[0xff]), None).is_showable());
    assert!(info(kind(b"\ta b~"), None).is_showable());
    let elsewhere = RequestMetadataKind::http(
        headers(&[("accept", &[0xff])]),
        "GET".to_string(),
        "/".to_string(),
    );
    assert!(info(elsewhere, None).is_showable());
}

#[test]
fn labels_name_the_time_of_creation() {
    let info = info(RequestMetadataKind::default(), None);
    let labels = info.to_labels().unwrap();
    assert_eq!(labels[3].key, "created_at");
    assert!(labels[3].value.contains("SystemTime"));
    assert!(info.created_at_text().unwrap().contains("SystemTime"));
    match info.created_at().unwrap() {
        Timestamp::After(distance) => assert!(distance.secs > 1_700_000_000),
        Timestamp::Before(_) => panic!("the clock is before the epoch"),
    }
}

#[test]
fn only_traceparent_is_allowed() {
    assert!(is_allowed_header("traceparent"));
    assert!(!is_allowed_header("tracestate"));
    assert!(!is_allowed_header("Traceparent"));
    assert!(!is_allowed_header(""));
}

#[test]
fn kinds_are_equal_by_contents() {
    let http = |value: &[u8], path: &str| {
        RequestMetadataKind::http(
            headers(&[("a", value)]),
            "GET".to_string(),
            path.to_string(),
        )
    };
    assert!(http(b"1", "/") == http(b"1", "/"));
    assert!(http(b"1", "/") != http(b"2", "/"));
    assert!(http(b"1", "/") != http(b"1", "/x"));
    let grpc = |value: &[u8], method: &str| {
        RequestMetadataKind::grpc(metadata(&[("a", value)]), method.to_string())
    };
    assert!(grpc(b"1", "m") == grpc(b"1", "m"));
    assert!(grpc(b"1", "m") != grpc(b"2", "m"));
    assert!(grpc(b"1", "m") != grpc(b"1", "n"));
    assert!(grpc(b"1", "GET") != http(b"1", "/"));
    assert!(http(b"1", "/").clone() == http(b"1", "/"));
    assert!(grpc(b"1", "m").clone() == grpc(b"1", "m"));
    let default = RequestMetadataKind::http(HeaderMap::new(), "".to_string(), "".to_string());
    assert!(RequestMetadataKind::default() == default);
    assert_eq!(default.to_text(), "http");
    assert_eq!(grpc(b"1", "m").to_text(), "grpc");
}

#[test]
fn traces_keep_their_id_across_spans() {
    let moved = trace().update_context(context(trace().trace_id, 5));
    assert_eq!(moved.request_id, trace().request_id);
    assert_eq!(moved.trace_id, trace().trace_id);
    assert_eq!(moved.span_id_text(), "0000000000000005");
    let fresh = RequestTrace::default();
    assert_eq!(fresh.trace_id, 0);
    assert_eq!(fresh.context, SpanContext::empty_context());
    let text = fresh.request_id_text();
    assert_eq!(text.len(), 36);
    assert_eq!(&text[14..15], "4");
    assert!(["8", "9", "a", "b"].contains(&&text[19..20]));
    assert_ne!(text, RequestTrace::default().request_id_text());
}

#[test]
fn requests_outside_of_any_span_stay_in_the_empty_trace() {
    let metadata = || RequestMetadata::orchestrator(RequestMetadataKind::default());
    let info = RequestInfo::incoming(RequestTrace::default(), metadata()).unwrap();
    assert_eq!(info.trace.trace_id, 0);
    assert!(info.extra_metadata.is_none());
    let unary = info.unary(Some("m".to_string()), true).unwrap();
    let extra = unary.extra_metadata.clone().unwrap();
    assert!(!extra.is_streaming);
    assert!(extra.with_detection);
    assert_eq!(extra.generation_model_id, Some("m".to_string()));
    assert_eq!(unary.created_at, info.created_at);
    let streaming = info.streaming(None, false).unwrap();
    assert!(streaming.extra_metadata.unwrap().is_streaming);
    let again = info.streaming(Some("m".to_string()), true).unwrap();
    assert_eq!(again.trace.request_id, unary.trace.request_id);
    assert_eq!(again.trace.trace_id, unary.trace.trace_id);
    assert_eq!(again.trace.context, unary.trace.context);
    assert_eq!(again.metadata.service, unary.metadata.service);
    assert_eq!(again.metadata.kind, unary.metadata.kind);
    assert_eq!(again.created_at, unary.created_at);
    let streamed = again.extra_metadata.unwrap();
    assert!(streamed.is_streaming);
    assert_eq!(streamed.generation_model_id, extra.generation_model_id);
    assert_eq!(streamed.with_detection, extra.with_detection);
    // There is no current span, so a request of a trace cannot be moved to it.
    assert!(RequestInfo::incoming(trace(), metadata()).is_none());
    let traced = RequestInfo::incoming_at(
        trace(),
        metadata(),
        tokio::time::Instant::now(),
        context(trace().trace_id, 9),
    );
    assert_eq!(traced.trace.context.span_id, 9);
    assert!(traced.unary(None, false).is_none());
    assert!(traced.clone().with_current_span_context().is_none());
    let moved = traced.with_span_context(context(trace().trace_id, 10));
    assert_eq!(moved.trace.context.span_id, 10);
}

#[test]
fn timestamps_are_subtracted_across_the_epoch() {
    let time = Timestamp::After(Elapsed { secs: 2, nanos: 100 });
    let earlier = time.checked_sub(Elapsed { secs: 0, nanos: 200 }).unwrap();
    assert_eq!(earlier, Timestamp::After(Elapsed { secs: 1, nanos: 999_999_900 }));
    let earlier = time.checked_sub(Elapsed { secs: 3, nanos: 0 }).unwrap();
    assert_eq!(earlier, Timestamp::Before(Elapsed { secs: 0, nanos: 999_999_900 }));
    let time = Timestamp::Before(Elapsed { secs: u64::MAX, nanos: 0 });
    assert!(time.checked_sub(Elapsed { secs: 1, nanos: 0 }).is_none());
    let last = time.checked_sub(Elapsed { secs: 0, nanos: 999_999_999 }).unwrap();
    assert_eq!(last, Timestamp::Before(Elapsed { secs: u64::MAX, nanos: 999_999_999 }));
    let text = Timestamp::After(Elapsed { secs: 1, nanos: 5 }).to_text().unwrap();
    assert_eq!(text, format!("{:?}", std::time::UNIX_EPOCH + std::time::Duration::new(1, 5)));
    let epoch = format!("{:?}", std::time::UNIX_EPOCH);
    let none = Elapsed { secs: 0, nanos: 0 };
    assert_eq!(Timestamp::After(none).to_text(), Some(epoch.clone()));
    assert_eq!(Timestamp::Before(none).to_text(), Some(epoch));
    let text = Timestamp::Before(Elapsed { secs: 1, nanos: 5 }).to_text().unwrap();
    assert_eq!(text, format!("{:?}", std::time::UNIX_EPOCH - std::time::Duration::new(1, 5)));
}

fn sent(kind: RequestMetadataKind, service: &str) -> HeaderMap {
    let message = MetadataIntoRequest::from((
        RequestMetadata::client(service.to_string(), kind),
        "message",
    ));
    assert!(message.is_sendable());
    let (metadata, inner) = message.into_request();
    assert_eq!(inner, "message");
    metadata.into_headers()
}

#[test]
fn metadata_is_passed_on_by_allow_list() {
    let kind = RequestMetadataKind::grpc(
        metadata(&[
            ("traceparent", b"first"),
            ("traceparent", b"second"),
            ("authorization", b"SECRET-REDACTED"),
            ("service", b"other"),
        ]),
        "m".to_string(),
    );
    assert_eq!(sent(kind, "nlp"), headers(&[("service", b"nlp"), ("traceparent", b"first")]));
    let kind = RequestMetadataKind::grpc(
        metadata(&[("traceparent", &[0xff]), ("traceparent", b"second")]),
        "m".to_string(),
    );
    assert_eq!(sent(kind, "nlp"), headers(&[("service", b"nlp")]));
    let kind = RequestMetadataKind::grpc(MetadataMap::new(), "m".to_string());
    assert_eq!(sent(kind, ""), headers(&[("service", b"")]));
}

#[test]
fn unreadable_traceparents_are_reported() {
    let unreadable = |kind| {
        MetadataIntoRequest::from((RequestMetadata::orchestrator(kind), ()))
            .has_unreadable_traceparent()
    };
    let grpc = |pairs: &[(&'static str, &[u8])]| {
        RequestMetadataKind::grpc(metadata(pairs), "m".to_string())
    };
    assert!(unreadable(grpc(&[("traceparent", &[0xff]), ("traceparent", b"second")])));
    assert!(!unreadable(grpc(&[("traceparent", b"first"), ("traceparent", &[0xff])])));
    assert!(!unreadable(grpc(&[("other", &[0xff])])));
    assert!(!unreadable(grpc(&[])));
    let http = RequestMetadataKind::http(
        headers(&[("traceparent", &[0xff])]),
        "POST".to_string(),
        "/".to_string(),
    );
    assert!(!unreadable(http));
}

#[test]
fn requests_move_within_their_trace_only() {
    let info = RequestInfo::incoming_at(
        trace(),
        RequestMetadata::orchestrator(RequestMetadataKind::default()),
        tokio::time::Instant::now(),
        context(trace().trace_id, 9),
    );
    let moved = info.clone().in_given_span(context(trace().trace_id, 10)).unwrap();
    assert_eq!(moved.trace.context, context(trace().trace_id, 10));
    assert_eq!(moved.trace.request_id, info.trace.request_id);
    assert_eq!(moved.created_at, info.created_at);
    assert!(info.clone().in_given_span(context(trace().trace_id + 1, 10)).is_none());
    let extra = |is_streaming| ExtraRequestMetadata {
        is_streaming,
        generation_model_id: Some("m".to_string()),
        with_detection: true,
    };
    let unary = info.extended_in(context(trace().trace_id, 11), extra(false)).unwrap();
    let streaming = unary.extended_in(context(trace().trace_id, 11), extra(true)).unwrap();
    assert_eq!(unary.extra_metadata, Some(extra(false)));
    assert_eq!(streaming.extra_metadata, Some(extra(true)));
    assert_eq!(streaming.trace, unary.trace);
    assert_eq!(streaming.trace.context.span_id, 11);
    assert_eq!(streaming.metadata.service, info.metadata.service);
    assert!(info.extended_in(context(0, 11), extra(true)).is_none());
}

#[test]
fn http_metadata_cannot_be_passed_on() {
    let message = MetadataIntoRequest::from((
        RequestMetadata::orchestrator(RequestMetadataKind::default()),
        (),
    ));
    assert!(!message.is_sendable());
    let kind = || RequestMetadataKind::grpc(MetadataMap::new(), "m".to_string());
    let message =
        MetadataIntoRequest::from((RequestMetadata::client("a\nb".to_string(), kind()), ()));
    assert!(!message.is_sendable());
    let message = MetadataIntoRequest::from((RequestMetadata::orchestrator(kind()), ()));
    assert!(message.is_sendable());
}

fn names(recordings: &Recordings) -> Vec<&'static str> {
    recordings.instruments.iter().map(|i| i.name()).collect()
}

fn plain(is_streaming: Option<bool>) -> RequestInfo {
    let extra = is_streaming.map(|is_streaming| ExtraRequestMetadata {
        is_streaming,
        generation_model_id: None,
        with_detection: false,
    });
    info(RequestMetadataKind::default(), extra)
}

#[test]
fn requests_move_their_instruments() {
    let metrics = Metrics::new();
    let r = metrics.record_service_request(&plain(None), true, "t");
    assert_eq!(names(&r), ["service_request_count", "service_request_duration"]);
    assert_eq!(pairs(&r.labels), pairs(&plain(None).labels_at("t")));
    let r = metrics.record_service_request(&plain(Some(true)), false, "t");
    assert_eq!(
        names(&r),
        ["service_request_count", "service_stream_request_count"]
    );
    let r = metrics.record_service_request(&plain(Some(true)), true, "t");
    assert_eq!(names(&r), ["service_request_count", "service_stream_request_count"]);
    let r = metrics.record_service_request(&plain(Some(false)), false, "t");
    assert_eq!(
        names(&r),
        ["service_request_count", "service_request_duration", "service_request_error_count"]
    );
    let r = metrics.record_outgoing_request(&plain(Some(false)), false, "t");
    assert_eq!(
        names(&r),
        ["client_request_count", "client_request_duration", "client_request_error_count"]
    );
    let r = metrics.record_outgoing_request(&plain(Some(true)), true, "t");
    assert_eq!(names(&r), ["client_request_count", "client_stream_request_count"]);
    let r = metrics.record_outgoing_request(&plain(Some(true)), false, "t");
    assert_eq!(names(&r), ["client_request_count", "client_stream_request_count"]);
}

#[test]
fn stream_events_are_labelled_first() {
    let metrics = Metrics::new();
    let r = metrics.record_stream_event(&plain(None), "token", "t");
    assert_eq!(names(&r), ["service_stream_request_event_count"]);
    assert_eq!(pairs(&r.labels)[0], ("event".to_string(), "token".to_string()));
    assert_eq!(pairs(&r.labels)[1..], pairs(&plain(None).labels_at("t"))[..]);
    let r = metrics.record_stream_error("text", &plain(None), "kind", "t");
    assert_eq!(names(&r), ["service_stream_request_error_event_count"]);
    assert_eq!(pairs(&r.labels)[0], ("error".to_string(), "kind".to_string()));
    assert_eq!(pairs(&r.labels)[1], ("message".to_string(), "text".to_string()));
    assert_eq!(pairs(&r.labels)[2..], pairs(&plain(None).labels_at("t"))[..]);
    let r = metrics.record_stream_duration(&plain(None), "t");
    assert_eq!(names(&r), ["service_stream_request_duration"]);
}

#[test]
fn outcomes_decide_what_is_recorded() {
    let metrics = Metrics::new();
    let some = Some(&metrics);
    let good: Result<u8, u8> = Ok(1);
    let bad: Result<u8, u8> = Err(1);
    let info = plain(None);
    assert!(trace_incoming_request_metrics(&info, None, &good, "t").is_none());
    let r = trace_incoming_request_metrics(&info, some, &good, "t").unwrap();
    assert_eq!(r.instruments.len(), 2);
    let r = trace_incoming_request_metrics(&info, some, &bad, "t").unwrap();
    assert_eq!(r.instruments[2], Instrument::ServiceRequestErrorCount);
    let r = trace_incoming_stream_request_metrics(&plain(Some(true)), some, "t").unwrap();
    assert_eq!(
        r.instruments,
        [Instrument::ServiceRequestCount, Instrument::ServiceStreamRequestCount]
    );
    let r = trace_outgoing_request_metrics(&info, some, &bad, "t").unwrap();
    assert_eq!(r.instruments[2], Instrument::ClientRequestErrorCount);
    assert!(trace_outgoing_stream_request_metrics(&info, some, &bad, "t").is_none());
    let r = trace_outgoing_stream_request_metrics(&info, some, &good, "t").unwrap();
    assert_eq!(r.instruments.len(), 2);
    assert!(stream_close_callback(&info, None, "t").is_none());
    let r = stream_close_callback(&info, some, "t").unwrap();
    assert_eq!(r.instruments, [Instrument::ServiceStreamRequestDuration]);
}

#[test]
fn all_instruments_are_registered_once() {
    let all = Metrics::new().instruments();
    assert_eq!(all.len(), 14);
    let mut names: Vec<&str> = all.iter().map(|i| i.name()).collect();
    names.sort();
    names.dedup();
    assert_eq!(names.len(), 14);
    for instrument in all {
        assert_eq!(instrument.is_histogram(), instrument.name().ends_with("duration"));
    }
}

//! Which instruments a request moves, and with which labels.

use crate::request_info::{Label, RequestInfo};
use vstd::prelude::*;

verus! {

/// The instruments that requests are measured with. Counters count by one; histograms
/// record the duration of the request in seconds.
#[derive(Debug, Clone, Copy, PartialEq, Eq, Structural)]
pub enum Instrument {
    /// Orchestrator service requests received.
    ServiceRequestCount,
    /// Durations of orchestrator service requests that are not answered by a stream.
    ServiceRequestDuration,
    /// Orchestrator service requests that are not answered by a stream and were not
    /// successful.
    ServiceRequestErrorCount,
    /// Orchestrator service requests that are answered by a stream.
    ServiceStreamRequestCount,
    /// Durations of orchestrator service streams.
    ServiceStreamRequestDuration,
    /// Events in orchestrator service streams.
    ServiceStreamRequestEventCount,
    /// Events in orchestrator service streams that are errors.
    ServiceStreamRequestErrorEventCount,
    /// Outgoing client requests.
    ClientRequestCount,
    /// Durations of outgoing client requests that are not answered by a stream.
    ClientRequestDuration,
    /// Outgoing client requests that are not answered by a stream and were not successful.
    ClientRequestErrorCount,
    /// Outgoing client requests that are answered by a stream.
    ClientStreamRequestCount,
    /// Durations of outgoing client streams.
    ClientStreamRequestDuration,
    /// Events in outgoing client streams.
    ClientStreamRequestEventCount,
    /// Events in outgoing client streams that are errors.
    ClientStreamRequestErrorEventCount,
}

/// The name that an instrument is registered under.
pub open spec fn instrument_name(instrument: Instrument) -> Seq<char> {
    match instrument {
        Instrument::ServiceRequestCount => "service_request_count"@,
        Instrument::ServiceRequestDuration => "service_request_duration"@,
        Instrument::ServiceRequestErrorCount => "service_request_error_count"@,
        Instrument::ServiceStreamRequestCount => "service_stream_request_count"@,
        Instrument::ServiceStreamRequestDuration => "service_stream_request_duration"@,
        Instrument::ServiceStreamRequestEventCount => "service_stream_request_event_count"@,
        Instrument::ServiceStreamRequestErrorEventCount =>
            "service_stream_request_error_event_count"@,
        Instrument::ClientRequestCount => "client_request_count"@,
        Instrument::ClientRequestDuration => "client_request_duration"@,
        Instrument::ClientRequestErrorCount => "client_request_error_count"@,
        Instrument::ClientStreamRequestCount => "client_stream_request_count"@,
        Instrument::ClientStreamRequestDuration => "client_stream_request_duration"@,
        Instrument::ClientStreamRequestEventCount => "client_stream_request_event_count"@,
        Instrument::ClientStreamRequestErrorEventCount =>
            "client_stream_request_error_event_count"@,
    }
}

/// The instruments that record durations.
pub open spec fn is_histogram(instrument: Instrument) -> bool {
    ||| instrument is ServiceRequestDuration
    ||| instrument is ServiceStreamRequestDuration
    ||| instrument is ClientRequestDuration
    ||| instrument is ClientStreamRequestDuration
}

impl Instrument {
    /// The name that the instrument is registered under.
    pub fn name(&self) -> (name: &'static str)
        ensures
            name@ == instrument_name(*self),
    {
        match self {
            Instrument::ServiceRequestCount => "service_request_count",
            Instrument::ServiceRequestDuration => "service_request_duration",
            Instrument::ServiceRequestErrorCount => "service_request_error_count",
            Instrument::ServiceStreamRequestCount => "service_stream_request_count",
            Instrument::ServiceStreamRequestDuration => "service_stream_request_duration",
            Instrument::ServiceStreamRequestEventCount => "service_stream_request_event_count",
            Instrument::ServiceStreamRequestErrorEventCount => {
                "service_stream_request_error_event_count"
            },
            Instrument::ClientRequestCount => "client_request_count",
            Instrument::ClientRequestDuration => "client_request_duration",
            Instrument::ClientRequestErrorCount => "client_request_error_count",
            Instrument::ClientStreamRequestCount => "client_stream_request_count",
            Instrument::ClientStreamRequestDuration => "client_stream_request_duration",
            Instrument::ClientStreamRequestEventCount => "client_stream_request_event_count",
            Instrument::ClientStreamRequestErrorEventCount => {
                "client_stream_request_error_event_count"
            },
        }
    }

    /// `true` for the instruments that record durations, `false` for the counters.
    pub fn is_histogram(&self) -> (histogram: bool)
        ensures
            histogram == is_histogram(*self),
    {
        match self {
            Instrument::ServiceRequestDuration => true,
            Instrument::ServiceStreamRequestDuration => true,
            Instrument::ClientRequestDuration => true,
            Instrument::ClientStreamRequestDuration => true,
            _ => false,
        }
    }
}

/// Instruments that move together, with the labels that each of them gets.
#[derive(Debug)]
pub struct Recordings {
    pub instruments: Vec<Instrument>,
    pub labels: Vec<Label>,
}

impl View for Recordings {
    type V = (Seq<Instrument>, Seq<(Seq<char>, Seq<char>)>);

    /// The instruments and the labels.
    open spec fn view(&self) -> (Seq<Instrument>, Seq<(Seq<char>, Seq<char>)>) {
        (self.instruments@, crate::request_info::labels_view(self.labels@))
    }
}

/// `true` if the request is known to be answered by a stream.
pub open spec fn is_streaming(info: RequestInfo) -> bool {
    info.extra_metadata matches Some(extra) && extra.is_streaming
}

fn streams(info: &RequestInfo) -> (streaming: bool)
    ensures
        streaming == is_streaming(*info),
{
    match &info.extra_metadata {
        Some(extra) => extra.is_streaming,
        None => false,
    }
}

/// The instruments that a request moves. Every request is counted. One that is answered by
/// a stream is counted as such too; any other is timed, and counted as an error unless it
/// was successful.
pub open spec fn request_instruments(
    count: Instrument,
    duration: Instrument,
    errors: Instrument,
    streams: Instrument,
    success: bool,
    streaming: bool,
) -> Seq<Instrument> {
    if streaming {
        seq![count, streams]
    } else if success {
        seq![count, duration]
    } else {
        seq![count, duration, errors]
    }
}

/// The instruments that a request to the orchestrator moves.
pub open spec fn service_instruments(success: bool, streaming: bool) -> Seq<Instrument> {
    request_instruments(
        Instrument::ServiceRequestCount,
        Instrument::ServiceRequestDuration,
        Instrument::ServiceRequestErrorCount,
        Instrument::ServiceStreamRequestCount,
        success,
        streaming,
    )
}

/// The instruments that a request to a client service moves.
pub open spec fn client_instruments(success: bool, streaming: bool) -> Seq<Instrument> {
    request_instruments(
        Instrument::ClientRequestCount,
        Instrument::ClientRequestDuration,
        Instrument::ClientRequestErrorCount,
        Instrument::ClientStreamRequestCount,
        success,
        streaming,
    )
}

fn moved_instruments(
    count: Instrument,
    duration: Instrument,
    errors: Instrument,
    streams: Instrument,
    success: bool,
    streaming: bool,
) -> (instruments: Vec<Instrument>)
    ensures
        instruments@ == request_instruments(count, duration, errors, streams, success, streaming),
{
    let mut instruments: Vec<Instrument> = Vec::new();
    instruments.push(count);
    if streaming {
        instruments.push(streams);
    } else {
        instruments.push(duration);
        if !success {
            instruments.push(errors);
        }
    }
    assert(instruments@ =~= request_instruments(
        count,
        duration,
        errors,
        streams,
        success,
        streaming,
    ));
    instruments
}

fn single(instrument: Instrument) -> (instruments: Vec<Instrument>)
    ensures
        instruments@ == seq![instrument],
{
    let mut instruments: Vec<Instrument> = Vec::new();
    instruments.push(instrument);
    assert(instruments@ =~= seq![instrument]);
    instruments
}

/// Puts labels in front of others.
fn prepend(mut first: Vec<Label>, mut rest: Vec<Label>) -> (labels: Vec<Label>)
    ensures
        crate::request_info::labels_view(labels@) == crate::request_info::labels_view(first@)
            + crate::request_info::labels_view(rest@),
{
    let ghost sum = crate::request_info::labels_view(first@) + crate::request_info::labels_view(
        rest@,
    );
    first.append(&mut rest);
    assert(crate::request_info::labels_view(first@) =~= sum);
    first
}

/// The instruments of the orchestrator.
#[derive(Debug, Clone, Copy)]
pub struct Metrics {}

/// All instruments, in the order in which they are registered.
pub open spec fn all_instruments() -> Seq<Instrument> {
    seq![
        Instrument::ServiceRequestCount,
        Instrument::ServiceRequestDuration,
        Instrument::ServiceRequestErrorCount,
        Instrument::ServiceStreamRequestCount,
        Instrument::ServiceStreamRequestDuration,
        Instrument::ServiceStreamRequestEventCount,
        Instrument::ServiceStreamRequestErrorEventCount,
        Instrument::ClientRequestCount,
        Instrument::ClientRequestDuration,
        Instrument::ClientRequestErrorCount,
        Instrument::ClientStreamRequestCount,
        Instrument::ClientStreamRequestDuration,
        Instrument::ClientStreamRequestEventCount,
        Instrument::ClientStreamRequestErrorEventCount,
    ]
}

impl Metrics {
    /// The instruments of the orchestrator.
    pub fn new() -> (metrics: Metrics)
        ensures
            metrics == (Metrics {}),
    {
        Metrics {}
    }

    /// All instruments, in the order in which they are registered.
    pub fn instruments(&self) -> (instruments: Vec<Instrument>)
        ensures
            instruments@ == all_instruments(),
    {
        let mut instruments: Vec<Instrument> = Vec::new();
        instruments.push(Instrument::ServiceRequestCount);
        instruments.push(Instrument::ServiceRequestDuration);
        instruments.push(Instrument::ServiceRequestErrorCount);
        instruments.push(Instrument::ServiceStreamRequestCount);
        instruments.push(Instrument::ServiceStreamRequestDuration);
        instruments.push(Instrument::ServiceStreamRequestEventCount);
        instruments.push(Instrument::ServiceStreamRequestErrorEventCount);
        instruments.push(Instrument::ClientRequestCount);
        instruments.push(Instrument::ClientRequestDuration);
        instruments.push(Instrument::ClientRequestErrorCount);
        instruments.push(Instrument::ClientStreamRequestCount);
        instruments.push(Instrument::ClientStreamRequestDuration);
        instruments.push(Instrument::ClientStreamRequestEventCount);
        instruments.push(Instrument::ClientStreamRequestErrorEventCount);
        assert(instruments@ =~= all_instruments());
        instruments
    }

    /// Records a request to the orchestrator.
    pub fn record_service_request(
        &self,
        info: &RequestInfo,
        success: bool,
        created_at: &str,
    ) -> (recordings: Recordings)
        requires
            info.showable(),
        ensures
            recordings@ == (
                service_instruments(success, is_streaming(*info)),
                info.labels_spec(created_at@),
            ),
    {
        let instruments: Vec<Instrument> = moved_instruments(
            Instrument::ServiceRequestCount,
            Instrument::ServiceRequestDuration,
            Instrument::ServiceRequestErrorCount,
            Instrument::ServiceStreamRequestCount,
            success,
            streams(info),
        );
        Recordings { instruments, labels: info.labels_at(created_at) }
    }

    /// Records a request to a client service.
    pub fn record_outgoing_request(
        &self,
        info: &RequestInfo,
        success: bool,
        created_at: &str,
    ) -> (recordings: Recordings)
        requires
            info.showable(),
        ensures
            recordings@ == (
                client_instruments(success, is_streaming(*info)),
                info.labels_spec(created_at@),
            ),
    {
        let instruments: Vec<Instrument> = moved_instruments(
            Instrument::ClientRequestCount,
            Instrument::ClientRequestDuration,
            Instrument::ClientRequestErrorCount,
            Instrument::ClientStreamRequestCount,
            success,
            streams(info),
        );
        Recordings { instruments, labels: info.labels_at(created_at) }
    }

    /// Records an event in the stream that answers a request.
    pub fn record_stream_event(
        &self,
        info: &RequestInfo,
        event: &str,
        created_at: &str,
    ) -> (recordings: Recordings)
        requires
            info.showable(),
        ensures
            recordings@ == (
                seq![Instrument::ServiceStreamRequestEventCount],
                seq![("event"@, event@)] + info.labels_spec(created_at@),
            ),
    {
        let mut first: Vec<Label> = Vec::new();
        first.push(Label::new("event", event.to_owned()));
        assert(crate::request_info::labels_view(first@) =~= seq![("event"@, event@)]);
        Recordings {
            instruments: single(Instrument::ServiceStreamRequestEventCount),
            labels: prepend(first, info.labels_at(created_at)),
        }
    }

    /// Records an error in the stream that answers a request.
    pub fn record_stream_error(
        &self,
        message: &str,
        info: &RequestInfo,
        error: &str,
        created_at: &str,
    ) -> (recordings: Recordings)
        requires
            info.showable(),
        ensures
            recordings@ == (
                seq![Instrument::ServiceStreamRequestErrorEventCount],
                seq![("error"@, error@), ("message"@, message@)] + info.labels_spec(created_at@),
            ),
    {
        let mut first: Vec<Label> = Vec::new();
        first.push(Label::new("error", error.to_owned()));
        first.push(Label::new("message", message.to_owned()));
        assert(crate::request_info::labels_view(first@) =~= seq![
            ("error"@, error@),
            ("message"@, message@),
        ]);
        Recordings {
            instruments: single(Instrument::ServiceStreamRequestErrorEventCount),
            labels: prepend(first, info.labels_at(created_at)),
        }
    }

    /// Records how long the stream that answers a request has lasted.
    pub fn record_stream_duration(&self, info: &RequestInfo, created_at: &str) -> (recordings:
        Recordings)
        requires
            info.showable(),
        ensures
            recordings@ == (
                seq![Instrument::ServiceStreamRequestDuration],
                info.labels_spec(created_at@),
            ),
    {
        Recordings {
            instruments: single(Instrument::ServiceStreamRequestDuration),
            labels: info.labels_at(created_at),
        }
    }
}

/// What is recorded of a request to the orchestrator once it was handled: nothing
/// without metrics, and otherwise a success exactly where there is a result.
pub fn trace_incoming_request_metrics<R, E>(
    info: &RequestInfo,
    metrics: Option<&Metrics>,
    result: &Result<R, E>,
    created_at: &str,
) -> (recordings: Option<Recordings>)
    requires
        metrics is Some ==> info.showable(),
    ensures
        recordings is Some <==> metrics is Some,
        recordings matches Some(r) ==> r@ == (
            service_instruments(result is Ok, is_streaming(*info)),
            info.labels_spec(created_at@),
        ),
{
    match metrics {
        Some(metrics) => Some(metrics.record_service_request(info, result.is_ok(), created_at)),
        None => None,
    }
}

/// What is recorded of a request to the orchestrator once its stream was opened. Opening
/// a stream cannot fail.
pub fn trace_incoming_stream_request_metrics(
    info: &RequestInfo,
    metrics: Option<&Metrics>,
    created_at: &str,
) -> (recordings: Option<Recordings>)
    requires
        metrics is Some ==> info.showable(),
    ensures
        recordings is Some <==> metrics is Some,
        recordings matches Some(r) ==> r@ == (
            service_instruments(true, is_streaming(*info)),
            info.labels_spec(created_at@),
        ),
{
    match metrics {
        Some(metrics) => Some(metrics.record_service_request(info, true, created_at)),
        None => None,
    }
}

/// What is recorded of a request to a client service once it was answered.
pub fn trace_outgoing_request_metrics<T, E>(
    info: &RequestInfo,
    metrics: Option<&Metrics>,
    result: &Result<T, E>,
    created_at: &str,
) -> (recordings: Option<Recordings>)
    requires
        metrics is Some ==> info.showable(),
    ensures
        recordings is Some <==> metrics is Some,
        recordings matches Some(r) ==> r@ == (
            client_instruments(result is Ok, is_streaming(*info)),
            info.labels_spec(created_at@),
        ),
{
    match metrics {
        Some(metrics) => Some(metrics.record_outgoing_request(info, result.is_ok(), created_at)),
        None => None,
    }
}

/// What is recorded of a request to a client service once its stream was opened. If it
/// could not be opened, nothing is recorded at all.
pub fn trace_outgoing_stream_request_metrics<T, E>(
    info: &RequestInfo,
    metrics: Option<&Metrics>,
    result: &Result<T, E>,
    created_at: &str,
) -> (recordings: Option<Recordings>)
    requires
        metrics is Some ==> info.showable(),
    ensures
        recordings is Some <==> metrics is Some && result is Ok,
        recordings matches Some(r) ==> r@ == (
            client_instruments(true, is_streaming(*info)),
            info.labels_spec(created_at@),
        ),
{
    match metrics {
        Some(metrics) if result.is_ok() => {
            Some(metrics.record_outgoing_request(info, true, created_at))
        },
        _ => None,
    }
}

/// What is recorded when the stream that answers a request was closed.
pub fn stream_close_callback(
    info: &RequestInfo,
    metrics: Option<&Metrics>,
    created_at: &str,
) -> (recordings: Option<Recordings>)
    requires
        metrics is Some ==> info.showable(),
    ensures
        recordings is Some <==> metrics is Some,
        recordings matches Some(r) ==> r@ == (
            seq![Instrument::ServiceStreamRequestDuration],
            info.labels_spec(created_at@),
        ),
{
    match metrics {
        Some(metrics) => Some(metrics.record_stream_duration(info, created_at)),
        None => None,
    }
}

/// A request is counted once, whatever its outcome. The stream count moves exactly where
/// it is answered by a stream, the duration exactly where it is not, and the error count
/// exactly where it is not and failed.
pub proof fn requests_are_counted_once(success: bool, streaming: bool)
    ensures
        ({
            let moved = service_instruments(success, streaming);
            &&& moved.no_duplicates()
            &&& moved.contains(Instrument::ServiceRequestCount)
            &&& moved.contains(Instrument::ServiceStreamRequestCount) <==> streaming
            &&& moved.contains(Instrument::ServiceRequestDuration) <==> !streaming
            &&& moved.contains(Instrument::ServiceRequestErrorCount) <==> !streaming && !success
        }),
        ({
            let moved = client_instruments(success, streaming);
            &&& moved.no_duplicates()
            &&& moved.contains(Instrument::ClientRequestCount)
            &&& moved.contains(Instrument::ClientStreamRequestCount) <==> streaming
            &&& moved.contains(Instrument::ClientRequestDuration) <==> !streaming
            &&& moved.contains(Instrument::ClientRequestErrorCount) <==> !streaming && !success
        }),
{
    let service = service_instruments(success, streaming);
    assert(service[0] == Instrument::ServiceRequestCount);
    if streaming {
        assert(service[1] == Instrument::ServiceStreamRequestCount);
    } else {
        assert(service[1] == Instrument::ServiceRequestDuration);
        if !success {
            assert(service[2] == Instrument::ServiceRequestErrorCount);
        }
    }
    let client = client_instruments(success, streaming);
    assert(client[0] == Instrument::ClientRequestCount);
    if streaming {
        assert(client[1] == Instrument::ClientStreamRequestCount);
    } else {
        assert(client[1] == Instrument::ClientRequestDuration);
        if !success {
            assert(client[2] == Instrument::ClientRequestErrorCount);
        }
    }
}

/// The outcome of a request that is answered by a stream moves no instrument.
pub proof fn streams_are_not_counted_by_outcome(a: bool, b: bool)
    ensures
        service_instruments(a, true) == service_instruments(b, true),
        client_instruments(a, true) == client_instruments(b, true),
{
}

/// Requests to the orchestrator and requests to client services never move the same
/// instrument.
pub proof fn service_and_client_instruments_are_disjoint(
    success: bool,
    streaming: bool,
    client_success: bool,
    client_streaming: bool,
    instrument: Instrument,
)
    ensures
        !(service_instruments(success, streaming).contains(instrument) && client_instruments(
            client_success,
            client_streaming,
        ).contains(instrument)),
{
}

/// No two instruments share a name.
pub proof fn instrument_names_are_distinct(a: Instrument, b: Instrument)
    requires
        a != b,
    ensures
        instrument_name(a) != instrument_name(b),
{
    reveal_strlit("service_request_count");
    reveal_strlit("service_request_duration");
    reveal_strlit("service_request_error_count");
    reveal_strlit("service_stream_request_count");
    reveal_strlit("service_stream_request_duration");
    reveal_strlit("service_stream_request_event_count");
    reveal_strlit("service_stream_request_error_event_count");
    reveal_strlit("client_request_count");
    reveal_strlit("client_request_duration");
    reveal_strlit("client_request_error_count");
    reveal_strlit("client_stream_request_count");
    reveal_strlit("client_stream_request_duration");
    reveal_strlit("client_stream_request_event_count");
    reveal_strlit("client_stream_request_error_event_count");
    assert(instrument_name(a).len() != instrument_name(b).len() || instrument_name(a)[0]
        != instrument_name(b)[0]);
}

/// Every instrument is registered, and none twice.
pub proof fn every_instrument_is_registered(instrument: Instrument)
    ensures
        all_instruments().contains(instrument),
        all_instruments().no_duplicates(),
{
    let all = all_instruments();
    assert(all[0] == Instrument::ServiceRequestCount);
    assert(all[1] == Instrument::ServiceRequestDuration);
    assert(all[2] == Instrument::ServiceRequestErrorCount);
    assert(all[3] == Instrument::ServiceStreamRequestCount);
    assert(all[4] == Instrument::ServiceStreamRequestDuration);
    assert(all[5] == Instrument::ServiceStreamRequestEventCount);
    assert(all[6] == Instrument::ServiceStreamRequestErrorEventCount);
    assert(all[7] == Instrument::ClientRequestCount);
    assert(all[8] == Instrument::ClientRequestDuration);
    assert(all[9] == Instrument::ClientRequestErrorCount);
    assert(all[10] == Instrument::ClientStreamRequestCount);
    assert(all[11] == Instrument::ClientStreamRequestDuration);
    assert(all[12] == Instrument::ClientStreamRequestEventCount);
    assert(all[13] == Instrument::ClientStreamRequestErrorEventCount);
}

/// A request moves its count first, and two or three instruments in all: none but those of
/// its own side.
pub proof fn requests_move_few_instruments(success: bool, streaming: bool)
    ensures
        service_instruments(success, streaming)[0] is ServiceRequestCount,
        client_instruments(success, streaming)[0] is ClientRequestCount,
        service_instruments(success, streaming).len() == (if !streaming && !success {
            3nat
        } else {
            2nat
        }),
        client_instruments(success, streaming).len() == service_instruments(
            success,
            streaming,
        ).len(),
{
}

/// Requests to the orchestrator and to client services are measured alike: the one moves an
/// instrument where the other moves its counterpart, whose name differs in the side alone.
pub proof fn both_sides_are_measured_alike(success: bool, streaming: bool, i: int)
    requires
        0 <= i < service_instruments(success, streaming).len(),
    ensures
        i < client_instruments(success, streaming).len(),
        ({
            let service = instrument_name(service_instruments(success, streaming)[i]);
            let client = instrument_name(client_instruments(success, streaming)[i]);
            &&& "service_"@.is_prefix_of(service)
            &&& "client_"@.is_prefix_of(client)
            &&& service.skip(8) == client.skip(7)
        }),
{
    lemma_names_differ_in_the_side();
}

/// The name of an instrument of client services is that of its counterpart for the
/// orchestrator, with the other side in front.
proof fn lemma_names_differ_in_the_side()
    ensures
        is_counterpart(Instrument::ServiceRequestCount, Instrument::ClientRequestCount),
        is_counterpart(Instrument::ServiceRequestDuration, Instrument::ClientRequestDuration),
        is_counterpart(Instrument::ServiceRequestErrorCount, Instrument::ClientRequestErrorCount),
        is_counterpart(Instrument::ServiceStreamRequestCount, Instrument::ClientStreamRequestCount),
        is_counterpart(
            Instrument::ServiceStreamRequestDuration,
            Instrument::ClientStreamRequestDuration,
        ),
        is_counterpart(
            Instrument::ServiceStreamRequestEventCount,
            Instrument::ClientStreamRequestEventCount,
        ),
        is_counterpart(
            Instrument::ServiceStreamRequestErrorEventCount,
            Instrument::ClientStreamRequestErrorEventCount,
        ),
{
    reveal_strlit("service_");
    reveal_strlit("client_");
    reveal_strlit("service_request_count");
    reveal_strlit("client_request_count");
    reveal_strlit("service_request_duration");
    reveal_strlit("client_request_duration");
    reveal_strlit("service_request_error_count");
    reveal_strlit("client_request_error_count");
    reveal_strlit("service_stream_request_count");
    reveal_strlit("client_stream_request_count");
    reveal_strlit("service_stream_request_duration");
    reveal_strlit("client_stream_request_duration");
    reveal_strlit("service_stream_request_event_count");
    reveal_strlit("client_stream_request_event_count");
    reveal_strlit("service_stream_request_error_event_count");
    reveal_strlit("client_stream_request_error_event_count");
    assert("service_"@ =~= "service_request_count"@.take(8));
    assert("client_"@ =~= "client_request_count"@.take(7));
    assert("service_request_count"@.skip(8) =~= "client_request_count"@.skip(7));
    assert("service_"@ =~= "service_request_duration"@.take(8));
    assert("client_"@ =~= "client_request_duration"@.take(7));
    assert("service_request_duration"@.skip(8) =~= "client_request_duration"@.skip(7));
    assert("service_"@ =~= "service_request_error_count"@.take(8));
    assert("client_"@ =~= "client_request_error_count"@.take(7));
    assert("service_request_error_count"@.skip(8) =~= "client_request_error_count"@.skip(7));
    assert("service_"@ =~= "service_stream_request_count"@.take(8));
    assert("client_"@ =~= "client_stream_request_count"@.take(7));
    assert("service_stream_request_count"@.skip(8) =~= "client_stream_request_count"@.skip(7));
    assert("service_"@ =~= "service_stream_request_duration"@.take(8));
    assert("client_"@ =~= "client_stream_request_duration"@.take(7));
    assert("service_stream_request_duration"@.skip(8)
        =~= "client_stream_request_duration"@.skip(7));
    assert("service_"@ =~= "service_stream_request_event_count"@.take(8));
    assert("client_"@ =~= "client_stream_request_event_count"@.take(7));
    assert("service_stream_request_event_count"@.skip(8)
        =~= "client_stream_request_event_count"@.skip(7));
    assert("service_"@ =~= "service_stream_request_error_event_count"@.take(8));
    assert("client_"@ =~= "client_stream_request_error_event_count"@.take(7));
    assert("service_stream_request_error_event_count"@.skip(8)
        =~= "client_stream_request_error_event_count"@.skip(7));
}

/// The two instruments have the same name but for the side in front.
pub open spec fn is_counterpart(service: Instrument, client: Instrument) -> bool {
    &&& "service_"@.is_prefix_of(instrument_name(service))
    &&& "client_"@.is_prefix_of(instrument_name(client))
    &&& instrument_name(service).skip(8) == instrument_name(client).skip(7)
}

/// Every instrument has its counterpart on the other side.
pub proof fn instruments_come_in_pairs(instrument: Instrument) -> (other: Instrument)
    ensures
        is_counterpart(instrument, other) || is_counterpart(other, instrument),
        is_histogram(instrument) == is_histogram(other),
{
    lemma_names_differ_in_the_side();
    match instrument {
        Instrument::ServiceRequestCount => Instrument::ClientRequestCount,
        Instrument::ServiceRequestDuration => Instrument::ClientRequestDuration,
        Instrument::ServiceRequestErrorCount => Instrument::ClientRequestErrorCount,
        Instrument::ServiceStreamRequestCount => Instrument::ClientStreamRequestCount,
        Instrument::ServiceStreamRequestDuration => Instrument::ClientStreamRequestDuration,
        Instrument::ServiceStreamRequestEventCount => Instrument::ClientStreamRequestEventCount,
        Instrument::ServiceStreamRequestErrorEventCount =>
            Instrument::ClientStreamRequestErrorEventCount,
        Instrument::ClientRequestCount => Instrument::ServiceRequestCount,
        Instrument::ClientRequestDuration => Instrument::ServiceRequestDuration,
        Instrument::ClientRequestErrorCount => Instrument::ServiceRequestErrorCount,
        Instrument::ClientStreamRequestCount => Instrument::ServiceStreamRequestCount,
        Instrument::ClientStreamRequestDuration => Instrument::ServiceStreamRequestDuration,
        Instrument::ClientStreamRequestEventCount => Instrument::ServiceStreamRequestEventCount,
        Instrument::ClientStreamRequestErrorEventCount =>
            Instrument::ServiceStreamRequestErrorEventCount,
    }
}

/// A request counts as answered by a stream exactly where its body was read and said so.
pub proof fn streaming_is_what_the_body_said(info: RequestInfo)
    ensures
        info.extra_metadata is None ==> !is_streaming(info),
        info.extra_metadata matches Some(extra) ==> is_streaming(info) == extra.is_streaming,
{
}

/// What is seen of recordings is the instruments and labels that they hold.
pub proof fn recordings_show_what_they_hold(recordings: Recordings)
    ensures
        recordings@.0 == recordings.instruments@,
        recordings@.1 == crate::request_info::labels_view(recordings.labels@),
{
}

} // verus!

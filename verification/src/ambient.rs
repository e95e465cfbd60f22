//! What calls draw from their surroundings: the current span, the headers that carry it, the
//! clocks, the words of other libraries, and whether a map still grows.
//!
//! No two draws need to agree, so a contract can only say that there is some drawn value for
//! which the result is as it should be. Each predicate here says what holds of every draw.
//! The predicates are closed: outside of this module a value is known to be a draw only
//! where it came from the function that draws, and a made-up one cannot take its place.

use crate::clock::{Elapsed, Timestamp};
use crate::request::SpanContext;
use vstd::prelude::*;

verus! {

/// The context may be that of the current span. Any context may.
pub closed spec fn may_be_current(context: SpanContext) -> bool {
    true
}

/// The headers may be those that the installed propagator injects for the current span,
/// whatever both are: each of them has one value.
pub closed spec fn may_be_injected(values: Map<Seq<char>, Seq<Seq<u8>>>) -> bool {
    crate::headers::has_single_values(values)
}

/// The instant may be the current reading of the clock. Any instant may.
pub closed spec fn may_be_now(instant: tokio::time::Instant) -> bool {
    true
}

/// The span of time may have passed since the instant.
pub closed spec fn may_have_passed(since: tokio::time::Instant, span: Elapsed) -> bool {
    span.wf()
}

/// The time may be the current reading of the system clock. Any time may.
pub closed spec fn may_be_read(time: std::time::SystemTime) -> bool {
    true
}

/// The time may lie at the distance from the Unix epoch.
pub closed spec fn may_lie_at(time: std::time::SystemTime, distance: Timestamp) -> bool {
    distance.wf()
}

/// The system clock may represent the point in time as the given time, or not represent it
/// at all. It represents the epoch.
pub closed spec fn may_be_represented(
    point: Timestamp,
    time: Option<std::time::SystemTime>,
) -> bool {
    point@ == 0 ==> time is Some
}

/// The platform may show the time as the given text. It may show any text.
pub closed spec fn may_be_shown(time: std::time::SystemTime, text: Seq<char>) -> bool {
    true
}

/// The text may be how the error is shown that JSON failed with. It may be any text.
pub closed spec fn may_be_json_text(error: serde_json::Error, text: Seq<char>) -> bool {
    true
}

/// The text may be what a middleware says of its error. It may be any text.
pub closed spec fn may_be_middleware_text(error: tower_reqwest::Error, text: Seq<char>) -> bool {
    true
}

/// A map with these headers may refuse another name: it has no room for sure.
pub closed spec fn may_refuse(values: Map<Seq<char>, Seq<Seq<u8>>>) -> bool {
    !crate::headers::has_room(values)
}

/// A map refused another name on the way to these headers.
pub open spec fn is_refused(values: Map<Seq<char>, Seq<Seq<u8>>>) -> bool {
    exists|part: Map<Seq<char>, Seq<Seq<u8>>>| #[trigger]
        may_refuse(part) && part.dom().subset_of(values.dom())
}

/// The point in time may be the current one, by the system clock.
pub open spec fn may_be_time(point: Timestamp) -> bool {
    exists|time: std::time::SystemTime| may_be_read(time) && #[trigger] may_lie_at(time, point)
}

/// The platform may show the point in time as the given text, or be unable to represent it.
pub open spec fn may_be_text(point: Timestamp, text: Option<Seq<char>>) -> bool {
    exists|time: Option<std::time::SystemTime>| #[trigger]
        may_be_represented(point, time) && match time {
            Some(t) => text matches Some(shown) && may_be_shown(t, shown),
            None => text is None,
        }
}

/// Headers that are injected have one value each.
pub proof fn injected_headers_have_single_values(values: Map<Seq<char>, Seq<Seq<u8>>>)
    requires
        may_be_injected(values),
    ensures
        crate::headers::has_single_values(values),
{
}

/// Headers that a map has room for are not refused.
pub proof fn headers_with_room_are_not_refused(values: Map<Seq<char>, Seq<Seq<u8>>>)
    requires
        crate::headers::has_room(values),
    ensures
        !may_refuse(values),
        !is_refused(values),
{
    if is_refused(values) {
        let part = choose|part: Map<Seq<char>, Seq<Seq<u8>>>| #[trigger]
            may_refuse(part) && part.dom().subset_of(values.dom());
        vstd::set_lib::lemma_len_subset(part.dom(), values.dom());
    }
}

/// The epoch can always be shown.
pub proof fn epoch_is_shown(point: Timestamp, text: Option<Seq<char>>)
    requires
        may_be_text(point, text),
        point@ == 0,
    ensures
        text is Some,
{
}

} // verus!

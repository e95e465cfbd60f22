//! Points in time as the system clock gives them, and how long ago something began.

use vstd::prelude::*;

verus! {

#[verifier::external_type_specification]
#[verifier::external_body]
pub struct ExInstant(tokio::time::Instant);

#[verifier::external_type_specification]
#[verifier::external_body]
pub struct ExSystemTime(std::time::SystemTime);

/// The nanoseconds of a second.
pub const NANOS_PER_SEC: i128 = 1_000_000_000;

/// A span of time.
#[derive(Debug, Clone, Copy, PartialEq, Eq)]
pub struct Elapsed {
    pub secs: u64,
    pub nanos: u32,
}

impl View for Elapsed {
    type V = int;

    /// The number of nanoseconds.
    open spec fn view(&self) -> int {
        self.secs * NANOS_PER_SEC + self.nanos
    }
}

impl Elapsed {
    /// The nanoseconds make less than a second.
    pub open spec fn wf(self) -> bool {
        self.nanos < NANOS_PER_SEC
    }
}

/// A point in time, by its distance from the Unix epoch.
#[derive(Debug, Clone, Copy, PartialEq, Eq)]
pub enum Timestamp {
    After(Elapsed),
    Before(Elapsed),
}

impl View for Timestamp {
    type V = int;

    /// The nanoseconds since the Unix epoch; negative before it.
    open spec fn view(&self) -> int {
        match self {
            Timestamp::After(distance) => distance@,
            Timestamp::Before(distance) => -distance@,
        }
    }
}

impl Timestamp {
    /// The distance is well formed.
    pub open spec fn wf(self) -> bool {
        match self {
            Timestamp::After(distance) => distance.wf(),
            Timestamp::Before(distance) => distance.wf(),
        }
    }

    /// `earlier` is the point in time that lies the given span before this one, or `None`
    /// where its distance from the epoch exceeds what a span of time can hold.
    pub open spec fn is_preceded_by(self, span: Elapsed, earlier: Option<Timestamp>) -> bool {
        &&& earlier is Some <==> self@ - span@ > -(u64::MAX + 1) * NANOS_PER_SEC
        &&& earlier matches Some(t) ==> t.wf() && t@ == self@ - span@
    }

    /// The point in time that lies the given span before this one; `None` where its
    /// distance from the epoch exceeds what a span of time can hold.
    pub fn checked_sub(self, span: Elapsed) -> (earlier: Option<Timestamp>)
        requires
            self.wf(),
            span.wf(),
        ensures
            self.is_preceded_by(span, earlier),
    {
        let now: i128 = match self {
            Timestamp::After(distance) => distance.secs as i128 * NANOS_PER_SEC
                + distance.nanos as i128,
            Timestamp::Before(distance) => -(distance.secs as i128 * NANOS_PER_SEC
                + distance.nanos as i128),
        };
        let then: i128 = now - (span.secs as i128 * NANOS_PER_SEC + span.nanos as i128);
        let size: i128 = if then < 0 {
            -then
        } else {
            then
        };
        let secs: i128 = size / NANOS_PER_SEC;
        let nanos: i128 = size % NANOS_PER_SEC;
        if secs > u64::MAX as i128 {
            return None;
        }
        let distance: Elapsed = Elapsed { secs: secs as u64, nanos: nanos as u32 };
        Some(
            if then < 0 {
                Timestamp::Before(distance)
            } else {
                Timestamp::After(distance)
            },
        )
    }

    /// The standard rendering of the point in time, if the system clock can represent it.
    /// It can represent the epoch; how far it reaches from there, and what the rendering
    /// looks like, depends on the platform.
    pub fn to_text(self) -> (text: Option<String>)
        requires
            self.wf(),
        ensures
            self@ == 0 ==> text is Some,
            crate::ambient::may_be_text(self, crate::text::opt_text(text)),
    {
        let time: Option<std::time::SystemTime> = match self {
            Timestamp::After(distance) => time_after_epoch(distance.secs, distance.nanos),
            Timestamp::Before(distance) => time_before_epoch(distance.secs, distance.nanos),
        };
        assert(crate::ambient::may_be_represented(self, time));
        match time {
            Some(time) => Some(time_debug(&time)),
            None => None,
        }
    }
}

/// `tokio::time::Instant::now`: the current reading of the clock.
#[verifier::external_body]
pub(crate) fn current_instant() -> (instant: tokio::time::Instant)
    ensures
        crate::ambient::may_be_now(instant),
{
    tokio::time::Instant::now()
}

/// `tokio::time::Instant::elapsed`: the time that has passed since then, whatever it is.
#[verifier::external_body]
pub(crate) fn elapsed_since(start: &tokio::time::Instant) -> (span: Elapsed)
    ensures
        span.wf(),
        crate::ambient::may_have_passed(*start, span),
{
    let span = start.elapsed();
    Elapsed { secs: span.as_secs(), nanos: span.subsec_nanos() }
}

/// `std::time::SystemTime::now`: the current reading of the system clock.
#[verifier::external_body]
fn system_now() -> (time: std::time::SystemTime)
    ensures
        crate::ambient::may_be_read(time),
{
    std::time::SystemTime::now()
}

/// `std::time::SystemTime::duration_since` the Unix epoch, or how long before it the time
/// lies.
#[verifier::external_body]
fn distance_from_epoch(time: &std::time::SystemTime) -> (distance: Timestamp)
    ensures
        distance.wf(),
        crate::ambient::may_lie_at(*time, distance),
{
    match time.duration_since(std::time::UNIX_EPOCH) {
        Ok(span) => Timestamp::After(Elapsed { secs: span.as_secs(), nanos: span.subsec_nanos() }),
        Err(error) => {
            let span = error.duration();
            Timestamp::Before(Elapsed { secs: span.as_secs(), nanos: span.subsec_nanos() })
        },
    }
}

/// The current time, by its distance from the Unix epoch, whatever it is.
pub(crate) fn current_time() -> (time: Timestamp)
    ensures
        time.wf(),
        crate::ambient::may_be_time(time),
{
    distance_from_epoch(&system_now())
}

/// `std::time::SystemTime::checked_add` on the Unix epoch. The epoch itself is a time; how
/// far the times reach from there depends on the platform.
#[verifier::external_body]
fn time_after_epoch(secs: u64, nanos: u32) -> (time: Option<std::time::SystemTime>)
    requires
        nanos < NANOS_PER_SEC,
    ensures
        secs == 0 && nanos == 0 ==> time is Some,
        crate::ambient::may_be_represented(Timestamp::After(Elapsed { secs, nanos }), time),
{
    std::time::UNIX_EPOCH.checked_add(std::time::Duration::new(secs, nanos))
}

/// `std::time::SystemTime::checked_sub` on the Unix epoch. The epoch itself is a time; how
/// far the times reach from there depends on the platform.
#[verifier::external_body]
fn time_before_epoch(secs: u64, nanos: u32) -> (time: Option<std::time::SystemTime>)
    requires
        nanos < NANOS_PER_SEC,
    ensures
        secs == 0 && nanos == 0 ==> time is Some,
        crate::ambient::may_be_represented(Timestamp::Before(Elapsed { secs, nanos }), time),
{
    std::time::UNIX_EPOCH.checked_sub(std::time::Duration::new(secs, nanos))
}

/// `std::time::SystemTime`'s `Debug` rendering. What it looks like depends on the platform.
#[verifier::external_body]
fn time_debug(time: &std::time::SystemTime) -> (text: String)
    ensures
        crate::ambient::may_be_shown(*time, text@),
{
    format!("{:?}", time)
}

/// A span of time is read off its seconds and nanoseconds, and no two well-formed spans are
/// equally long.
pub proof fn spans_are_told_apart_by_length(a: Elapsed, b: Elapsed)
    ensures
        a@ == a.secs * 1_000_000_000 + a.nanos,
        a.wf() <==> a.nanos < 1_000_000_000,
        a.wf() && b.wf() && a@ == b@ ==> a == b,
{
    if a.wf() && b.wf() && a@ == b@ {
        assert(a.secs == b.secs);
    }
}

/// The epoch lies between the points before and after it.
pub proof fn points_lie_around_the_epoch(span: Elapsed)
    ensures
        Timestamp::After(span)@ == span@,
        Timestamp::Before(span)@ == -span@,
        Timestamp::After(span).wf() <==> span.wf(),
        Timestamp::Before(span).wf() <==> span.wf(),
{
}

/// Going back by a span and then forward by it leads to where one started. One can go back
/// as long as the distance from the epoch is less than 2^64 seconds, and always from there on
/// where one could go back farther.
pub proof fn going_back_is_undone(
    point: Timestamp,
    span: Elapsed,
    earlier: Option<Timestamp>,
    less: Elapsed,
    later: Option<Timestamp>,
)
    requires
        point.is_preceded_by(span, earlier),
        point.is_preceded_by(less, later),
        less@ <= span@,
    ensures
        earlier matches Some(t) ==> t.wf() && t@ + span@ == point@,
        earlier is None ==> span@ - point@ >= 18446744073709551616int * 1_000_000_000,
        earlier is Some ==> span@ - point@ < 18446744073709551616int * 1_000_000_000,
        earlier is Some ==> later is Some,
{
}

} // verus!

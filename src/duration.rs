use vstd::prelude::*;
use crate::models::{TimeStat, Timestamp};

verus! {

/// Why an elapsed time could not be computed.
#[derive(Clone, Copy, Debug, PartialEq, Eq, Structural)]
pub enum TimeError {
    MalformedTimestamp,
}

/// Seconds and sub-second nanoseconds of the instant that an RFC 3339 text
/// denotes, or `None` where the text is not such a timestamp.
pub uninterp spec fn rfc3339_instant(s: Seq<char>) -> Option<(i64, u32)>;

/// Relies on chrono's `DateTime::parse_from_rfc3339`, read back through
/// `timestamp` and `timestamp_subsec_nanos`: the outcome depends on the text alone.
#[verifier::external_body]
fn parse_rfc3339(s: &str) -> (r: Option<(i64, u32)>)
    ensures
        r == rfc3339_instant(s@),
{
    match chrono::DateTime::parse_from_rfc3339(s) {
        Ok(d) => Some((d.timestamp(), d.timestamp_subsec_nanos())),
        Err(_) => None,
    }
}

/// The instant that an RFC 3339 text denotes.
pub open spec fn instant_of(s: Seq<char>) -> Option<Timestamp> {
    match rfc3339_instant(s) {
        Some(p) => Some(Timestamp { secs: p.0, nanos: p.1 }),
        None => None,
    }
}

/// Parses an RFC 3339 timestamp.
pub fn parse_timestamp(s: &str) -> (r: Option<Timestamp>)
    ensures
        r == instant_of(s@),
{
    match parse_rfc3339(s) {
        Some(p) => Some(Timestamp { secs: p.0, nanos: p.1 }),
        None => None,
    }
}

/// Whole seconds from `start` to `end`, truncated, never negative, and capped
/// at the largest `i64`.
pub open spec fn seconds_between(start: Timestamp, end: Timestamp) -> int {
    let d = end.total_nanos() - start.total_nanos();
    if d <= 0 {
        0
    } else if d / 1_000_000_000 > i64::MAX {
        i64::MAX as int
    } else {
        d / 1_000_000_000
    }
}

/// Whole seconds elapsed from `start` to `end` (zero when `end` is earlier).
pub fn elapsed_between(start: Timestamp, end: Timestamp) -> (r: i64)
    ensures
        r == seconds_between(start, end),
        r >= 0,
{
    let ds: i128 = end.secs as i128 - start.secs as i128;
    let dn: i128 = end.nanos as i128 - start.nanos as i128;
    assert(-0x1_0000_0000_0000_0000 < ds < 0x1_0000_0000_0000_0000);
    assert(-0x1_0000_0000_0000_0000 * 1_000_000_000 < ds * 1_000_000_000 < 0x1_0000_0000_0000_0000
        * 1_000_000_000) by (nonlinear_arith)
        requires
            -0x1_0000_0000_0000_0000 < ds < 0x1_0000_0000_0000_0000,
    ;
    let d: i128 = ds * 1_000_000_000 + dn;
    assert(d == end.total_nanos() - start.total_nanos());
    if d <= 0 {
        0
    } else {
        let q: i128 = d / 1_000_000_000;
        if q > i64::MAX as i128 {
            i64::MAX
        } else {
            q as i64
        }
    }
}

/// The elapsed seconds of a time span: to its completion when it has one,
/// else to `now`.
pub open spec fn elapsed_of(ts: TimeStat, now: Timestamp) -> Result<i64, TimeError> {
    match instant_of(ts.started_at@) {
        None => Err(TimeError::MalformedTimestamp),
        Some(start) => match ts.completed_at {
            None => Ok(seconds_between(start, now) as i64),
            Some(c) => match instant_of(c@) {
                None => Err(TimeError::MalformedTimestamp),
                Some(end) => Ok(seconds_between(start, end) as i64),
            },
        },
    }
}

/// Elapsed whole seconds of a time span; `now` stands in for a missing
/// completion time.
pub fn get_seconds_elapsed(time_stat: &TimeStat, now: Timestamp) -> (r: Result<i64, TimeError>)
    ensures
        r == elapsed_of(*time_stat, now),
        r is Ok ==> r->Ok_0 >= 0,
{
    let start = match parse_timestamp(time_stat.started_at.as_str()) {
        Some(t) => t,
        None => return Err(TimeError::MalformedTimestamp),
    };
    match &time_stat.completed_at {
        None => Ok(elapsed_between(start, now)),
        Some(c) => match parse_timestamp(c.as_str()) {
            Some(end) => Ok(elapsed_between(start, end)),
            None => Err(TimeError::MalformedTimestamp),
        },
    }
}

/// The elapsed time of a span is never negative, whatever the order of its
/// timestamps.
pub proof fn lemma_elapsed_never_negative(ts: TimeStat, now: Timestamp)
    ensures
        elapsed_of(ts, now) is Ok ==> elapsed_of(ts, now)->Ok_0 >= 0,
{
}

/// For a span without completion, a later `now` never gives fewer seconds.
pub proof fn lemma_elapsed_monotone_in_now(ts: TimeStat, now1: Timestamp, now2: Timestamp)
    requires
        ts.completed_at is None,
        now1.total_nanos() <= now2.total_nanos(),
    ensures
        elapsed_of(ts, now1) is Ok <==> elapsed_of(ts, now2) is Ok,
        elapsed_of(ts, now1) is Ok ==> elapsed_of(ts, now1)->Ok_0 <= elapsed_of(ts, now2)->Ok_0,
{
    if let Some(start) = instant_of(ts.started_at@) {
        let d1 = now1.total_nanos() - start.total_nanos();
        let d2 = now2.total_nanos() - start.total_nanos();
        assert(d1 <= d2);
        if d1 > 0 {
            assert(d1 / 1_000_000_000 <= d2 / 1_000_000_000) by (nonlinear_arith)
                requires
                    0 < d1 <= d2,
            ;
        }
    }
}

/// For a completed span, the result does not depend on `now`.
pub proof fn lemma_elapsed_independent_of_now(ts: TimeStat, now1: Timestamp, now2: Timestamp)
    requires
        ts.completed_at is Some,
    ensures
        elapsed_of(ts, now1) == elapsed_of(ts, now2),
{
}

} // verus!

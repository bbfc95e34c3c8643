//! The wall clock of the machine, and the calendar's sum of an instant and a
//! span of time.

use vstd::prelude::*;
use crate::instant::{Timestamp, LONGEST_SPAN_SECONDS};

verus! {

/// `chrono::Local::now`, handed on as seconds and nanoseconds since the epoch.
///
/// Claims: the reading is an instant of the calendar, since the clock makes
/// its date and time of one. Nothing else: two readings may differ in any
/// way, and a wall clock that is set back gives a later reading that is the
/// earlier instant. On a machine whose clock reads before 1970 the call does
/// not return.
#[verifier::external_body]
pub(crate) fn current_time() -> (now: Timestamp)
    ensures
        now.is_calendar(),
{
    let now = chrono::Local::now();
    Timestamp::new(now.timestamp(), now.timestamp_subsec_nanos())
}

/// `chrono::DateTime::checked_add_signed` of the date and time that
/// `chrono::DateTime::from_timestamp` makes of `at` and the span that
/// `chrono::Duration::minutes` makes of `minutes`, handed on as seconds and
/// nanoseconds.
///
/// Claims, for an instant of the calendar and a span that is not empty and
/// not longer than the calendar adds: the sum is `minutes` times sixty
/// seconds on, with the nanoseconds of `at` less the leap second if `at` lies
/// in one; there is none where that is past the calendar's last second.
#[verifier::external_body]
pub(crate) fn add_minutes(at: Timestamp, minutes: i64) -> (sum: Option<Timestamp>)
    requires
        at.is_calendar(),
        0 < minutes,
        minutes * 60 <= LONGEST_SPAN_SECONDS,
    ensures
        sum == at.later_by(minutes as int),
{
    let start = chrono::DateTime::from_timestamp(at.secs, at.nanos).unwrap();
    match start.checked_add_signed(chrono::Duration::minutes(minutes)) {
        Some(end) => Some(Timestamp::new(end.timestamp(), end.timestamp_subsec_nanos())),
        None => None,
    }
}

} // verus!

//! Instants on the UTC time line, held as plain integers.

use vstd::prelude::*;

verus! {

/// The first second the calendar can name: midnight of 1 January of the year -262143.
pub const FIRST_SECOND: i64 = -8_334_601_228_800;

/// The last second the calendar can name: 23:59:59 of 31 December of the year 262142.
pub const LAST_SECOND: i64 = 8_210_266_876_799;

/// One whole second, in nanoseconds.
pub const NANOS_PER_SECOND: u32 = 1_000_000_000;

/// The longest span of time the calendar adds to an instant, in seconds.
pub const LONGEST_SPAN_SECONDS: i64 = 9_223_372_036_854_775;

/// An instant: whole seconds since 1970-01-01T00:00:00Z and the nanoseconds
/// into that second.
///
/// A leap second is the second before a minute boundary run on for a second
/// more, so there alone `nanos` may reach into a second billion.
#[derive(Clone, Copy, Debug, PartialEq, Eq, Structural)]
pub struct Timestamp {
    pub secs: i64,
    pub nanos: u32,
}

impl Timestamp {
    /// Whether the calendar has a date and a time of day for this instant.
    pub open spec fn is_calendar(self) -> bool {
        &&& FIRST_SECOND <= self.secs <= LAST_SECOND
        &&& (self.nanos < NANOS_PER_SECOND || (self.nanos < 2 * NANOS_PER_SECOND && self.secs % 60
            == 59))
    }

    /// The instant `minutes` after this one, for a span that is not empty: the
    /// seconds move on by the span, and an instant inside a leap second
    /// leaves the leap second behind. There is none past the calendar's end.
    pub open spec fn later_by(self, minutes: int) -> Option<Timestamp> {
        let secs = self.secs + minutes * 60;
        if secs <= LAST_SECOND {
            Some(Timestamp { secs: secs as i64, nanos: (self.nanos % NANOS_PER_SECOND) as u32 })
        } else {
            None
        }
    }

    /// Whether this instant is strictly later than `other`.
    pub open spec fn after(self, other: Timestamp) -> bool {
        self.secs > other.secs || (self.secs == other.secs && self.nanos > other.nanos)
    }

    pub fn new(secs: i64, nanos: u32) -> (at: Timestamp)
        ensures
            at.secs == secs,
            at.nanos == nanos,
    {
        Timestamp { secs, nanos }
    }

    /// Decides `is_calendar`.
    pub fn in_calendar(&self) -> (known: bool)
        ensures
            known == self.is_calendar(),
    {
        if self.secs < FIRST_SECOND || self.secs > LAST_SECOND {
            return false;
        }
        if self.nanos < NANOS_PER_SECOND {
            return true;
        }
        let into_minute: i64 = (self.secs - FIRST_SECOND) % 60;
        self.nanos < 2 * NANOS_PER_SECOND && into_minute == 59
    }

    /// Decides `after`.
    pub fn is_after(&self, other: &Timestamp) -> (later: bool)
        ensures
            later == self.after(*other),
    {
        self.secs > other.secs || (self.secs == other.secs && self.nanos > other.nanos)
    }
}

} // verus!

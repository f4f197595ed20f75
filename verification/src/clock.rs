//! Points in time as plain values, and the reading of the wall clock.

use vstd::prelude::*;

verus! {

/// Seconds in one day.
pub const SECS_PER_DAY: i64 = 86400;

/// Largest whole-second UNIX timestamp that a calendar date-time can hold
/// (the last second of the last representable year).
pub const MAX_TIMESTAMP_SECS: i64 = 8210266876799;

/// Smallest UNIX timestamp that a calendar date-time can hold.
pub const MIN_TIMESTAMP_SECS: i64 = -8334601315200;

/// Nanoseconds in one second.
pub const NANOS_PER_SEC: u32 = 1_000_000_000;

/// A UTC date-time as seconds since the UNIX epoch plus a sub-second part.
/// The sub-second part may reach up to two seconds' worth of nanoseconds to
/// hold a leap second, as calendar date-times do.
#[derive(Clone, Copy, Debug, PartialEq, Eq, Structural)]
pub struct Timestamp {
    pub secs: i64,
    pub nanos: u32,
}

/// A time of day as seconds after midnight plus a sub-second part.
#[derive(Clone, Copy, Debug, PartialEq, Eq, Structural)]
pub struct TimeOfDay {
    pub secs: u32,
    pub nanos: u32,
}

/// A calendar day, counted in days from 0001-01-01 (which is day 1).
#[derive(Clone, Copy, Debug, PartialEq, Eq, Structural)]
pub struct CalendarDate {
    pub days_from_ce: i32,
}

impl Timestamp {
    /// Whether the timestamp lies in the range of calendar date-times.
    pub open spec fn in_range(self) -> bool {
        &&& MIN_TIMESTAMP_SECS <= self.secs <= MAX_TIMESTAMP_SECS
        &&& self.nanos < 2 * NANOS_PER_SEC
    }

    /// Strict chronological order.
    pub open spec fn before(self, other: Timestamp) -> bool {
        ||| self.secs < other.secs
        ||| (self.secs == other.secs && self.nanos < other.nanos)
    }

    /// Whether `self` lies strictly before `other`.
    pub fn is_before(&self, other: &Timestamp) -> (b: bool)
        ensures
            b == self.before(*other),
    {
        self.secs < other.secs || (self.secs == other.secs && self.nanos < other.nanos)
    }
}

impl TimeOfDay {
    /// Whole hours after midnight, `hours` at most 23.
    pub fn at_hour(hours: u32) -> (t: TimeOfDay)
        requires
            hours < 24,
        ensures
            t.secs == hours * 3600,
            t.nanos == 0,
    {
        TimeOfDay { secs: hours * 3600, nanos: 0 }
    }
}

/// The current UTC date-time, read from the system clock through `chrono::Utc::now`.
/// What is stated: the value lies at or after the UNIX epoch, within the range of
/// calendar date-times, and carries no leap second (the system clock never
/// reports one). Which instant it is depends on the clock and is left open.
#[verifier::external_body]
pub(crate) fn utc_now() -> (t: Timestamp)
    ensures
        0 <= t.secs <= MAX_TIMESTAMP_SECS,
        t.nanos < NANOS_PER_SEC,
{
    let now = chrono::Utc::now();
    Timestamp { secs: now.timestamp(), nanos: now.timestamp_subsec_nanos() }
}

} // verus!

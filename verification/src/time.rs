//! Spans of time and instants, both counted in whole milliseconds.
//!
//! Every operation is total: a result that would leave the range of an
//! `i64` stops at the nearest end of that range.

use vstd::prelude::*;

verus! {

pub const MILLIS_PER_SECOND: i64 = 1_000;

pub const MILLIS_PER_MINUTE: i64 = 60_000;

pub const MILLIS_PER_WEEK: i64 = 604_800_000;

/// The value of `x` brought into the range of an `i64`.
pub open spec fn clamp_millis(x: int) -> int {
    if x < i64::MIN as int {
        i64::MIN as int
    } else if x > i64::MAX as int {
        i64::MAX as int
    } else {
        x
    }
}

/// Division that rounds toward zero, for a positive divisor.
pub open spec fn div_toward_zero(x: int, d: int) -> int {
    if x >= 0 {
        x / d
    } else {
        -((-x) / d)
    }
}

/// Brings a wide intermediate result back into an `i64`.
pub fn clamp_wide(x: i128) -> (r: i64)
    ensures
        r as int == clamp_millis(x as int),
{
    if x < i64::MIN as i128 {
        i64::MIN
    } else if x > i64::MAX as i128 {
        i64::MAX
    } else {
        x as i64
    }
}

/// A signed span of time in milliseconds.
#[derive(Clone, Copy, Debug, PartialEq, Eq, Structural)]
pub struct Duration {
    pub millis: i64,
}

impl Duration {
    /// The span that `n` milliseconds make, as a plain integer.
    pub open spec fn of_millis(n: int) -> Duration {
        Duration { millis: clamp_millis(n) as i64 }
    }

    /// `self - other`, stopping at the ends of the range.
    pub open spec fn minus(self, other: Duration) -> Duration {
        Duration::of_millis(self.millis - other.millis)
    }

    pub fn zero() -> (r: Duration)
        ensures
            r.millis == 0,
    {
        Duration { millis: 0 }
    }

    pub fn milliseconds(n: i64) -> (r: Duration)
        ensures
            r.millis == n,
    {
        Duration { millis: n }
    }

    pub fn seconds(n: i64) -> (r: Duration)
        ensures
            r == Duration::of_millis(n * 1_000),
    {
        Duration { millis: clamp_wide(n as i128 * 1_000) }
    }

    pub fn minutes(n: i64) -> (r: Duration)
        ensures
            r == Duration::of_millis(n * 60_000),
    {
        Duration { millis: clamp_wide(n as i128 * 60_000) }
    }

    pub fn weeks(n: i64) -> (r: Duration)
        ensures
            r == Duration::of_millis(n * 604_800_000),
    {
        Duration { millis: clamp_wide(n as i128 * 604_800_000) }
    }

    pub fn num_milliseconds(&self) -> (r: i64)
        ensures
            r == self.millis,
    {
        self.millis
    }

    /// Whole seconds in the span, rounded toward zero.
    pub fn num_seconds(&self) -> (r: i64)
        ensures
            r as int == div_toward_zero(self.millis as int, 1_000),
    {
        self.millis / MILLIS_PER_SECOND
    }

    /// Whole minutes in the span, rounded toward zero.
    pub fn num_minutes(&self) -> (r: i64)
        ensures
            r as int == div_toward_zero(self.millis as int, 60_000),
    {
        self.millis / MILLIS_PER_MINUTE
    }

    pub fn saturating_sub(self, other: Duration) -> (r: Duration)
        ensures
            r == self.minus(other),
    {
        Duration { millis: clamp_wide(self.millis as i128 - other.millis as i128) }
    }

    pub fn is_shorter_than(&self, other: Duration) -> (r: bool)
        ensures
            r == (self.millis < other.millis),
    {
        self.millis < other.millis
    }
}

/// An instant, as milliseconds since the Unix epoch.
#[derive(Clone, Copy, Debug, PartialEq, Eq, Structural)]
pub struct DateTime {
    pub millis: i64,
}

impl DateTime {
    /// The span from `earlier` to `self`.
    pub open spec fn since(self, earlier: DateTime) -> Duration {
        Duration::of_millis(self.millis - earlier.millis)
    }

    pub fn from_timestamp_millis(millis: i64) -> (r: DateTime)
        ensures
            r.millis == millis,
    {
        DateTime { millis }
    }

    pub fn timestamp_millis(&self) -> (r: i64)
        ensures
            r == self.millis,
    {
        self.millis
    }

    pub fn signed_duration_since(&self, earlier: DateTime) -> (r: Duration)
        ensures
            r == self.since(earlier),
    {
        Duration { millis: clamp_wide(self.millis as i128 - earlier.millis as i128) }
    }
}

/// The current instant, read from `chrono::Local::now` and cut to whole
/// milliseconds with `DateTime::timestamp_millis`. Nothing is claimed of
/// the value: it is whatever the system clock says. The call stops the
/// program where that clock stands before the year 1970.
#[verifier::external_body]
pub fn now() -> DateTime {
    DateTime { millis: chrono::Local::now().timestamp_millis() }
}

} // verus!

//! The proleptic Gregorian calendar and the clock, as far as the engine's
//! datetime type accepts them.

use vstd::prelude::*;

verus! {

/// The earliest year that the engine's datetime type holds.
pub const MIN_YEAR: i32 = -262143;

/// The latest year that the engine's datetime type holds.
pub const MAX_YEAR: i32 = 262142;

pub open spec fn is_leap_year(year: int) -> bool {
    year % 4 == 0 && (year % 100 != 0 || year % 400 == 0)
}

/// The number of days of a month, for `month` from 1 to 12.
pub open spec fn days_in_month(year: int, month: int) -> int {
    if month == 2 {
        if is_leap_year(year) {
            29
        } else {
            28
        }
    } else if month == 4 || month == 6 || month == 9 || month == 11 {
        30
    } else {
        31
    }
}

/// Whether year, month and day name a day that exists and that the engine's
/// datetime type holds.
pub open spec fn is_calendar_date(year: int, month: int, day: int) -> bool {
    &&& MIN_YEAR <= year <= MAX_YEAR
    &&& 1 <= month <= 12
    &&& 1 <= day <= days_in_month(year, month)
}

/// Whether the four numbers name a time of day. A nanosecond of a thousand
/// million or more stands for a leap second, and only the last second of a
/// minute can be one.
pub open spec fn is_clock_time(hour: int, minute: int, second: int, nanosecond: int) -> bool {
    &&& 0 <= hour < 24
    &&& 0 <= minute < 60
    &&& 0 <= second < 60
    &&& 0 <= nanosecond < 2_000_000_000
    &&& nanosecond >= 1_000_000_000 ==> second == 59
}

/// A point in time by its calendar and clock fields: the mathematical value
/// that a datetime of the engine stands for.
pub struct Instant {
    pub year: int,
    pub month: int,
    pub day: int,
    pub hour: int,
    pub minute: int,
    pub second: int,
    pub nanosecond: int,
}

impl Instant {
    /// Whether the fields name a day that exists and a time of that day.
    pub open spec fn is_valid(self) -> bool {
        &&& is_calendar_date(self.year, self.month, self.day)
        &&& is_clock_time(self.hour, self.minute, self.second, self.nanosecond)
    }

    /// Chronological order: `self` comes strictly before `other`. The fields
    /// are compared from the year down to the nanosecond.
    pub open spec fn before(self, other: Instant) -> bool {
        ||| self.year < other.year
        ||| self.year == other.year && self.month < other.month
        ||| self.year == other.year && self.month == other.month && self.day < other.day
        ||| self.year == other.year && self.month == other.month && self.day == other.day
            && self.hour < other.hour
        ||| self.year == other.year && self.month == other.month && self.day == other.day
            && self.hour == other.hour && self.minute < other.minute
        ||| self.year == other.year && self.month == other.month && self.day == other.day
            && self.hour == other.hour && self.minute == other.minute && self.second
            < other.second
        ||| self.year == other.year && self.month == other.month && self.day == other.day
            && self.hour == other.hour && self.minute == other.minute && self.second
            == other.second && self.nanosecond < other.nanosecond
    }

    /// `self` comes before `other` or is `other`.
    pub open spec fn at_or_before(self, other: Instant) -> bool {
        self.before(other) || self == other
    }
}

/// No instant comes before itself.
pub proof fn lemma_before_irreflexive(a: Instant)
    ensures
        !a.before(a),
{
}

/// The order of instants is transitive.
pub proof fn lemma_before_transitive(a: Instant, b: Instant, c: Instant)
    requires
        a.before(b),
        b.before(c),
    ensures
        a.before(c),
{
}

/// The order of instants is total: of two instants one comes before the
/// other, or they are the same.
pub proof fn lemma_before_total(a: Instant, b: Instant)
    ensures
        a.before(b) || b.before(a) || a == b,
        !(a.before(b) && b.before(a)),
{
}

} // verus!

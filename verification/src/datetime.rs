//! The datetime bridge: the engine's datetime, the host's datetime, and the
//! conversions between them.

use crate::calendar::{is_calendar_date, is_clock_time, Instant};
use chrono::{Datelike, Timelike};
use core::cmp::Ordering;
use vstd::prelude::*;
use vstd::std_specs::cmp::PartialOrdSpecImpl;

verus! {

/// A datetime in the engine's representation: a day of the proleptic
/// Gregorian calendar and a time of that day, to the nanosecond. Every value
/// names a day that exists.
#[derive(Clone, Copy, Debug, PartialEq, Eq, Structural)]
pub struct NaiveDateTimeWrapper {
    year: i32,
    month: u32,
    day: u32,
    hour: u32,
    minute: u32,
    second: u32,
    nanosecond: u32,
}

/// A datetime as the host hands it over and takes it back: plain fields, to
/// the second. Nothing is known of the fields until they are tested.
#[derive(Clone, Copy, Debug, PartialEq, Eq, Structural)]
pub struct HostDateTime {
    pub year: i32,
    pub month: u8,
    pub day: u8,
    pub hour: u8,
    pub minute: u8,
    pub second: u8,
}

/// The latest instant that a host datetime can name: the last second of the
/// year 9999. From here on an instant of the engine counts as unbounded
/// future.
pub open spec fn max_host_instant() -> Instant {
    Instant {
        year: 9999,
        month: 12,
        day: 31,
        hour: 23,
        minute: 59,
        second: 59,
        nanosecond: 0,
    }
}

/// What the host is given for an instant of the engine: nothing from
/// `max_host_instant` on, and before it the fields down to the minute, with
/// the second at zero.
pub open spec fn host_of(instant: Instant) -> Option<HostDateTime> {
    if instant.before(max_host_instant()) {
        Some(
            HostDateTime {
                year: instant.year as i32,
                month: instant.month as u8,
                day: instant.day as u8,
                hour: instant.hour as u8,
                minute: instant.minute as u8,
                second: 0,
            },
        )
    } else {
        None
    }
}

impl HostDateTime {
    /// The instant that the fields name, whether or not it exists.
    pub open spec fn instant(self) -> Instant {
        Instant {
            year: self.year as int,
            month: self.month as int,
            day: self.day as int,
            hour: self.hour as int,
            minute: self.minute as int,
            second: self.second as int,
            nanosecond: 0,
        }
    }

    /// Whether the fields are those of a datetime of the host: a day that
    /// exists in the years 1 to 9999, and a time of that day.
    pub open spec fn valid(self) -> bool {
        &&& 1 <= self.year <= 9999
        &&& self.instant().is_valid()
    }

    /// The same datetime at the start of its minute.
    pub open spec fn truncated(self) -> HostDateTime {
        HostDateTime { second: 0, ..self }
    }

    /// Converts to the engine's datetime, field by field.
    ///
    /// The fields must name a day that exists and a time of that day; a host
    /// that hands over anything else is at fault, and `checked_to_engine`
    /// tells.
    pub fn to_engine(&self) -> (engine: NaiveDateTimeWrapper)
        requires
            self.instant().is_valid(),
        ensures
            engine@ == self.instant(),
    {
        self.checked_to_engine().unwrap()
    }

    /// Converts to the engine's datetime where the fields name a day that
    /// exists and a time of that day, and to nothing where they do not.
    pub fn checked_to_engine(&self) -> (engine: Option<NaiveDateTimeWrapper>)
        ensures
            engine is Some <==> self.instant().is_valid(),
            engine matches Some(e) ==> e@ == self.instant(),
    {
        NaiveDateTimeWrapper::new(
            self.year,
            self.month as u32,
            self.day as u32,
            self.hour as u32,
            self.minute as u32,
            self.second as u32,
            0,
        )
    }

    /// Tests whether the fields are those of a datetime of the host.
    pub fn is_valid(&self) -> (valid: bool)
        ensures
            valid == self.valid(),
    {
        1 <= self.year && self.year <= 9999 && self.checked_to_engine().is_some()
    }
}

impl View for NaiveDateTimeWrapper {
    type V = Instant;

    closed spec fn view(&self) -> Instant {
        Instant {
            year: self.year as int,
            month: self.month as int,
            day: self.day as int,
            hour: self.hour as int,
            minute: self.minute as int,
            second: self.second as int,
            nanosecond: self.nanosecond as int,
        }
    }
}

/// `chrono::NaiveDate::from_ymd_opt`: whether it makes a date of the three
/// numbers. It makes none where the year lies outside `MIN_YEAR..=MAX_YEAR`,
/// where the month is not one of 1 to 12, and where the month has no such
/// day.
#[verifier::external_body]
fn date_exists(year: i32, month: u32, day: u32) -> (exists: bool)
    ensures
        exists == is_calendar_date(year as int, month as int, day as int),
{
    chrono::NaiveDate::from_ymd_opt(year, month, day).is_some()
}

/// `chrono::NaiveTime::from_hms_nano_opt`: whether it makes a time of the
/// four numbers. It makes none where the hour is 24 or more, the minute or
/// the second 60 or more, the nanosecond two thousand million or more, or
/// the nanosecond a thousand million or more in a second other than 59.
#[verifier::external_body]
fn time_exists(hour: u32, minute: u32, second: u32, nanosecond: u32) -> (exists: bool)
    ensures
        exists == is_clock_time(hour as int, minute as int, second as int, nanosecond as int),
{
    chrono::NaiveTime::from_hms_nano_opt(hour, minute, second, nanosecond).is_some()
}

/// `chrono::Local::now` and `DateTime::naive_local`: the local wall clock,
/// read when called, by its fields. Whatever the clock shows, the fields
/// are those of a day that exists and a time of that day. Two readings may
/// differ. (The call panics on a machine whose clock stands before 1970.)
#[verifier::external_body]
fn local_now() -> (now: NaiveDateTimeWrapper)
    ensures
        now@.is_valid(),
{
    let now = chrono::Local::now().naive_local();
    NaiveDateTimeWrapper {
        year: now.year(),
        month: now.month(),
        day: now.day(),
        hour: now.hour(),
        minute: now.minute(),
        second: now.second(),
        nanosecond: now.nanosecond(),
    }
}

/// How two instants stand to each other in time.
pub open spec fn chronological(a: Instant, b: Instant) -> Ordering {
    if a.before(b) {
        Ordering::Less
    } else if b.before(a) {
        Ordering::Greater
    } else {
        Ordering::Equal
    }
}

/// `PartialOrd::partial_cmp` of `chrono::NaiveDateTime`, on the two
/// datetimes that chrono makes of the fields: chrono orders datetimes
/// chronologically, by the date and then by the time of day.
#[verifier::external_body]
fn chronological_order(a: &NaiveDateTimeWrapper, b: &NaiveDateTimeWrapper) -> (order: Option<
    Ordering,
>)
    requires
        a@.is_valid(),
        b@.is_valid(),
    ensures
        order == Some(chronological(a@, b@)),
{
    let left = chrono::NaiveDate::from_ymd_opt(a.year, a.month, a.day).unwrap().and_hms_nano_opt(
        a.hour,
        a.minute,
        a.second,
        a.nanosecond,
    ).unwrap();
    let right = chrono::NaiveDate::from_ymd_opt(b.year, b.month, b.day).unwrap().and_hms_nano_opt(
        b.hour,
        b.minute,
        b.second,
        b.nanosecond,
    ).unwrap();
    left.partial_cmp(&right)
}

impl PartialOrd for NaiveDateTimeWrapper {
    /// Chronological order, as chrono decides it.
    fn partial_cmp(&self, other: &Self) -> (order: Option<Ordering>) {
        proof {
            use_type_invariant(self);
            use_type_invariant(other);
        }
        chronological_order(self, other)
    }
}

impl PartialOrdSpecImpl for NaiveDateTimeWrapper {
    open spec fn obeys_partial_cmp_spec() -> bool {
        true
    }

    open spec fn partial_cmp_spec(&self, other: &Self) -> Option<Ordering> {
        Some(chronological(self@, other@))
    }
}

impl NaiveDateTimeWrapper {
    /// Held by every value: the fields name a day that exists and a time of
    /// that day.
    #[verifier::type_invariant]
    pub open spec fn names_an_instant(self) -> bool {
        self@.is_valid()
    }

    /// The datetime of the given fields, where they name a day that exists
    /// and a time of that day; nothing where they do not.
    pub fn new(
        year: i32,
        month: u32,
        day: u32,
        hour: u32,
        minute: u32,
        second: u32,
        nanosecond: u32,
    ) -> (made: Option<Self>)
        ensures
            ({
                let instant = Instant {
                    year: year as int,
                    month: month as int,
                    day: day as int,
                    hour: hour as int,
                    minute: minute as int,
                    second: second as int,
                    nanosecond: nanosecond as int,
                };
                &&& made is Some <==> instant.is_valid()
                &&& made matches Some(m) ==> m@ == instant
            }),
    {
        if date_exists(year, month, day) && time_exists(hour, minute, second, nanosecond) {
            Some(NaiveDateTimeWrapper { year, month, day, hour, minute, second, nanosecond })
        } else {
            None
        }
    }

    /// What the local wall clock shows at this call.
    pub fn now() -> (now: NaiveDateTimeWrapper)
        ensures
            now@.is_valid(),
    {
        local_now()
    }

    /// The latest datetime that the host can name.
    pub fn max_py_value() -> (max: NaiveDateTimeWrapper)
        ensures
            max@ == max_host_instant(),
    {
        NaiveDateTimeWrapper {
            year: 9999,
            month: 12,
            day: 31,
            hour: 23,
            minute: 59,
            second: 59,
            nanosecond: 0,
        }
    }

    pub fn year(&self) -> (year: i32)
        ensures
            year == self@.year,
    {
        self.year
    }

    pub fn month(&self) -> (month: u32)
        ensures
            month == self@.month,
    {
        self.month
    }

    pub fn day(&self) -> (day: u32)
        ensures
            day == self@.day,
    {
        self.day
    }

    pub fn hour(&self) -> (hour: u32)
        ensures
            hour == self@.hour,
    {
        self.hour
    }

    pub fn minute(&self) -> (minute: u32)
        ensures
            minute == self@.minute,
    {
        self.minute
    }

    pub fn second(&self) -> (second: u32)
        ensures
            second == self@.second,
    {
        self.second
    }

    pub fn nanosecond(&self) -> (nanosecond: u32)
        ensures
            nanosecond == self@.nanosecond,
    {
        self.nanosecond
    }

    /// Converts to the host's datetime: nothing from `max_py_value` on, and
    /// before it the fields down to the minute, with the second at zero and
    /// what is finer than a second left out.
    pub fn to_host(&self) -> (host: Option<HostDateTime>)
        ensures
            host == host_of(self@),
            host is None <==> !self@.before(max_host_instant()),
            host matches Some(h) ==> (self@.year >= 1 ==> h.valid()),
    {
        proof {
            use_type_invariant(self);
        }
        if *self >= Self::max_py_value() {
            None
        } else {
            Some(
                HostDateTime {
                    year: self.year,
                    month: self.month as u8,
                    day: self.day as u8,
                    hour: self.hour as u8,
                    minute: self.minute as u8,
                    second: 0,
                },
            )
        }
    }
}

/// A datetime of the host is one that the engine's datetime can hold.
pub proof fn lemma_valid_host_converts(host: HostDateTime)
    requires
        host.valid(),
    ensures
        host.instant().is_valid(),
        host.instant().at_or_before(max_host_instant()),
{
}

/// A datetime that came from the host and lies before the latest that the
/// host can name goes back to the host as it came, but for the second, which
/// is zero.
pub proof fn lemma_host_round_trip(host: HostDateTime)
    requires
        host.instant().is_valid(),
        host.instant().before(max_host_instant()),
    ensures
        host_of(host.instant()) == Some(host.truncated()),
{
}

/// Nothing at or after the latest instant that the host can name is given to
/// the host as a datetime.
pub proof fn lemma_unbounded_future_is_absent(instant: Instant)
    requires
        max_host_instant().at_or_before(instant),
    ensures
        host_of(instant) is None,
{
}

/// What the host is given for an instant that exists, in a year from 1 on,
/// is a datetime of the host, at the start of a minute and not after the
/// instant.
pub proof fn lemma_host_of_is_valid(instant: Instant)
    requires
        instant.is_valid(),
        instant.year >= 1,
    ensures
        host_of(instant) matches Some(host) ==> {
            &&& host.valid()
            &&& host.second == 0
            &&& host.instant().at_or_before(instant)
        },
{
}

} // verus!

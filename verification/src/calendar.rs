//! Calendar dates and instants, held as the numbers the domain rules compare.
//!
//! A `Date` is a Julian day number and a `Timestamp` a count of nanoseconds
//! since the Unix epoch; both are only ever built from values that the `time`
//! crate accepts, so they convert back to `time::Date` and
//! `time::OffsetDateTime` without loss.
use vstd::prelude::*;

verus! {

/// Whether `time::Date::from_julian_day` accepts this Julian day number: the
/// days from -9999-01-01 to 9999-12-31, the range of `time::Date` without the
/// `large-dates` feature, which this crate does not turn on.
pub open spec fn time_accepts_julian_day(day: int) -> bool {
    -1930999 <= day <= 5373484
}

/// Whether `time::OffsetDateTime::from_unix_timestamp_nanos` accepts this
/// count: its whole seconds, rounded down, must lie from the first second of
/// -9999-01-01 to the last of 9999-12-31, UTC.
pub open spec fn time_accepts_unix_nanos(nanos: int) -> bool {
    -377705116800 <= nanos / 1_000_000_000 <= 253402300799
}

/// The Julian day number that `time::Date::from_calendar_date` gives for a
/// year, month (1 to 12) and day of month, or `None` where `time` rejects them.
pub uninterp spec fn calendar_julian_day(year: int, month: int, day: int) -> Option<int>;

/// Julian day number of 1970-01-01.
pub open spec fn unix_epoch_julian_day() -> int {
    2440588
}

/// Nanoseconds in a day.
pub open spec fn nanos_per_day() -> int {
    86_400_000_000_000
}

/// The UTC calendar day (as a Julian day number) on which an instant falls.
pub open spec fn utc_day(nanos: int) -> int {
    unix_epoch_julian_day() + nanos / nanos_per_day()
}

/// Calls `time::Date::from_julian_day` and reports whether it succeeded.
#[verifier::external_body]
fn julian_day_accepted(day: i32) -> (r: bool)
    ensures
        r == time_accepts_julian_day(day as int),
{
    time::Date::from_julian_day(day).is_ok()
}

/// Calls `time::OffsetDateTime::from_unix_timestamp_nanos` and reports whether
/// it succeeded.
#[verifier::external_body]
fn unix_nanos_accepted(nanos: i128) -> (r: bool)
    ensures
        r == time_accepts_unix_nanos(nanos as int),
{
    time::OffsetDateTime::from_unix_timestamp_nanos(nanos).is_ok()
}

/// Calls `time::Date::from_calendar_date` (with `time::Month::try_from` for the
/// month) and returns the Julian day of the date it builds. The `time` source
/// builds every date from a Julian day in its accepted range.
#[verifier::external_body]
fn julian_day_of(year: i32, month: u8, day: u8) -> (r: Option<i32>)
    ensures
        r is None <==> calendar_julian_day(year as int, month as int, day as int) is None,
        r matches Some(d) ==> calendar_julian_day(year as int, month as int, day as int) == Some(
            d as int,
        ) && time_accepts_julian_day(d as int),
{
    match time::Month::try_from(month) {
        Ok(m) => match time::Date::from_calendar_date(year, m, day) {
            Ok(date) => Some(date.to_julian_day()),
            Err(_) => None,
        },
        Err(_) => None,
    }
}

/// Calls `time::OffsetDateTime::from_unix_timestamp_nanos` and then `date()`
/// and `to_julian_day()`. The `time` source builds that date as the epoch's
/// Julian day plus the floor of the whole seconds over 86 400.
#[verifier::external_body]
fn utc_julian_day(nanos: i128) -> (r: i32)
    requires
        time_accepts_unix_nanos(nanos as int),
    ensures
        r as int == utc_day(nanos as int),
        time_accepts_julian_day(r as int),
{
    time::OffsetDateTime::from_unix_timestamp_nanos(nanos).unwrap().date().to_julian_day()
}

/// A calendar date without a time zone.
#[derive(Clone, Copy, Debug, PartialEq, Eq, Hash, Structural)]
pub struct Date {
    day: i32,
}

impl View for Date {
    type V = int;

    closed spec fn view(&self) -> int {
        self.day as int
    }
}

impl Date {
    #[verifier::type_invariant]
    spec fn valid(self) -> bool {
        time_accepts_julian_day(self.day as int)
    }

    /// The date with this Julian day number, if `time` represents it.
    pub fn from_julian_day(day: i32) -> (r: Option<Date>)
        ensures
            r is Some <==> time_accepts_julian_day(day as int),
            r matches Some(d) ==> d@ == day,
    {
        if julian_day_accepted(day) {
            Some(Date { day })
        } else {
            None
        }
    }

    /// The date with this year, month (1 to 12) and day of month, if it exists.
    pub fn from_calendar_date(year: i32, month: u8, day: u8) -> (r: Option<Date>)
        ensures
            r is None <==> calendar_julian_day(year as int, month as int, day as int) is None,
            r matches Some(d) ==> calendar_julian_day(year as int, month as int, day as int)
                == Some(d@),
    {
        match julian_day_of(year, month, day) {
            Some(d) => Some(Date { day: d }),
            None => None,
        }
    }

    /// The Julian day number of this date.
    pub fn julian_day(&self) -> (r: i32)
        ensures
            r == self@,
            time_accepts_julian_day(r as int),
    {
        proof {
            use_type_invariant(self);
        }
        self.day
    }

    /// Whether `self` comes strictly before `other`.
    pub fn is_before(&self, other: &Date) -> (r: bool)
        ensures
            r == (self@ < other@),
    {
        self.day < other.day
    }

    /// Whether `self` and `other` are the same day.
    pub fn same_day(&self, other: &Date) -> (r: bool)
        ensures
            r == (self@ == other@),
    {
        self.day == other.day
    }
}

/// An instant, counted in nanoseconds from 1970-01-01T00:00:00Z.
#[derive(Clone, Copy, Debug, PartialEq, Eq, Hash, Structural)]
pub struct Timestamp {
    nanos: i128,
}

impl View for Timestamp {
    type V = int;

    closed spec fn view(&self) -> int {
        self.nanos as int
    }
}

impl Timestamp {
    #[verifier::type_invariant]
    spec fn valid(self) -> bool {
        time_accepts_unix_nanos(self.nanos as int)
    }

    /// The instant this many nanoseconds after the Unix epoch, if `time`
    /// represents it.
    pub fn from_unix_nanos(nanos: i128) -> (r: Option<Timestamp>)
        ensures
            r is Some <==> time_accepts_unix_nanos(nanos as int),
            r matches Some(t) ==> t@ == nanos,
    {
        if unix_nanos_accepted(nanos) {
            Some(Timestamp { nanos })
        } else {
            None
        }
    }

    /// Nanoseconds since the Unix epoch.
    pub fn unix_nanos(&self) -> (r: i128)
        ensures
            r == self@,
            time_accepts_unix_nanos(r as int),
    {
        proof {
            use_type_invariant(self);
        }
        self.nanos
    }

    /// The UTC calendar date on which this instant falls.
    pub fn utc_date(&self) -> (r: Date)
        ensures
            r@ == utc_day(self@),
    {
        proof {
            use_type_invariant(self);
        }
        let day = utc_julian_day(self.nanos);
        Date { day }
    }
}

} // verus!

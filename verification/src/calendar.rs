//! Calendar reading of Unix timestamps, taken from the `time` crate.
//!
//! Nothing in this file is proved: each function states what the `time` crate
//! computes, under a name that the contracts of the library can speak of.
//! Which dates the calendar has is written out, since a few lines state it.
//!
//! The first and the last timestamp with a date, and the years from -9999 to
//! 9999, are those of `time` as this crate builds it: without its
//! `large-dates` feature. With that feature the range would be wider and the
//! statements here would have to follow it.
use vstd::prelude::*;

verus! {

/// The first second that has a calendar date: midnight on 1 January -9999.
pub const FIRST_TIMESTAMP: i64 = -377_705_116_800;

/// The last second that has a calendar date: the end of 31 December 9999.
pub const LAST_TIMESTAMP: i64 = 253_402_300_799;

/// Seconds in a day.
pub const SECONDS_PER_DAY: i64 = 86_400;

/// Seconds in a week.
pub const SECONDS_PER_WEEK: i64 = 604_800;

/// Whether the timestamp has a calendar date.
pub open spec fn has_date(epoch: int) -> bool {
    FIRST_TIMESTAMP <= epoch <= LAST_TIMESTAMP
}

/// The calendar year, in UTC, of a timestamp that has a date.
pub uninterp spec fn year_at(epoch: int) -> int;

/// The month of the year, from 1 to 12, in UTC, of a timestamp that has a date.
pub uninterp spec fn month_at(epoch: int) -> int;

/// The day of the month, in UTC, of a timestamp that has a date.
pub uninterp spec fn day_at(epoch: int) -> int;

/// The timestamp of the same day, month and time of day in another year, if
/// that date exists.
pub uninterp spec fn in_year(epoch: int, year: int) -> Option<int>;

/// The timestamp of the same day and time of day in another month of the
/// same year, if that date exists.
pub uninterp spec fn in_month(epoch: int, month: int) -> Option<int>;

/// Whether a year is a leap year of the Gregorian calendar.
pub open spec fn leap_year(year: int) -> bool {
    year % 4 == 0 && (year % 100 != 0 || year % 400 == 0)
}

/// The number of days of a month of a year.
pub open spec fn days_in(year: int, month: int) -> int {
    if month == 2 {
        if leap_year(year) {
            29
        } else {
            28
        }
    } else if month == 4 || month == 6 || month == 9 || month == 11 {
        30
    } else {
        31
    }
}

/// Whether the calendar has the date, in the years from -9999 to 9999.
pub open spec fn is_date(year: int, month: int, day: int) -> bool {
    -9999 <= year <= 9999 && 1 <= month <= 12 && 1 <= day <= days_in(year, month)
}

/// The timestamp of a full hour, in UTC, on a calendar date.
pub uninterp spec fn stamp_at(year: int, month: int, day: int, hour: int) -> int;

/// `Date::from_calendar_date`, `Date::with_hms`, `PrimitiveDateTime::assume_utc`
/// and `OffsetDateTime::unix_timestamp`: the timestamp of a full hour, in
/// UTC, on a calendar date. Nothing where the calendar lacks the date or the
/// day lacks the hour. The timestamp has a date, and its date is the one
/// that was given.
#[verifier::external_body]
pub(crate) fn stamp_of(year: i32, month: u8, day: u8, hour: u8) -> (stamp: Option<i64>)
    ensures
        stamp.is_some() == (is_date(year as int, month as int, day as int) && hour < 24),
        stamp matches Some(t) ==> t == stamp_at(year as int, month as int, day as int, hour as int)
            && has_date(t as int) && year_at(t as int) == year && month_at(t as int) == month
            && day_at(t as int) == day,
{
    match time::Month::try_from(month) {
        Ok(m) => match time::Date::from_calendar_date(year, m, day) {
            Ok(date) => match date.with_hms(hour, 0, 0) {
                Ok(at) => Some(at.assume_utc().unix_timestamp()),
                Err(_) => None,
            },
            Err(_) => None,
        },
        Err(_) => None,
    }
}

/// `OffsetDateTime::from_unix_timestamp` and `OffsetDateTime::year`: the
/// calendar year of a timestamp, or nothing where the timestamp lies outside
/// the years -9999 to 9999.
#[verifier::external_body]
pub(crate) fn year_of(epoch: i64) -> (year: Option<i32>)
    ensures
        year.is_some() == has_date(epoch as int),
        year matches Some(y) ==> y == year_at(epoch as int) && -9999 <= y <= 9999,
{
    match time::OffsetDateTime::from_unix_timestamp(epoch) {
        Ok(d) => Some(d.year()),
        Err(_) => None,
    }
}

/// `OffsetDateTime::from_unix_timestamp` and `OffsetDateTime::month`: the
/// month of a timestamp as a number from 1 to 12.
#[verifier::external_body]
pub(crate) fn month_of(epoch: i64) -> (month: Option<u8>)
    ensures
        month.is_some() == has_date(epoch as int),
        month matches Some(m) ==> m == month_at(epoch as int) && 1 <= m <= 12,
{
    match time::OffsetDateTime::from_unix_timestamp(epoch) {
        Ok(d) => Some(u8::from(d.month())),
        Err(_) => None,
    }
}

/// `OffsetDateTime::from_unix_timestamp` and `OffsetDateTime::day`: the day
/// of the month of a timestamp.
#[verifier::external_body]
pub(crate) fn day_of(epoch: i64) -> (day: Option<u8>)
    ensures
        day.is_some() == has_date(epoch as int),
        day matches Some(d) ==> d == day_at(epoch as int),
{
    match time::OffsetDateTime::from_unix_timestamp(epoch) {
        Ok(d) => Some(d.day()),
        Err(_) => None,
    }
}

/// `OffsetDateTime::replace_year`: the timestamp of the same date in another
/// year. Nothing where the timestamp has no date, the year has none, or the
/// date is a 29 February that the year lacks.
#[verifier::external_body]
pub(crate) fn replace_year(epoch: i64, year: i32) -> (moved: Option<i64>)
    ensures
        moved matches Some(t) ==> in_year(epoch as int, year as int) == Some(t as int),
        moved.is_none() ==> in_year(epoch as int, year as int).is_none(),
{
    match time::OffsetDateTime::from_unix_timestamp(epoch) {
        Ok(d) => match d.replace_year(year) {
            Ok(r) => Some(r.unix_timestamp()),
            Err(_) => None,
        },
        Err(_) => None,
    }
}

/// `OffsetDateTime::replace_month`: the timestamp of the same day in another
/// month of the same year. Nothing where the timestamp has no date, the
/// number names no month, or the month lacks the day.
#[verifier::external_body]
pub(crate) fn replace_month(epoch: i64, month: u8) -> (moved: Option<i64>)
    ensures
        moved matches Some(t) ==> in_month(epoch as int, month as int) == Some(t as int),
        moved.is_none() ==> in_month(epoch as int, month as int).is_none(),
{
    match (time::OffsetDateTime::from_unix_timestamp(epoch), time::Month::try_from(month)) {
        (Ok(d), Ok(m)) => match d.replace_month(m) {
            Ok(r) => Some(r.unix_timestamp()),
            Err(_) => None,
        },
        _ => None,
    }
}

} // verus!

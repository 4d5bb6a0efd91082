//! Trigger schedules over Unix timestamps.
use vstd::prelude::*;
use crate::calendar::{
    day_at, day_of, has_date, in_month, in_year, month_at, month_of, replace_month, replace_year,
    year_at, year_of, FIRST_TIMESTAMP, LAST_TIMESTAMP, SECONDS_PER_DAY, SECONDS_PER_WEEK,
};
use crate::money::floor_div;

verus! {

/// A point in time: seconds since the Unix epoch.
pub type DateTime = i64;

/// A day of the month.
pub type Day = i32;

/// A month of the year, from 1.
pub type Month = i32;

/// A calendar year.
pub type Year = i32;

/// The days from Monday to Friday.
pub const FRIDAY: u8 = 4;

/// When a flow, a payment or a settlement comes due.
#[derive(Clone, Copy, Debug, PartialEq, Eq, Structural)]
pub enum Schedule {
    EveryFriday,
    SpecificDate(Day, Month, Year),
    SpecificEpoch(DateTime),
    EveryYear(Day, Month),
    EveryMonth(Day),
    StartOfMonth,
    EveryDay,
}

/// The days from Monday to the weekday of a timestamp, in UTC. The first day
/// of the Unix epoch was a Thursday.
pub open spec fn weekday_at(epoch: int) -> int {
    (epoch / (SECONDS_PER_DAY as int) + 3) % 7
}

/// The days from Monday to the weekday of a timestamp, or nothing for a
/// timestamp without a calendar date.
pub fn weekday_of(epoch: DateTime) -> (weekday: Option<u8>)
    ensures
        weekday.is_some() == has_date(epoch as int),
        weekday matches Some(w) ==> w == weekday_at(epoch as int),
{
    if epoch < FIRST_TIMESTAMP || epoch > LAST_TIMESTAMP {
        return None;
    }
    let days_after_monday: i128 = floor_div(epoch as i128, SECONDS_PER_DAY as i128) + 3;
    let weeks: i128 = floor_div(days_after_monday, 7);
    Some((days_after_monday - 7 * weeks) as u8)
}

/// The time one month before a time: the same day and time of day in the
/// month before, which for January is the December of the year before.
/// Nothing where that month lacks the day.
pub open spec fn month_earlier(epoch: int) -> Option<int> {
    if month_at(epoch) == 1 {
        match in_year(epoch, year_at(epoch) - 1) {
            Some(year_before) => in_month(year_before, 12),
            None => None,
        }
    } else {
        in_month(epoch, month_at(epoch) - 1)
    }
}

impl Schedule {
    /// Whether the schedule triggers at the timestamp. A timestamp without a
    /// calendar date triggers nothing. Days and months are compared by their
    /// lowest eight bits.
    pub open spec fn hits(self, epoch: int) -> bool {
        has_date(epoch) && match self {
            Schedule::EveryFriday => weekday_at(epoch) == FRIDAY,
            Schedule::SpecificDate(day, month, year) => year_at(epoch) == year && day_at(epoch)
                == day as u8 && month_at(epoch) == month as u8,
            Schedule::SpecificEpoch(at) => at == epoch,
            Schedule::EveryYear(day, month) => day_at(epoch) == day as u8 && month_at(epoch)
                == month as u8,
            Schedule::EveryMonth(day) => day_at(epoch) == day as u8,
            Schedule::EveryDay => true,
            Schedule::StartOfMonth => day_at(epoch) == 1,
        }
    }

    /// The timestamp one period before the given one: a week for a weekly
    /// schedule, the same date a year earlier for a yearly one, the same day
    /// in the month before for a monthly one. Nothing for the other
    /// schedules, for a timestamp without a calendar date, and where the
    /// earlier date does not exist.
    pub open spec fn previous(self, epoch: int) -> Option<int> {
        if !has_date(epoch) {
            None
        } else {
            match self {
                Schedule::EveryFriday => if epoch - SECONDS_PER_WEEK >= FIRST_TIMESTAMP {
                    Some(epoch - SECONDS_PER_WEEK)
                } else {
                    None
                },
                Schedule::EveryYear(_, _) => in_year(epoch, year_at(epoch) - 1),
                Schedule::EveryMonth(_) | Schedule::StartOfMonth => month_earlier(epoch),
                _ => None,
            }
        }
    }

    /// The time one period of the schedule before a time, if there is one.
    pub fn last_period(&self, date: DateTime) -> (start: Option<DateTime>)
        ensures
            start.is_some() == self.previous(date as int).is_some(),
            start matches Some(t) ==> self.previous(date as int) == Some(t as int),
    {
        match self {
            Schedule::EveryFriday => {
                match year_of(date) {
                    Some(_) => {
                        if date - SECONDS_PER_WEEK >= FIRST_TIMESTAMP {
                            Some(date - SECONDS_PER_WEEK)
                        } else {
                            None
                        }
                    },
                    None => None,
                }
            },
            Schedule::EveryYear(_, _) => {
                match year_of(date) {
                    Some(year) => replace_year(date, year - 1),
                    None => None,
                }
            },
            Schedule::EveryMonth(_) | Schedule::StartOfMonth => {
                match (year_of(date), month_of(date)) {
                    (Some(year), Some(month)) => {
                        if month == 1 {
                            match replace_year(date, year - 1) {
                                Some(year_before) => replace_month(year_before, 12),
                                None => None,
                            }
                        } else {
                            replace_month(date, month - 1)
                        }
                    },
                    _ => None,
                }
            },
            _ => None,
        }
    }

    /// Whether the schedule triggers at a time.
    pub fn check(&self, epoch_date: DateTime) -> (hit: bool)
        ensures
            hit == self.hits(epoch_date as int),
    {
        match self {
            Schedule::EveryFriday => {
                match weekday_of(epoch_date) {
                    Some(weekday) => weekday == FRIDAY,
                    None => false,
                }
            },
            Schedule::SpecificDate(day, month, year) => {
                match (year_of(epoch_date), month_of(epoch_date), day_of(epoch_date)) {
                    (Some(y), Some(m), Some(d)) => y == *year && d == low_byte(*day) && m
                        == low_byte(*month),
                    _ => false,
                }
            },
            Schedule::SpecificEpoch(epoch) => {
                match year_of(epoch_date) {
                    Some(_) => *epoch == epoch_date,
                    None => false,
                }
            },
            Schedule::EveryYear(day, month) => {
                match (month_of(epoch_date), day_of(epoch_date)) {
                    (Some(m), Some(d)) => d == low_byte(*day) && m == low_byte(*month),
                    _ => false,
                }
            },
            Schedule::EveryMonth(day) => {
                match day_of(epoch_date) {
                    Some(d) => d == low_byte(*day),
                    None => false,
                }
            },
            Schedule::EveryDay => year_of(epoch_date).is_some(),
            Schedule::StartOfMonth => {
                match day_of(epoch_date) {
                    Some(d) => d == 1,
                    None => false,
                }
            },
        }
    }
}

/// The lowest eight bits of a number.
fn low_byte(n: i32) -> (b: u8)
    ensures
        b == n as u8,
{
    #[verifier::truncate]
    (n as u8)
}

/// What can be asked whether it is due at a point in time.
pub trait Schedulable {
    fn check(&self, date: &DateTime) -> bool;
}

} // verus!

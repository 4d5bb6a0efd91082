//! Dates of end-of-day price records.
use vstd::prelude::*;
use vstd::string::*;
use crate::calendar::{day_at, day_of, has_date, is_date, stamp_at, stamp_of};
use crate::schedule::DateTime;

verus! {

/// Whether a timestamp falls on the first day of a month.
pub open spec fn first_of_month(date: DateTime) -> bool {
    has_date(date as int) && day_at(date as int) == 1
}

/// The hour of the day, in UTC, at which a dated record is stamped.
pub const STAMP_HOUR: u8 = 9;

/// Whether a character is a decimal digit.
pub open spec fn is_digit(c: char) -> bool {
    48 <= c as int <= 57
}

/// The value of a decimal digit.
pub open spec fn digit(c: char) -> int {
    c as int - 48
}

/// Whether two characters from a place on are digits.
pub open spec fn two_digits(text: Seq<char>, at: int) -> bool {
    is_digit(text[at]) && is_digit(text[at + 1])
}

/// The number that two digits from a place on write.
pub open spec fn two_digit_number(text: Seq<char>, at: int) -> int {
    digit(text[at]) * 10 + digit(text[at + 1])
}

/// Whether the text begins with a sign.
pub open spec fn signed(text: Seq<char>) -> bool {
    text.len() > 0 && (text[0] == '+' || text[0] == '-')
}

/// Whether the text, from a place on, is four digits, a hyphen, two digits, a
/// hyphen and two digits, and nothing more.
pub open spec fn laid_out(text: Seq<char>, start: int) -> bool {
    &&& text.len() == start + 10
    &&& two_digits(text, start)
    &&& two_digits(text, start + 2)
    &&& text[start + 4] == '-'
    &&& two_digits(text, start + 5)
    &&& text[start + 7] == '-'
    &&& two_digits(text, start + 8)
}

/// The year, month and day that a text writes: a year of four digits, which
/// a sign may precede, a month of two and a day of two, with a hyphen between
/// them. Nothing where the text is laid out otherwise.
pub open spec fn date_named(text: Seq<char>) -> Option<(int, int, int)> {
    let start: int = if signed(text) {
        1
    } else {
        0
    };
    if laid_out(text, start) {
        let year = two_digit_number(text, start) * 100 + two_digit_number(text, start + 2);
        Some(
            (
                if text[0] == '-' {
                    -year
                } else {
                    year
                },
                two_digit_number(text, start + 5),
                two_digit_number(text, start + 8),
            ),
        )
    } else {
        None
    }
}

/// Whether a text writes a date that the calendar has.
pub open spec fn dated(text: Seq<char>) -> bool {
    date_named(text) matches Some((year, month, day)) && is_date(year, month, day)
}

/// The timestamp of the date that a text writes, at the hour of stamping.
/// Nothing where the text writes no date of the calendar.
pub open spec fn stamp_named(text: Seq<char>) -> Option<int> {
    match date_named(text) {
        Some((year, month, day)) => if is_date(year, month, day) {
            Some(stamp_at(year, month, day, STAMP_HOUR as int))
        } else {
            None
        },
        None => None,
    }
}

/// The number that two characters from a place on write, if both are digits.
fn two_at(text: &str, at: usize) -> (number: Option<u8>)
    requires
        at + 1 < text@.len(),
        at < usize::MAX,
    ensures
        number.is_some() == two_digits(text@, at as int),
        number matches Some(n) ==> n == two_digit_number(text@, at as int),
{
    let tens: u32 = text.get_char(at) as u32;
    let ones: u32 = text.get_char(at + 1) as u32;
    if 48 <= tens && tens <= 57 && 48 <= ones && ones <= 57 {
        Some(((tens - 48) * 10 + (ones - 48)) as u8)
    } else {
        None
    }
}

/// The timestamp of the date that a text writes, at the hour of stamping.
pub fn parse_date(text: &str) -> (stamp: Option<DateTime>)
    ensures
        stamp.is_some() == dated(text@),
        stamp matches Some(t) ==> stamp_named(text@) == Some(t as int) && has_date(t as int)
            && day_at(t as int) == date_named(text@).unwrap().2,
{
    let len = text.unicode_len();
    if len == 0 {
        return None;
    }
    let first = text.get_char(0);
    let start: usize = if first == '+' || first == '-' {
        1
    } else {
        0
    };
    if len != start + 10 {
        return None;
    }
    if text.get_char(start + 4) != '-' || text.get_char(start + 7) != '-' {
        return None;
    }
    match (two_at(text, start), two_at(text, start + 2), two_at(text, start + 5), two_at(
        text,
        start + 8,
    )) {
        (Some(century), Some(years), Some(month), Some(day)) => {
            let magnitude: i32 = century as i32 * 100 + years as i32;
            let year: i32 = if first == '-' {
                -magnitude
            } else {
                magnitude
            };
            stamp_of(year, month, day, STAMP_HOUR)
        },
        _ => None,
    }
}

/// What all end-of-day records have in common: their dates.
pub struct EodRawCommon;

impl EodRawCommon {
    /// The timestamps of the dates that the texts write, in their order.
    pub fn convert_dates_to_epoch(dates: &Vec<String>) -> (stamps: Vec<DateTime>)
        requires
            forall|i: int| 0 <= i < dates.len() ==> dated(#[trigger] dates[i]@),
        ensures
            stamps.len() == dates.len(),
            forall|i: int|
                0 <= i < dates.len() ==> stamp_named(#[trigger] dates[i]@) == Some(stamps[i] as int),
            forall|i: int|
                0 <= i < dates.len() ==> first_of_month(stamps[i]) == (date_named(
                    #[trigger] dates[i]@,
                ).unwrap().2 == 1),
    {
        let mut res: Vec<DateTime> = Vec::new();
        let mut i: usize = 0;
        while i < dates.len()
            invariant
                i <= dates.len(),
                res.len() == i,
                forall|k: int| 0 <= k < dates.len() ==> dated(#[trigger] dates[k]@),
                forall|k: int|
                    0 <= k < i ==> stamp_named(#[trigger] dates[k]@) == Some(res[k] as int),
                forall|k: int|
                    0 <= k < i ==> first_of_month(res[k]) == (date_named(
                        #[trigger] dates[k]@,
                    ).unwrap().2 == 1),
            decreases dates.len() - i,
        {
            match parse_date(dates[i].as_str()) {
                Some(stamp) => {
                    res.push(stamp);
                },
                None => {
                    assert(dated(dates[i as int]@));
                    assert(false);
                },
            }
            i = i + 1;
        }
        res
    }

    /// The dates that fall on the first day of a month, in their order.
    pub fn filter_monthly(dates: &Vec<DateTime>) -> (monthly: Vec<DateTime>)
        ensures
            monthly@ == dates@.filter(|date: DateTime| first_of_month(date)),
    {
        let mut res: Vec<DateTime> = Vec::new();
        let mut i: usize = 0;
        while i < dates.len()
            invariant
                i <= dates.len(),
                res@ == dates@.take(i as int).filter(|date: DateTime| first_of_month(date)),
            decreases dates.len() - i,
        {
            let date = dates[i];
            proof {
                assert(dates@.take(i + 1).drop_last() == dates@.take(i as int));
                reveal(Seq::filter);
            }
            match day_of(date) {
                Some(day) => {
                    if day == 1 {
                        res.push(date);
                    }
                },
                None => {},
            }
            i = i + 1;
        }
        proof {
            assert(dates@.take(i as int) == dates@);
        }
        res
    }
}

/// The error of a run that was given too few prices.
#[derive(Clone, Copy, Debug, PartialEq, Eq, Structural)]
pub struct AntevortaInsufficientDataError;

impl AntevortaInsufficientDataError {
    /// What the error says.
    pub fn message(&self) -> (text: &'static str)
        ensures
            text@ == "Insufficient Data Error"@,
    {
        "Insufficient Data Error"
    }
}

} // verus!

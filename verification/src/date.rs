//! Calendar dates of the proleptic Gregorian calendar, held as a year and a
//! day of the year.
//!
//! The arithmetic on dates is done by the `time` crate. This module states
//! what it relies on from that crate and offers the dates as plain values.

use time::error::ComponentRange;
use vstd::prelude::*;

verus! {

/// First year that a date can lie in.
pub const MIN_YEAR: i32 = -9999;

/// Last year that a date can lie in.
pub const MAX_YEAR: i32 = 9999;

/// Format description of the short day label of a reading, such as `5 Jan`.
pub const DAY_MONTH: &'static str = "[day padding:none] [month repr:short]";

/// The range error of the `time` crate, kept as it is handed out.
#[verifier::external_type_specification]
#[verifier::external_body]
pub struct ExComponentRange(ComponentRange);

/// Whether `year` is a leap year of the proleptic Gregorian calendar.
pub open spec fn is_leap_year(year: int) -> bool {
    year % 4 == 0 && (year % 100 != 0 || year % 400 == 0)
}

/// Number of days of `year`.
pub open spec fn days_in_year(year: int) -> int {
    if is_leap_year(year) {
        366
    } else {
        365
    }
}

/// Number of days of the month numbered `month` (1 to 12) in `year`.
pub open spec fn days_in_month(year: int, month: int) -> int {
    if month == 2 {
        if is_leap_year(year) {
            29
        } else {
            28
        }
    } else if month == 4 || month == 6 || month == 9 || month == 11 {
        30
    } else {
        31
    }
}

/// Number of days of `year` that lie before the first of the month numbered
/// `month` (1 to 12).
pub open spec fn days_before_month(year: int, month: int) -> int
    decreases month,
{
    if month <= 1 {
        0
    } else {
        days_before_month(year, month - 1) + days_in_month(year, month - 1)
    }
}

/// Whether day `day` of month `month` exists in `year`, and `year` is one that
/// a date can lie in.
pub open spec fn is_calendar_date(year: int, month: int, day: int) -> bool {
    &&& MIN_YEAR <= year <= MAX_YEAR
    &&& 1 <= month <= 12
    &&& 1 <= day <= days_in_month(year, month)
}

/// Whether `year` has a day numbered `ordinal`, and is one that a date can lie
/// in.
pub open spec fn is_ordinal_date(year: int, ordinal: int) -> bool {
    &&& MIN_YEAR <= year <= MAX_YEAR
    &&& 1 <= ordinal <= days_in_year(year)
}

/// Day of the year of a calendar date, counted from 1 for the first of
/// January.
pub open spec fn ordinal_of(year: int, month: int, day: int) -> int {
    days_before_month(year, month) + day
}

/// Number of the day `ordinal` of `year` among all days, counted from 1 for
/// the 1st of January of the year 1.
pub open spec fn day_number(year: int, ordinal: int) -> int {
    365 * (year - 1) + (year - 1) / 4 - (year - 1) / 100 + (year - 1) / 400 + ordinal
}

/// Day of the week of the day `ordinal` of `year`, counted from 0 for Sunday.
pub open spec fn weekday(year: int, ordinal: int) -> int {
    day_number(year, ordinal) % 7
}

/// What formatting the day `ordinal` of `year` by the format description
/// `description` gives: `None` where there is no such day, where the
/// description is not well formed, or where the day cannot be formatted by it.
pub uninterp spec fn formatted_date(year: int, ordinal: int, description: Seq<char>) -> Option<
    Seq<char>,
>;

/// How the day `ordinal` of `year` is written out in full, year first; `None`
/// where there is no such day.
pub uninterp spec fn displayed_date(year: int, ordinal: int) -> Option<Seq<char>>;

/// Asks `time::util::is_leap_year` whether `year` is a leap year. Trusted: the
/// answer is that of the Gregorian rule, for every year.
#[verifier::external_body]
fn leap_year(year: i32) -> (leap: bool)
    ensures
        leap == is_leap_year(year as int),
{
    time::util::is_leap_year(year)
}

/// Has `time::Date::from_calendar_date` build the date and hands back its
/// `ordinal()`; the month goes in through `time::Month::try_from`. Trusted:
/// the call succeeds exactly on the days that exist, in the years from
/// `MIN_YEAR` to `MAX_YEAR`, and the ordinal counts the days of the year up to
/// and including the date.
#[verifier::external_body]
fn calendar_ordinal(year: i32, month: u8, day: u8) -> (ordinal: Result<u16, ComponentRange>)
    ensures
        ordinal is Ok <==> is_calendar_date(year as int, month as int, day as int),
        ordinal matches Ok(o) ==> o == ordinal_of(year as int, month as int, day as int),
{
    let month = time::Month::try_from(month)?;
    Ok(time::Date::from_calendar_date(year, month, day)?.ordinal())
}

/// Formats a date with `time::Date::format`, after
/// `time::Date::from_ordinal_date` has built it and
/// `time::format_description::parse_borrowed` has read the description.
/// Trusted: the text depends on the three arguments alone.
#[verifier::external_body]
fn format_ordinal_date(year: i32, ordinal: u16, description: &str) -> (text: Option<String>)
    ensures
        text is Some <==> formatted_date(year as int, ordinal as int, description@) is Some,
        text matches Some(t) ==> formatted_date(year as int, ordinal as int, description@)
            == Some(t@),
{
    let date = time::Date::from_ordinal_date(year, ordinal).ok()?;
    let items = time::format_description::parse_borrowed::<1>(description).ok()?;
    date.format(&items).ok()
}

/// Writes a date out through the `Display` impl of `time::Date`, after
/// `time::Date::from_ordinal_date` has built it. Trusted: the text depends on
/// the two arguments alone.
#[verifier::external_body]
fn display_ordinal_date(year: i32, ordinal: u16) -> (text: Option<String>)
    ensures
        text is Some <==> displayed_date(year as int, ordinal as int) is Some,
        text matches Some(t) ==> displayed_date(year as int, ordinal as int) == Some(t@),
{
    time::Date::from_ordinal_date(year, ordinal).ok().map(|date| date.to_string())
}

/// A day, named by its year and its number within the year.
#[derive(Clone, Copy, Debug, PartialEq, Eq, Structural)]
pub struct Date {
    pub year: i32,
    pub ordinal: u16,
}

impl Date {
    /// Whether the date names a day that exists.
    pub open spec fn valid(self) -> bool {
        is_ordinal_date(self.year as int, self.ordinal as int)
    }

    /// The date of day `day` of month `month` in `year`, where that day
    /// exists; the range error of the `time` crate where it does not.
    pub fn from_calendar_date(year: i32, month: u8, day: u8) -> (date: Result<
        Date,
        ComponentRange,
    >)
        ensures
            date is Ok <==> is_calendar_date(year as int, month as int, day as int),
            date matches Ok(d) ==> d.year == year && d.ordinal == ordinal_of(
                year as int,
                month as int,
                day as int,
            ) && d.valid(),
    {
        match calendar_ordinal(year, month, day) {
            Ok(ordinal) => {
                proof {
                    lemma_ordinal_in_year(year as int, month as int, day as int);
                }
                Ok(Date { year, ordinal })
            },
            Err(e) => Err(e),
        }
    }

    /// The date of the day numbered `ordinal` in `year`, where that day
    /// exists.
    pub fn from_ordinal_date(year: i32, ordinal: u16) -> (date: Option<Date>)
        ensures
            date is Some <==> is_ordinal_date(year as int, ordinal as int),
            date matches Some(d) ==> d.year == year && d.ordinal == ordinal,
    {
        if year < MIN_YEAR || year > MAX_YEAR || ordinal < 1 {
            return None;
        }
        let last: u16 = if leap_year(year) {
            366
        } else {
            365
        };
        if ordinal > last {
            None
        } else {
            Some(Date { year, ordinal })
        }
    }

    /// The year of the date.
    pub fn year(&self) -> (year: i32)
        ensures
            year == self.year,
    {
        self.year
    }

    /// The day of the year, counted from 1.
    pub fn ordinal(&self) -> (ordinal: u16)
        ensures
            ordinal == self.ordinal,
    {
        self.ordinal
    }

    /// The date as text in the form that `description` asks for, in the
    /// notation of the `time` crate; `None` where that gives no text.
    pub fn format(&self, description: &str) -> (text: Option<String>)
        ensures
            text is Some <==> formatted_date(
                self.year as int,
                self.ordinal as int,
                description@,
            ) is Some,
            text matches Some(t) ==> formatted_date(
                self.year as int,
                self.ordinal as int,
                description@,
            ) == Some(t@),
    {
        format_ordinal_date(self.year, self.ordinal, description)
    }

    /// The date written out in full, year first; `None` where the date names
    /// no day.
    pub fn to_text(&self) -> (text: Option<String>)
        ensures
            text is Some <==> displayed_date(self.year as int, self.ordinal as int) is Some,
            text matches Some(t) ==> displayed_date(self.year as int, self.ordinal as int)
                == Some(t@),
    {
        display_ordinal_date(self.year, self.ordinal)
    }
}

/// Whether `year` is a leap year.
pub fn is_leap(year: i32) -> (leap: bool)
    ensures
        leap == is_leap_year(year as int),
{
    leap_year(year)
}

/// The months before `month` fill as many days as their lengths add up to.
pub proof fn lemma_days_before_month(year: int, month: int)
    requires
        1 <= month <= 12,
    ensures
        days_before_month(year, month) == if month == 1 {
            0int
        } else if month == 2 {
            31
        } else {
            let leap: int = if is_leap_year(year) {
                1
            } else {
                0
            };
            leap + if month == 3 {
                59int
            } else if month == 4 {
                90
            } else if month == 5 {
                120
            } else if month == 6 {
                151
            } else if month == 7 {
                181
            } else if month == 8 {
                212
            } else if month == 9 {
                243
            } else if month == 10 {
                273
            } else if month == 11 {
                304
            } else {
                334
            }
        },
{
    reveal_with_fuel(days_before_month, 13);
}

/// The ordinal of a day that exists lies within its year.
pub proof fn lemma_ordinal_in_year(year: int, month: int, day: int)
    requires
        is_calendar_date(year, month, day),
    ensures
        is_ordinal_date(year, ordinal_of(year, month, day)),
{
    lemma_days_before_month(year, month);
}

} // verus!

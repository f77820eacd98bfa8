//! The calendar of daily readings: the date of Easter, the cycle of numbered
//! days fitted to the length of the year, and the movable feasts set into it.

use crate::date::{
    day_number, days_in_year, formatted_date, is_calendar_date, is_leap, is_leap_year,
    is_ordinal_date, lemma_days_before_month, ordinal_of, weekday, Date, DAY_MONTH, MAX_YEAR,
};
use crate::readings::{EASTER, EVENING, MORNING, PSALM_EVENING, PSALM_MORNING};
use crate::utils::text::{chars_of, find, first_occurrence, occurs};
use time::error::ComponentRange;
use vstd::prelude::*;

verus! {

/// Why no calendar of readings could be made.
#[derive(Debug)]
pub enum Error {
    /// The date worked out for Easter is no day of the calendar.
    Easter(ComponentRange),
}

impl Error {
    /// The error in words, as the contracts see them.
    pub open spec fn message_text(&self) -> Seq<char> {
        "Failed to calculate date of Easter"@
    }

    /// The error in words.
    pub fn message(&self) -> (text: String)
        ensures
            text@ == self.message_text(),
    {
        "Failed to calculate date of Easter".to_owned()
    }
}

/// The readings of one day.
#[derive(Clone, Copy, Debug)]
pub struct LecEntry {
    /// The day the readings fall on, once the calendar has been dated.
    pub date: Option<Date>,
    /// Psalm, Old Testament lesson and New Testament lesson of the morning.
    pub morning: [&'static str; 3],
    /// Psalm, Old Testament lesson and New Testament lesson of the evening.
    pub evening: [&'static str; 3],
    /// The name of the feast, on a feast day.
    pub dscr: Option<&'static str>,
}

/// Quotient of `a` by a positive `b`, rounded towards zero.
pub open spec fn quotient(a: int, b: int) -> int {
    if a >= 0 {
        a / b
    } else {
        -((-a) / b)
    }
}

/// Remainder that `quotient` leaves: it has the sign of `a`.
pub open spec fn remainder(a: int, b: int) -> int {
    if a >= 0 {
        a % b
    } else {
        -((-a) % b)
    }
}

/// Days from the 21st of March to the paschal full moon of `year`.
pub open spec fn epact_days(year: int) -> int {
    let a = remainder(year, 19);
    let b = quotient(year, 100);
    let d = quotient(b, 4);
    let f = quotient(b + 8, 25);
    let g = quotient(b - f + 1, 3);
    remainder(19 * a + b - d - g + 15, 30)
}

/// Days from the paschal full moon of `year` to the Sunday after it.
pub open spec fn sunday_days(year: int) -> int {
    let b = quotient(year, 100);
    let c = remainder(year, 100);
    let e = remainder(b, 4);
    let i = quotient(c, 4);
    let k = remainder(c, 4);
    remainder(32 + 2 * e + 2 * i - epact_days(year) - k, 7)
}

/// The number from which month and day of Easter are read off: 31 times the
/// month, plus the day, less one.
#[verifier::opaque]
pub open spec fn easter_number(year: int) -> int {
    let a = remainder(year, 19);
    let h = epact_days(year);
    let l = sunday_days(year);
    let m = quotient(a + 11 * h + 22 * l, 451);
    h + l - 7 * m + 114
}

/// Month of Easter Sunday in `year`, by the Gregorian computus.
pub open spec fn easter_month(year: int) -> int {
    quotient(easter_number(year), 31)
}

/// Day of the month of Easter Sunday in `year`, by the Gregorian computus.
pub open spec fn easter_day(year: int) -> int {
    remainder(easter_number(year), 31) + 1
}

/// Whether the computus names a day of the calendar for `year`.
pub open spec fn easter_exists(year: int) -> bool {
    is_calendar_date(year, easter_month(year), easter_day(year))
}

/// Day of the year of Easter Sunday in `year`, counted from 1.
pub open spec fn easter_ordinal(year: int) -> int {
    ordinal_of(year, easter_month(year), easter_day(year))
}

/// The computus stays between the middle of February and the end of April,
/// whatever the year.
pub proof fn lemma_easter_number_bounds(year: int)
    ensures
        79 <= easter_number(year) <= 149,
        2 <= easter_month(year) <= 4,
        1 <= easter_day(year) <= 31,
        easter_number(year) == 31 * easter_month(year) + easter_day(year) - 1,
{
    reveal(easter_number);
}

/// In the years from 0 to 9999 the computus names a day from the 22nd of
/// March to the 25th of April.
pub proof fn lemma_easter_in_spring(year: int)
    requires
        0 <= year <= 9999,
    ensures
        easter_exists(year),
        easter_month(year) == 3 || easter_month(year) == 4,
        easter_month(year) == 3 ==> 22 <= easter_day(year),
        easter_month(year) == 4 ==> easter_day(year) <= 25,
{
    reveal(easter_number);
}

/// Works out `epact_days` of `year`.
fn epact(year: i32) -> (h: i32)
    ensures
        h == epact_days(year as int),
        -29 <= h <= 29,
{
    let aa: i32 = year % 19;
    let bb: i32 = year / 100;
    let dd: i32 = bb / 4;
    let ff: i32 = (bb + 8) / 25;
    let gg: i32 = (bb - ff + 1) / 3;
    (19 * aa + bb - dd - gg + 15) % 30
}

/// Works out `sunday_days` of `year` from its `epact_days`.
fn sunday(year: i32, hh: i32) -> (l: i32)
    requires
        hh == epact_days(year as int),
        -29 <= hh <= 29,
    ensures
        l == sunday_days(year as int),
        -6 <= l <= 6,
{
    let bb: i32 = year / 100;
    let cc: i32 = year % 100;
    let ee: i32 = bb % 4;
    let ii: i32 = cc / 4;
    let kk: i32 = cc % 4;
    (32 + 2 * ee + 2 * ii - hh - kk) % 7
}

/// The leap days up to the end of a year, counted by the centuries and the
/// years of the century.
proof fn lemma_leap_days(year: int)
    requires
        0 <= year,
    ensures
        (year - 1) / 4 - (year - 1) / 100 + (year - 1) / 400 + (if is_leap_year(year) {
            1int
        } else {
            0int
        }) == 24 * (year / 100) + (year / 100) / 4 + (year % 100) / 4,
{
}

/// Easter Sunday is as many days into the year as the number of the computus
/// says, counted from the 2nd of February of a year without a leap day.
proof fn lemma_easter_ordinal(year: int)
    requires
        0 <= year,
    ensures
        easter_ordinal(year) == easter_number(year) - 33 + (if is_leap_year(year) {
            1int
        } else {
            0int
        }),
{
    assert(easter_month(year) == 3 || easter_month(year) == 4) by {
        reveal(easter_number);
    }
    lemma_easter_number_bounds(year);
    lemma_days_before_month(year, easter_month(year));
}

/// The days from the full moon to Easter Sunday make up for the weekday of
/// the full moon.
proof fn lemma_sunday_days(year: int)
    requires
        0 <= year,
    ensures
        (5 * ((year / 100) % 4) + 5 * ((year % 100) / 4) + (year % 100) % 4 + epact_days(year)
            + sunday_days(year) + 3) % 7 == 0,
{
    let e = (year / 100) % 4;
    let i = (year % 100) / 4;
    let k = (year % 100) % 4;
    let h = epact_days(year);
    let rest = 32 + 2 * e + 2 * i - h - k;
    assert(-29 <= h <= 29);
    assert(rest >= 0);
    assert(sunday_days(year) == rest % 7);
    let l = rest % 7;
    let q = rest / 7;
    assert(rest == 7 * q + l);
    assert(5 * e + 5 * i + k + h + l + 3 == 7 * (e + i + 5 - q));
}

/// The number of the computus differs from the days to the full moon and on
/// to Sunday by whole weeks.
proof fn lemma_easter_number_weeks(year: int)
    ensures
        (easter_number(year) - epact_days(year) - sunday_days(year) - 114) % 7 == 0,
{
    reveal(easter_number);
    let a = remainder(year, 19);
    let m = quotient(a + 11 * epact_days(year) + 22 * sunday_days(year), 451);
    assert(easter_number(year) - epact_days(year) - sunday_days(year) - 114 == 7 * (-m));
}

/// In the years from 0 on, the day that the computus names is a Sunday.
pub proof fn lemma_easter_is_sunday(year: int)
    requires
        0 <= year,
    ensures
        weekday(year, easter_ordinal(year)) == 0,
{
    lemma_easter_ordinal(year);
    lemma_leap_days(year);
    lemma_sunday_days(year);
    lemma_easter_number_weeks(year);
    let b = year / 100;
    let c = year % 100;
    let d = b / 4;
    let e = b % 4;
    let i = c / 4;
    let k = c % 4;
    let h = epact_days(year);
    let l = sunday_days(year);
    let number = easter_number(year);
    let days = day_number(year, easter_ordinal(year));
    let x = 5 * e + 5 * i + k + h + l + 3;
    let y = number - h - l - 114;
    assert(year == 400 * d + 100 * e + 4 * i + k);
    assert(days == 365 * (year - 1) + 24 * b + d + i + number - 33);
    assert(days == 7 * (20871 * d + 5217 * e + 208 * i + 52 * k - 41) + x + y);
    lemma_sum_of_weeks(20871 * d + 5217 * e + 208 * i + 52 * k - 41, x, y);
}

/// Whole weeks add up to whole weeks.
proof fn lemma_sum_of_weeks(w: int, x: int, y: int)
    requires
        x % 7 == 0,
        y % 7 == 0,
    ensures
        (7 * w + x + y) % 7 == 0,
{
    assert(x == 7 * (x / 7));
    assert(y == 7 * (y / 7));
    assert(7 * w + x + y == 7 * (w + x / 7 + y / 7));
}

/// The date of Easter Sunday in `year`, by the Gregorian computus; an error
/// where the month and day it arrives at are no day of the calendar.
pub fn easter(year: i32) -> (date: Result<Date, Error>)
    ensures
        date is Ok <==> easter_exists(year as int),
        0 <= year <= MAX_YEAR ==> date is Ok,
        date matches Ok(d) ==> d.year == year && d.ordinal == easter_ordinal(year as int)
            && d.valid(),
        date matches Ok(d) ==> 0 <= year ==> weekday(d.year as int, d.ordinal as int) == 0,
{
    proof {
        if 0 <= year {
            lemma_easter_is_sunday(year as int);
        }
        if 0 <= year <= MAX_YEAR {
            lemma_easter_in_spring(year as int);
        }
    }
    let aa: i32 = year % 19;
    let hh: i32 = epact(year);
    let ll: i32 = sunday(year, hh);
    let mm: i32 = (aa + 11 * hh + 22 * ll) / 451;
    let number: i32 = hh + ll - 7 * mm + 114;
    proof {
        reveal(easter_number);
        lemma_easter_number_bounds(year as int);
    }
    let month: u8 = (number / 31) as u8;
    let day: u8 = (number % 31 + 1) as u8;
    match Date::from_calendar_date(year, month, day) {
        Ok(date) => Ok(date),
        Err(range) => Err(Error::Easter(range)),
    }
}

/// Number of the numbered days of the reading cycle.
pub const CYCLE_DAYS: usize = 360;

/// Number of days after which the Psalter starts over.
pub const PSALTER_DAYS: usize = 30;

/// The numbered day, counted from 0, that is left out of a year without a
/// leap day.
pub const OMITTED_DAY: usize = 58;

/// Number of the movable feasts.
pub const FEAST_COUNT: usize = 6;

/// The readings of the numbered day `day` of the cycle, counted from 0: the
/// lessons of that day, with the Psalms that the Psalter has reached.
pub open spec fn cycle_entry(day: int) -> LecEntry {
    LecEntry {
        date: None,
        morning: [PSALM_MORNING[day % 30], MORNING[day][0], MORNING[day][1]],
        evening: [PSALM_EVENING[day % 30], EVENING[day][0], EVENING[day][1]],
        dscr: None,
    }
}

/// Number of the entries of the cycle in `year`, before the feasts are set in.
pub open spec fn skeleton_len(year: int) -> int {
    if is_leap_year(year) {
        360
    } else {
        359
    }
}

/// The numbered day that stands at place `place` of the cycle in `year`.
pub open spec fn skeleton_day(year: int, place: int) -> int {
    if is_leap_year(year) || place < 58 {
        place
    } else {
        place + 1
    }
}

/// The cycle of `year`, before the feasts are set in: all numbered days in a
/// leap year, all but the one numbered `OMITTED_DAY` in any other.
pub open spec fn skeleton(year: int) -> Seq<LecEntry> {
    Seq::new(skeleton_len(year) as nat, |place: int| cycle_entry(skeleton_day(year, place)))
}

/// The readings of the numbered day `day` of the cycle.
fn cycle_day(day: usize) -> (entry: LecEntry)
    requires
        day < CYCLE_DAYS,
    ensures
        entry == cycle_entry(day as int),
{
    let psalm: usize = day % PSALTER_DAYS;
    let m = MORNING[day];
    let e = EVENING[day];
    LecEntry {
        date: None,
        morning: [PSALM_MORNING[psalm], m[0], m[1]],
        evening: [PSALM_EVENING[psalm], e[0], e[1]],
        dscr: None,
    }
}

/// The cycle of readings fitted to the length of `year`, without dates and
/// without the feasts.
pub fn lec_skeleton(year: i32) -> (entries: Vec<LecEntry>)
    ensures
        entries@ == skeleton(year as int),
{
    let mut entries: Vec<LecEntry> = Vec::new();
    let mut day: usize = 0;
    while day < CYCLE_DAYS
        invariant
            day <= CYCLE_DAYS,
            entries@.len() == day,
            forall|i: int| 0 <= i < day ==> entries@[i] == cycle_entry(i),
        decreases CYCLE_DAYS - day,
    {
        entries.push(cycle_day(day));
        day = day + 1;
    }
    if !is_leap(year) {
        entries.remove(OMITTED_DAY);
    }
    assert(entries@ =~= skeleton(year as int));
    entries
}

/// The name of the movable feast numbered `feast`, in calendar order from 0.
pub open spec fn feast_name(feast: int) -> &'static str {
    if feast == 0 {
        "Ash Wednesday"
    } else if feast == 1 {
        "Maundy Thursday"
    } else if feast == 2 {
        "Good Friday"
    } else if feast == 3 {
        "Holy Saturday"
    } else if feast == 4 {
        "Easter Sunday"
    } else {
        "Ascension Day"
    }
}

/// How many days after Easter Sunday the feast numbered `feast` falls; before
/// it, where the number is negative.
pub open spec fn feast_offset(feast: int) -> int {
    if feast == 0 {
        -46
    } else if feast == 1 {
        -3
    } else if feast == 2 {
        -2
    } else if feast == 3 {
        -1
    } else if feast == 4 {
        0
    } else {
        39
    }
}

/// The proper readings of the feast numbered `feast`, under its name.
pub open spec fn feast_entry(feast: int) -> LecEntry {
    LecEntry {
        date: None,
        morning: EASTER[feast][0],
        evening: EASTER[feast][1],
        dscr: Some(feast_name(feast)),
    }
}

/// `entries` with the six feasts set in, one after the other in calendar
/// order, each at the place that its offset from `easter` names at the time
/// it goes in. `easter` is the place of Easter Sunday, counted from 0.
pub open spec fn with_feasts(entries: Seq<LecEntry>, easter: int) -> Seq<LecEntry> {
    entries.insert(easter - 46, feast_entry(0)).insert(easter - 3, feast_entry(1)).insert(
        easter - 2,
        feast_entry(2),
    ).insert(easter - 1, feast_entry(3)).insert(easter, feast_entry(4)).insert(
        easter + 39,
        feast_entry(5),
    )
}

/// `entry` on the day numbered `ordinal` of `year`.
pub open spec fn on_day(entry: LecEntry, year: int, ordinal: int) -> LecEntry {
    LecEntry {
        date: Some(Date { year: year as i32, ordinal: ordinal as u16 }),
        morning: entry.morning,
        evening: entry.evening,
        dscr: entry.dscr,
    }
}

/// `entries` laid over the days of `year`, the first on the 1st of January.
pub open spec fn dated(entries: Seq<LecEntry>, year: int) -> Seq<LecEntry> {
    Seq::new(entries.len(), |place: int| on_day(entries[place], year, place + 1))
}

/// The calendar of readings of `year`: the cycle fitted to the year, the
/// feasts set in around the place of Easter Sunday, and every entry on its
/// day.
#[verifier::opaque]
pub open spec fn lectionary(year: int) -> Seq<LecEntry> {
    dated(with_feasts(skeleton(year), easter_ordinal(year) - 1), year)
}

/// The proper readings of the feast numbered `feast`.
fn feast(number: usize) -> (entry: LecEntry)
    requires
        number < FEAST_COUNT,
    ensures
        entry == feast_entry(number as int),
{
    let readings = EASTER[number];
    let name: &'static str = if number == 0 {
        "Ash Wednesday"
    } else if number == 1 {
        "Maundy Thursday"
    } else if number == 2 {
        "Good Friday"
    } else if number == 3 {
        "Holy Saturday"
    } else if number == 4 {
        "Easter Sunday"
    } else {
        "Ascension Day"
    };
    LecEntry { date: None, morning: readings[0], evening: readings[1], dscr: Some(name) }
}

/// Easter Sunday is at least 47 days into the year and leaves more than 39
/// days of the cycle after it, wherever the computus names a day.
pub proof fn lemma_feasts_fit(year: int)
    requires
        easter_exists(year),
    ensures
        48 <= easter_ordinal(year) <= 121,
{
    lemma_easter_number_bounds(year);
    lemma_days_before_month(year, easter_month(year));
}

/// The calendar of readings of `year`, one entry for each day from the 1st
/// of January on; an error where Easter cannot be dated.
pub fn lec(year: i32) -> (entries: Result<Vec<LecEntry>, Error>)
    ensures
        entries is Ok <==> easter_exists(year as int),
        0 <= year <= MAX_YEAR ==> entries is Ok,
        entries matches Ok(v) ==> v@ == lectionary(year as int) && v@.len() == days_in_year(
            year as int,
        ),
{
    let mut entries = lec_skeleton(year);
    let easter: usize = match easter(year) {
        Ok(date) => (date.ordinal() - 1) as usize,
        Err(e) => {
            return Err(e);
        },
    };
    proof {
        lemma_feasts_fit(year as int);
    }
    entries.insert(easter - 46, feast(0));
    entries.insert(easter - 3, feast(1));
    entries.insert(easter - 2, feast(2));
    entries.insert(easter - 1, feast(3));
    entries.insert(easter, feast(4));
    entries.insert(easter + 39, feast(5));
    let ghost undated = entries@;
    assert(undated == with_feasts(skeleton(year as int), easter as int));
    let mut place: usize = 0;
    while place < entries.len()
        invariant
            place <= entries@.len(),
            entries@.len() == undated.len(),
            undated.len() <= 366,
            forall|i: int| 0 <= i < place ==> entries@[i] == on_day(undated[i], year as int, i + 1),
            forall|i: int| place <= i < entries@.len() ==> entries@[i] == undated[i],
        decreases entries@.len() - place,
    {
        let entry = entries[place];
        let date = Date { year, ordinal: (place + 1) as u16 };
        entries.set(
            place,
            LecEntry {
                date: Some(date),
                morning: entry.morning,
                evening: entry.evening,
                dscr: entry.dscr,
            },
        );
        place = place + 1;
    }
    proof {
        reveal(lectionary);
    }
    assert(entries@ =~= lectionary(year as int));
    Ok(entries)
}

/// Number of the feasts that stand before place `place` of a calendar in
/// which Easter Sunday stands at place `easter`.
pub open spec fn feasts_before(easter: int, place: int) -> int {
    if place <= easter - 46 {
        0
    } else if place <= easter - 3 {
        1
    } else if place <= easter - 2 {
        2
    } else if place <= easter - 1 {
        3
    } else if place <= easter {
        4
    } else if place <= easter + 39 {
        5
    } else {
        6
    }
}

/// Whether place `place` is that of a feast in a calendar in which Easter
/// Sunday stands at place `easter`.
pub open spec fn is_feast_place(easter: int, place: int) -> bool {
    exists|feast: int| 0 <= feast < 6 && place == easter + #[trigger] feast_offset(feast)
}

/// The calendar of a year has one entry for each of its days, in order from
/// the 1st of January, each dated with its day.
pub proof fn lemma_lectionary_fills_year(year: int)
    requires
        easter_exists(year),
    ensures
        lectionary(year).len() == days_in_year(year),
        forall|place: int|
            0 <= place < days_in_year(year) ==> (#[trigger] lectionary(year)[place]).date == Some(
                Date { year: year as i32, ordinal: (place + 1) as u16 },
            ) && is_ordinal_date(year, place + 1),
{
    reveal(lectionary);
    lemma_feasts_fit(year);
}

/// Each feast stands on the day that lies at its offset from Easter Sunday,
/// with its proper readings and its name: Ash Wednesday 46 days before, the
/// three days of Holy Week on the three days before, Easter Sunday itself on
/// the day that the computus names, and Ascension Day 39 days after.
pub proof fn lemma_feast_days(year: int, feast: int)
    requires
        easter_exists(year),
        0 <= feast < 6,
    ensures
        0 <= easter_ordinal(year) - 1 + feast_offset(feast) < lectionary(year).len(),
        lectionary(year)[easter_ordinal(year) - 1 + feast_offset(feast)] == on_day(
            feast_entry(feast),
            year,
            easter_ordinal(year) + feast_offset(feast),
        ),
{
    reveal(lectionary);
    lemma_feasts_fit(year);
}

/// The days that are no feast hold the cycle of the year in its order: each
/// holds the entry of the cycle that as many feasts have pushed back as stand
/// before it.
pub proof fn lemma_ordinary_days(year: int, place: int)
    requires
        easter_exists(year),
        0 <= place < days_in_year(year),
        !is_feast_place(easter_ordinal(year) - 1, place),
    ensures
        0 <= place - feasts_before(easter_ordinal(year) - 1, place) < skeleton(year).len(),
        lectionary(year)[place] == on_day(
            skeleton(year)[place - feasts_before(easter_ordinal(year) - 1, place)],
            year,
            place + 1,
        ),
{
    reveal(lectionary);
    lemma_feasts_fit(year);
    let easter = easter_ordinal(year) - 1;
    assert(place != easter + feast_offset(0));
    assert(place != easter + feast_offset(1));
    assert(place != easter + feast_offset(2));
    assert(place != easter + feast_offset(3));
    assert(place != easter + feast_offset(4));
    assert(place != easter + feast_offset(5));
}

/// The cycle of a leap year has exactly one entry more than the cycle of the
/// year before it, which is never a leap year; and in both years every feast
/// stands on the day that lies at its offset from that year's Easter Sunday.
pub proof fn lemma_leap_year_has_one_more(year: int, feast: int)
    requires
        is_leap_year(year),
        easter_exists(year),
        easter_exists(year - 1),
        0 <= feast < 6,
    ensures
        !is_leap_year(year - 1),
        skeleton(year).len() == skeleton(year - 1).len() + 1,
        lectionary(year).len() == lectionary(year - 1).len() + 1,
        lectionary(year)[easter_ordinal(year) - 1 + feast_offset(feast)].dscr == Some(
            feast_name(feast),
        ),
        lectionary(year - 1)[easter_ordinal(year - 1) - 1 + feast_offset(feast)].dscr == Some(
            feast_name(feast),
        ),
{
    lemma_lectionary_fills_year(year);
    lemma_lectionary_fills_year(year - 1);
    lemma_feast_days(year, feast);
    lemma_feast_days(year - 1, feast);
}

/// One row of the table of readings: what stands in its first cell, and the
/// readings of the morning and of the evening.
#[derive(Debug)]
pub struct Row {
    pub label: String,
    pub morning: [&'static str; 3],
    pub evening: [&'static str; 3],
}

/// How the day of an entry is written in the table: day and month in short,
/// or a note that there is no date.
pub open spec fn day_text(date: Option<Date>) -> Seq<char> {
    match date {
        Some(d) => match formatted_date(d.year as int, d.ordinal as int, DAY_MONTH@) {
            Some(text) => text,
            None => "No date"@,
        },
        None => "No date"@,
    }
}

/// What stands in the first cell of the row of `entry`: its day, and on a
/// feast the name of the feast on a line of its own.
pub open spec fn row_label(entry: LecEntry) -> Seq<char> {
    day_text(entry.date) + match entry.dscr {
        Some(name) => "<br>"@ + name@,
        None => Seq::empty(),
    }
}

/// What stands in the first cell of the row that shows the readings of
/// `today`.
pub open spec fn today_label(today: Date) -> Seq<char> {
    "Today's Reading ("@ + day_text(Some(today)) + ")"@
}

/// How the day of an entry is written in the table.
pub fn day_label(date: Option<Date>) -> (text: String)
    ensures
        text@ == day_text(date),
{
    match date {
        Some(d) => match d.format(DAY_MONTH) {
            Some(text) => text,
            None => "No date".to_owned(),
        },
        None => "No date".to_owned(),
    }
}

/// What stands in the first cell of the row of `entry`.
pub fn date_label(entry: &LecEntry) -> (label: String)
    ensures
        label@ == row_label(*entry),
{
    let mut label = day_label(entry.date);
    match entry.dscr {
        Some(name) => {
            label.append("<br>");
            label.append(name);
        },
        None => {},
    }
    label
}

/// The rows of the table of readings, one for each entry of the calendar in
/// its order.
pub fn table_rows(entries: &Vec<LecEntry>) -> (rows: Vec<Row>)
    ensures
        rows@.len() == entries@.len(),
        forall|i: int|
            0 <= i < rows@.len() ==> (#[trigger] rows@[i]).label@ == row_label(entries@[i])
                && rows@[i].morning == entries@[i].morning && rows@[i].evening
                == entries@[i].evening,
{
    let mut rows: Vec<Row> = Vec::new();
    let mut at: usize = 0;
    while at < entries.len()
        invariant
            at <= entries@.len(),
            rows@.len() == at,
            forall|i: int|
                0 <= i < at ==> (#[trigger] rows@[i]).label@ == row_label(entries@[i])
                    && rows@[i].morning == entries@[i].morning && rows@[i].evening
                    == entries@[i].evening,
        decreases entries@.len() - at,
    {
        let entry = &entries[at];
        rows.push(Row { label: date_label(entry), morning: entry.morning, evening: entry.evening });
        at = at + 1;
    }
    rows
}

/// The row that shows the readings of `today`: those of the entry that the
/// calendar holds for the day of the year that `today` is. `None` where the
/// calendar holds no entry for that day.
pub fn todays_row(entries: &Vec<LecEntry>, today: Date) -> (row: Option<Row>)
    ensures
        row is Some <==> 1 <= today.ordinal <= entries@.len(),
        row matches Some(r) ==> r.label@ == today_label(today) && r.morning
            == entries@[today.ordinal - 1].morning && r.evening
            == entries@[today.ordinal - 1].evening,
{
    let ordinal = today.ordinal() as usize;
    if ordinal < 1 || ordinal > entries.len() {
        return None;
    }
    let entry = &entries[ordinal - 1];
    let mut label = "Today's Reading (".to_owned();
    label.append(day_label(Some(today)).as_str());
    label.append(")");
    Some(Row { label, morning: entry.morning, evening: entry.evening })
}

/// The heading after which the readings of today are set into the page.
pub const FIRST_HEADING_END: &'static str = "</h1>";

/// The heading under which the whole calendar stands.
pub const FULL_HEADING: &'static str = "<h2>Full Lectionary</h2>";

/// The body of the page of readings: the markup `page` of the page, with the
/// table `today` of the readings of today set in behind its first heading,
/// and the heading and the table `full` of the whole calendar at its end.
/// `None` where the page has no first heading.
pub open spec fn page_with_tables(page: Seq<char>, today: Seq<char>, full: Seq<char>) -> Option<
    Seq<char>,
> {
    if occurs(page, FIRST_HEADING_END@) {
        let at = first_occurrence(page, FIRST_HEADING_END@);
        Some(
            page.take(at) + FIRST_HEADING_END@ + today + page.skip(at + FIRST_HEADING_END@.len())
                + FULL_HEADING@ + full,
        )
    } else {
        None
    }
}

/// The body of the page of readings, made of the markup of the page and the
/// two tables.
pub fn lectionary_content(page: &str, today: &str, full: &str) -> (content: Option<String>)
    ensures
        content is Some <==> page_with_tables(page@, today@, full@) is Some,
        content matches Some(c) ==> page_with_tables(page@, today@, full@) == Some(c@),
{
    let chars = chars_of(page);
    let needle = chars_of(FIRST_HEADING_END);
    let len = chars.len();
    match find(&chars, &needle) {
        Some(at) => {
            assert(at + needle@.len() <= len);
            let mut content = page.substring_char(0, at).to_owned();
            assert(content@ =~= page@.take(at as int));
            content.append(FIRST_HEADING_END);
            content.append(today);
            let rest = page.substring_char(at + needle.len(), len);
            assert(rest@ =~= page@.skip(at + FIRST_HEADING_END@.len()));
            content.append(rest);
            content.append(FULL_HEADING);
            content.append(full);
            Some(content)
        },
        None => None,
    }
}

} // verus!

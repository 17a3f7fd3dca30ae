//! Due dates: the three notations a user may write one in, and the moment a
//! date stands for, which is the last second of that day in the machine's
//! time zone.
//!
//! Reading a date and placing it in local time is chrono's work. What chrono
//! reads is a function of the text alone and has a name here,
//! [`chrono_parse_date`]. The local time zone and the current year belong to
//! the machine, so the functions that ask for them promise only what holds of
//! every answer: the moment that comes back is the date and time of day,
//! counted in seconds as if it were UTC, less the offset that the time zone
//! has there, and that offset is less than a day either way.
//!
//! chrono reads the clock for the current year and panics where the clock
//! stands before 1970.

use crate::decimal::{signed_decimal, signed_decimal_chars};
use crate::text::{append_chars, chars_of, framed, result_view, string_of};
use chrono::{Datelike, Local, NaiveDate, TimeZone};
use vstd::prelude::*;

verus! {

/// A day of the proleptic Gregorian calendar.
#[derive(Clone, Copy, Debug, PartialEq, Eq, Structural)]
pub struct CalendarDate {
    pub year: i32,
    pub month: u32,
    pub day: u32,
}

/// What became of a calendar date and a time of day in the local time zone.
#[derive(Clone, Copy, Debug, PartialEq, Eq, Structural)]
pub enum LocalMoment {
    /// The calendar has no such day, or the day no such time.
    Invalid,
    /// The local time zone skips this time or passes it twice.
    Unmapped,
    /// The moment, in seconds since the epoch, and the seconds that local
    /// time is ahead of UTC there.
    At { seconds: i64, offset: i32 },
}

/// Whether `year` is a leap year of the Gregorian calendar.
pub open spec fn is_leap_year(year: int) -> bool {
    year % 4 == 0 && (year % 100 != 0 || year % 400 == 0)
}

/// The days of the proleptic Gregorian calendar before the first of January
/// of `year`, counted from the first of January of the year 1.
pub open spec fn days_before_year(year: int) -> int {
    365 * (year - 1) + (year - 1) / 4 - (year - 1) / 100 + (year - 1) / 400
}

/// The days of `year` before the first of `month`.
pub open spec fn days_before_month(year: int, month: int) -> int {
    let leap: int = if month > 2 && is_leap_year(year) {
        1
    } else {
        0
    };
    leap + if month <= 1 {
        0int
    } else if month == 2 {
        31
    } else if month == 3 {
        59
    } else if month == 4 {
        90
    } else if month == 5 {
        120
    } else if month == 6 {
        151
    } else if month == 7 {
        181
    } else if month == 8 {
        212
    } else if month == 9 {
        243
    } else if month == 10 {
        273
    } else if month == 11 {
        304
    } else {
        334
    }
}

/// The number of a day in the proleptic Gregorian calendar, where the first
/// of January of the year 1 is day 1.
pub open spec fn day_number(date: (i32, u32, u32)) -> int {
    days_before_year(date.0 as int) + days_before_month(date.0 as int, date.1 as int) + date.2
}

/// The seconds from the first of January 1970, 00:00:00, to the given time
/// of the given day, both read in the same time zone. The first of January
/// 1970 is day 719 163.
pub open spec fn civil_seconds(date: (i32, u32, u32), hour: int, minute: int, second: int) -> int {
    (day_number(date) - 719_163) * 86_400 + hour * 3_600 + minute * 60 + second
}

/// Whether `moment` can be what the local time zone makes of the given time
/// of the given day: where it is a moment, it is that time counted as UTC,
/// less the offset, and the offset is less than a day either way.
pub open spec fn moment_fits(
    date: (i32, u32, u32),
    hour: int,
    minute: int,
    second: int,
    moment: LocalMoment,
) -> bool {
    moment matches LocalMoment::At { seconds, offset } ==> seconds == civil_seconds(
        date,
        hour,
        minute,
        second,
    ) - offset && -86_400 < offset < 86_400
}

/// Whether `moment` can be what the local time zone makes of the last second,
/// 23:59:59, of the day `date`, where there is such a day.
pub open spec fn end_of_day_fits(date: Option<(i32, u32, u32)>, moment: LocalMoment) -> bool {
    date matches Some(day) ==> moment_fits(day, 23, 59, 59, moment)
}

/// The year, month and day that `chrono::NaiveDate::parse_from_str` reads in
/// `text` under the strftime pattern `format`; `None` where it returns an
/// error.
pub uninterp spec fn chrono_parse_date(text: Seq<char>, format: Seq<char>) -> Option<
    (i32, u32, u32),
>;

/// The year, month and day of a date that may be absent.
pub open spec fn date_view(date: Option<CalendarDate>) -> Option<(i32, u32, u32)> {
    match date {
        Some(d) => Some((d.year, d.month, d.day)),
        None => None,
    }
}

/// Calls `chrono::NaiveDate::parse_from_str` and takes the year, month and
/// day of the date it returns. The contract only names that result.
#[verifier::external_body]
fn parse_date(text: &str, format: &str) -> (r: Option<CalendarDate>)
    ensures
        date_view(r) == chrono_parse_date(text@, format@),
{
    match NaiveDate::parse_from_str(text, format) {
        Ok(d) => Some(CalendarDate { year: d.year(), month: d.month(), day: d.day() }),
        Err(_) => None,
    }
}

/// Builds the date and time with `chrono::NaiveDate::from_ymd_opt` and
/// `and_hms_opt`, places it in the machine's time zone with
/// `chrono::Local.from_local_datetime(..).single()` and takes its
/// `timestamp()` and the `local_minus_utc()` of its `offset()`.
///
/// Which moment comes back depends on the time zone. What holds of every
/// answer: chrono takes the offset from the local time and counts the
/// seconds of the result from 1970 by the days of the proleptic Gregorian
/// calendar, and an offset of chrono is less than a day either way.
#[verifier::external_body]
fn local_moment(date: CalendarDate, hour: u32, minute: u32, second: u32) -> (r: LocalMoment)
    ensures
        moment_fits((date.year, date.month, date.day), hour as int, minute as int, second as int, r),
{
    let Some(day) = NaiveDate::from_ymd_opt(date.year, date.month, date.day) else {
        return LocalMoment::Invalid;
    };
    let Some(time) = day.and_hms_opt(hour, minute, second) else {
        return LocalMoment::Invalid;
    };
    match Local.from_local_datetime(&time).single() {
        Some(t) => LocalMoment::At {
            seconds: t.timestamp(),
            offset: t.offset().local_minus_utc(),
        },
        None => LocalMoment::Unmapped,
    }
}

/// The year of `chrono::Local::now()`. It depends on the clock, so nothing is
/// promised of it. chrono panics where the clock stands before 1970.
#[verifier::external_body]
fn current_local_year() -> i32 {
    Local::now().year()
}

/// The first of two readings that found a date.
pub open spec fn first_of(first: Option<(i32, u32, u32)>, second: Option<(i32, u32, u32)>) -> Option<
    (i32, u32, u32),
> {
    if first is Some {
        first
    } else {
        second
    }
}

/// The date that `text` writes with its year: `YYYY-MM-DD` is tried first,
/// then `MM/DD/YYYY`.
pub open spec fn dated_of(text: Seq<char>) -> Option<(i32, u32, u32)> {
    first_of(chrono_parse_date(text, "%Y-%m-%d"@), chrono_parse_date(text, "%m/%d/%Y"@))
}

/// The date that `text` writes without a year, `MM-DD`, read as a day of
/// `year`.
pub open spec fn undated_of(text: Seq<char>, year: int) -> Option<(i32, u32, u32)> {
    chrono_parse_date(signed_decimal(year) + seq!['-'] + text, "%Y-%m-%d"@)
}

/// The date that `text` writes for a reader in the year `year`. The notations
/// are tried in order and the first that matches wins: `YYYY-MM-DD`, then
/// `MM/DD/YYYY`, then `MM-DD`, which is read as a day of `year`.
pub open spec fn due_date_of(text: Seq<char>, year: int) -> Option<(i32, u32, u32)> {
    first_of(dated_of(text), undated_of(text, year))
}

/// The due date that `text` gives, once it is known what date it writes and
/// what moment the end of that day is: the moment, or the reason there is
/// none.
pub open spec fn due_date_result(
    text: Seq<char>,
    date: Option<(i32, u32, u32)>,
    moment: LocalMoment,
) -> Result<i64, Seq<char>> {
    match date {
        None => Err(
            "Invalid date format: "@ + text + ". Use YYYY-MM-DD, MM/DD/YYYY, or MM-DD"@,
        ),
        Some(_) => match moment {
            LocalMoment::At { seconds, offset } => Ok(seconds),
            LocalMoment::Invalid => Err("Invalid date"@),
            LocalMoment::Unmapped => Err("Invalid date conversion"@),
        },
    }
}

/// Executable form of [`due_date_result`].
pub fn due_date_outcome(text: &str, date: Option<CalendarDate>, moment: LocalMoment) -> (r: Result<
    i64,
    String,
>)
    ensures
        result_view(r) == due_date_result(text@, date_view(date), moment),
{
    match date {
        None => {
            let body = chars_of(text);
            Err(framed("Invalid date format: ", &body, ". Use YYYY-MM-DD, MM/DD/YYYY, or MM-DD"))
        },
        Some(_) => match moment {
            LocalMoment::At { seconds, offset: _ } => Ok(seconds),
            LocalMoment::Invalid => Err("Invalid date".to_owned()),
            LocalMoment::Unmapped => Err("Invalid date conversion".to_owned()),
        },
    }
}

/// `text` with `year` and a `-` in front: `08-10` in 2025 is `2025-08-10`.
pub fn with_year(year: i32, text: &str) -> (r: String)
    ensures
        r@ == signed_decimal(year as int) + seq!['-'] + text@,
{
    let mut v = signed_decimal_chars(year as i64);
    v.push('-');
    let rest = chars_of(text);
    append_chars(&mut v, &rest);
    string_of(&v)
}

/// The first of two readings that found a date.
pub fn first_date(first: Option<CalendarDate>, second: Option<CalendarDate>) -> (r: Option<
    CalendarDate,
>)
    ensures
        date_view(r) == first_of(date_view(first), date_view(second)),
{
    match first {
        Some(_) => first,
        None => second,
    }
}

/// The date that `text` writes with its year, if it writes one.
pub fn read_dated(text: &str) -> (r: Option<CalendarDate>)
    ensures
        date_view(r) == dated_of(text@),
{
    first_date(parse_date(text, "%Y-%m-%d"), parse_date(text, "%m/%d/%Y"))
}

/// The date that `text` writes without a year, read as a day of `year`.
pub fn read_undated(text: &str, year: i32) -> (r: Option<CalendarDate>)
    ensures
        date_view(r) == undated_of(text@, year as int),
{
    let dated = with_year(year, text);
    parse_date(dated.as_str(), "%Y-%m-%d")
}

/// The date that `text` writes for a reader in the year `year`.
pub fn read_due_date(text: &str, year: i32) -> (r: Option<CalendarDate>)
    ensures
        date_view(r) == due_date_of(text@, year as int),
{
    first_date(read_dated(text), read_undated(text, year))
}

/// Moving a number up by a multiple of 400 moves its quotients by 4, 100 and
/// 400 up by as much and leaves the remainders.
proof fn lemma_moved_up(a: int)
    ensures
        (a + 2_147_484_000) / 4 == a / 4 + 536_871_000,
        (a + 2_147_484_000) / 100 == a / 100 + 21_474_840,
        (a + 2_147_484_000) / 400 == a / 400 + 5_368_710,
        (a + 2_147_484_000) % 4 == a % 4,
        (a + 2_147_484_000) % 100 == a % 100,
        (a + 2_147_484_000) % 400 == a % 400,
{
}

/// Executable form of [`days_before_year`].
fn year_start(year: i32) -> (r: i64)
    ensures
        r == days_before_year(year as int),
{
    // The year is moved up by a multiple of 400, so that no number divided
    // is negative.
    let before: i64 = year as i64 - 1 + 2_147_484_000;
    proof {
        lemma_moved_up(year as int - 1);
    }
    365 * (year as i64 - 1) + (before / 4 - 536_871_000) - (before / 100 - 21_474_840) + (before
        / 400 - 5_368_710)
}

/// Executable form of [`days_before_month`].
fn month_start(year: i32, month: u32) -> (r: i64)
    ensures
        r == days_before_month(year as int, month as int),
{
    let moved: i64 = year as i64 + 2_147_484_000;
    proof {
        lemma_moved_up(year as int);
    }
    let leap_year = moved % 4 == 0 && (moved % 100 != 0 || moved % 400 == 0);
    let leap: i64 = if month > 2 && leap_year {
        1
    } else {
        0
    };
    leap + if month <= 1 {
        0
    } else if month == 2 {
        31
    } else if month == 3 {
        59
    } else if month == 4 {
        90
    } else if month == 5 {
        120
    } else if month == 6 {
        151
    } else if month == 7 {
        181
    } else if month == 8 {
        212
    } else if month == 9 {
        243
    } else if month == 10 {
        273
    } else if month == 11 {
        304
    } else {
        334
    }
}

/// The seconds from the first of January 1970, 00:00:00, to the given time
/// of the given day, both read in the same time zone: see [`civil_seconds`].
pub fn civil_seconds_of(date: CalendarDate, hour: u32, minute: u32, second: u32) -> (r: i64)
    ensures
        r == civil_seconds(
            (date.year, date.month, date.day),
            hour as int,
            minute as int,
            second as int,
        ),
{
    let days: i64 = year_start(date.year) + month_start(date.year, date.month) + date.day as i64;
    (days - 719_163) * 86_400 + hour as i64 * 3_600 + minute as i64 * 60 + second as i64
}

/// Reads a due date and gives the last second of that day, local time, in
/// seconds since the epoch.
///
/// The current year and the time zone are the machine's: the result is what
/// [`due_date_result`] gives for some year and some answer of the time zone
/// to 23:59:59 of the date read. The year is asked for only where the text
/// writes none, the time zone only where the text writes a date.
///
/// Panics where the text writes no year and the clock stands before 1970.
pub fn parse_due_date(text: &str) -> (r: Result<i64, String>)
    ensures
        exists|year: int, moment: LocalMoment|
            end_of_day_fits(due_date_of(text@, year), moment) && #[trigger] due_date_result(
                text@,
                due_date_of(text@, year),
                moment,
            ) == result_view(r),
{
    let dated = read_dated(text);
    let ghost mut year: int = 0;
    let date = if dated.is_some() {
        dated
    } else {
        let current = current_local_year();
        proof {
            year = current as int;
        }
        read_undated(text, current)
    };
    let moment = match date {
        Some(day) => local_moment(day, 23, 59, 59),
        None => LocalMoment::Invalid,
    };
    let r = due_date_outcome(text, date, moment);
    assert(due_date_result(text@, due_date_of(text@, year), moment) == result_view(r));
    r
}

/// A due date that was read is the last second of the day that the text
/// writes, in a time zone whose offset is less than a day: with the offset
/// added, it is 23:59:59 of that day.
pub proof fn lemma_moment_is_end_of_day(
    text: Seq<char>,
    year: int,
    moment: LocalMoment,
    seconds: i64,
)
    requires
        end_of_day_fits(due_date_of(text, year), moment),
        due_date_result(text, due_date_of(text, year), moment) == Ok::<i64, Seq<char>>(seconds),
    ensures
        due_date_of(text, year) is Some,
        moment matches LocalMoment::At { seconds: at, offset } && at == seconds && seconds + offset
            == civil_seconds(due_date_of(text, year)->0, 23, 59, 59) && -86_400 < offset < 86_400,
        moment matches LocalMoment::At { seconds: at, offset } && (offset == 0 ==> seconds
            == civil_seconds(due_date_of(text, year)->0, 23, 59, 59)),
{
}

} // verus!

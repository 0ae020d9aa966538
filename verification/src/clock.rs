//! Points in time, and the calls into chrono that read the clock, the local
//! calendar, and the text forms of a point in time.
//!
//! A point in time is an `i64` count of microseconds since
//! 1970-01-01T00:00:00Z, as chrono's `DateTime::timestamp_micros` counts it.

use crate::types::{LocalDate, Weekday};
use chrono::{Datelike, TimeZone};
use vstd::prelude::*;

verus! {

/// The earliest point in time that chrono represents (-262143-01-01T00:00:00Z).
pub const EARLIEST_MICROS: i64 = -8334601228800000000i64;

/// The latest point in time that chrono represents, to the microsecond
/// (+262142-12-31T23:59:59.999999Z).
pub const LATEST_MICROS: i64 = 8210266876799999999i64;

/// The first microsecond of the year 0000.
pub const YEAR_0000_MICROS: i64 = -62167219200000000i64;

/// The last microsecond of the year 9999.
pub const YEAR_9999_END_MICROS: i64 = 253402300799999999i64;

/// Microseconds in one minute.
pub const MICROS_PER_MINUTE: i64 = 60000000i64;

/// Whether chrono has a `DateTime<Utc>` for this point in time.
pub open spec fn in_chrono_range(t: i64) -> bool {
    EARLIEST_MICROS <= t <= LATEST_MICROS
}

/// Whether the point in time falls in the years 0000 to 9999, whose RFC 3339
/// text has the four-digit year that the RFC 3339 parser reads.
pub open spec fn in_four_digit_years(t: i64) -> bool {
    YEAR_0000_MICROS <= t <= YEAR_9999_END_MICROS
}

/// The whole minutes from `from` to `to`, rounded toward zero (what chrono's
/// `(to - from).num_minutes()` gives).
pub open spec fn minutes_between(from: i64, to: i64) -> int {
    let d = to - from;
    if d >= 0 {
        d / (MICROS_PER_MINUTE as int)
    } else {
        -((-d) / (MICROS_PER_MINUTE as int))
    }
}

/// The whole minutes from `from` to `to`, rounded toward zero.
pub fn minutes_between_exec(from: i64, to: i64) -> (m: i128)
    ensures
        m == minutes_between(from, to),
{
    let d: i128 = to as i128 - from as i128;
    if d >= 0 {
        d / (MICROS_PER_MINUTE as i128)
    } else {
        -((-d) / (MICROS_PER_MINUTE as i128))
    }
}

/// The RFC 3339 text that chrono's `DateTime::<Utc>::to_rfc3339` writes for the
/// point in time.
pub uninterp spec fn rfc3339_text(t: i64) -> Seq<char>;

/// The point in time that chrono's `DateTime::parse_from_rfc3339` reads from the
/// text, if it reads one.
pub uninterp spec fn rfc3339_value(s: Seq<char>) -> Option<i64>;

/// The point in time that chrono's `NaiveDateTime::parse_from_str` reads from the
/// text with the format `%Y-%m-%d %H:%M:%S`, taken as UTC, if it reads one.
pub uninterp spec fn naive_utc_value(s: Seq<char>) -> Option<i64>;

/// The current time: the system clock (`std::time::SystemTime::now`) as a
/// `DateTime<Utc>` (chrono's `From<SystemTime>`, which also takes a clock set
/// before 1970).
///
/// Trusted: the result comes from the system clock, so nothing is said of its
/// value but that chrono represents it (every `DateTime<Utc>` lies between
/// `DateTime::MIN_UTC` and `DateTime::MAX_UTC`). chrono's conversion fails
/// only for a clock set beyond that range, some 262,000 years away, which is
/// taken as a fault of the machine.
#[verifier::external_body]
pub(crate) fn now_micros() -> (t: i64)
    ensures
        in_chrono_range(t),
{
    chrono::DateTime::<chrono::Utc>::from(std::time::SystemTime::now()).timestamp_micros()
}

/// Whether chrono has a `DateTime<Utc>` for this point in time.
pub fn is_in_chrono_range(t: i64) -> (r: bool)
    ensures
        r == in_chrono_range(t),
{
    EARLIEST_MICROS <= t && t <= LATEST_MICROS
}

/// The RFC 3339 text of a point in time (`DateTime::<Utc>::to_rfc3339`).
///
/// Trusted: the result is what chrono writes for the `DateTime<Utc>` that
/// `DateTime::from_timestamp_micros` makes of `t`, which exists for every `t`
/// in chrono's range; the text is named, not spelled out.
#[verifier::external_body]
pub(crate) fn format_rfc3339(t: i64) -> (s: String)
    requires
        in_chrono_range(t),
    ensures
        s@ == rfc3339_text(t),
{
    match chrono::DateTime::from_timestamp_micros(t) {
        Some(d) => d.to_rfc3339(),
        None => String::new(),
    }
}

/// Reads an RFC 3339 date and time (`DateTime::parse_from_rfc3339`), as a point
/// in time in UTC.
///
/// Trusted: the result is named; chrono reads back what it writes for the
/// years 0000 to 9999 (its RFC 3339 parser takes a four-digit year, and the
/// text it writes keeps every microsecond); every value read is one that chrono
/// represents.
#[verifier::external_body]
pub(crate) fn parse_rfc3339(s: &str) -> (r: Option<i64>)
    ensures
        r == rfc3339_value(s@),
        r matches Some(t) ==> in_chrono_range(t),
        forall|t: i64| in_four_digit_years(t) && s@ == rfc3339_text(t) ==> r == Some(t),
{
    match chrono::DateTime::parse_from_rfc3339(s) {
        Ok(d) => Some(d.with_timezone(&chrono::Utc).timestamp_micros()),
        Err(_) => None,
    }
}

/// Reads a date and time written as `%Y-%m-%d %H:%M:%S`
/// (`NaiveDateTime::parse_from_str`), taken as UTC.
///
/// Trusted: the result is named. A value read may lie past the last
/// microsecond that chrono represents (a leap second, `:60`, read at the very
/// end of its range), so nothing is said of its range.
#[verifier::external_body]
pub(crate) fn parse_naive_utc(s: &str) -> (r: Option<i64>)
    ensures
        r == naive_utc_value(s@),
{
    match chrono::NaiveDateTime::parse_from_str(s, "%Y-%m-%d %H:%M:%S") {
        Ok(n) => Some(chrono::Utc.from_utc_datetime(&n).timestamp_micros()),
        Err(_) => None,
    }
}

/// Whether `year` is a leap year of the proleptic Gregorian calendar.
pub open spec fn is_leap_year(year: int) -> bool {
    year % 4 == 0 && (year % 100 != 0 || year % 400 == 0)
}

/// The number of days of a month (1 to 12) of a year.
pub open spec fn days_in_month(year: int, month: int) -> int {
    if month == 2 {
        if is_leap_year(year) {
            29
        } else {
            28
        }
    } else if month == 4 || month == 6 || month == 9 || month == 11 {
        30
    } else {
        31
    }
}

/// The days of a year before the first of a month (1 to 12).
pub open spec fn days_before_month(year: int, month: int) -> int {
    let common: int = if month == 1 {
        0
    } else if month == 2 {
        31
    } else if month == 3 {
        59
    } else if month == 4 {
        90
    } else if month == 5 {
        120
    } else if month == 6 {
        151
    } else if month == 7 {
        181
    } else if month == 8 {
        212
    } else if month == 9 {
        243
    } else if month == 10 {
        273
    } else if month == 11 {
        304
    } else {
        334
    };
    if month > 2 && is_leap_year(year) {
        common + 1
    } else {
        common
    }
}

/// The days from 0000-01-01 to the first of January of `year` (negative
/// before the year 0): 365 a year and one for each leap year between.
pub open spec fn days_before_year(year: int) -> int {
    365 * year + (year + 3) / 4 - (year + 99) / 100 + (year + 399) / 400
}

/// The days from 0000-01-01 to 1970-01-01.
pub open spec fn days_before_epoch() -> int {
    719528
}

/// Whether the parts name a UTC minute that chrono represents: a year of
/// chrono's range (-262143 to 262142), a day of the month, an hour and a
/// minute of the day.
pub open spec fn utc_parts_valid(year: i32, month: u32, day: u32, hour: u32, minute: u32) -> bool {
    &&& -262143 <= year <= 262142
    &&& 1 <= month <= 12
    &&& 1 <= day <= days_in_month(year as int, month as int)
    &&& hour < 24
    &&& minute < 60
}

/// The microseconds from 1970-01-01T00:00:00Z to the start of the given UTC
/// minute.
pub open spec fn utc_parts_micros(year: i32, month: u32, day: u32, hour: u32, minute: u32) -> int {
    let days = days_before_year(year as int) - days_before_epoch() + days_before_month(
        year as int,
        month as int,
    ) + day - 1;
    (days * 86400 + hour * 3600 + minute * 60) * 1000000
}

/// The point in time that chrono's `Utc.with_ymd_and_hms(year, month, day,
/// hour, minute, 0)` gives: the start of that minute of the proleptic
/// Gregorian calendar in UTC, when the parts name one that chrono represents.
pub open spec fn utc_datetime_value(year: i32, month: u32, day: u32, hour: u32, minute: u32) -> Option<i64> {
    if utc_parts_valid(year, month, day, hour, minute) {
        Some(utc_parts_micros(year, month, day, hour, minute) as i64)
    } else {
        None
    }
}

/// The point in time at the start of the given UTC minute
/// (`Utc.with_ymd_and_hms(year, month, day, hour, minute, 0)`).
///
/// Trusted: chrono builds the date with `NaiveDate::from_ymd_opt` (a year of
/// its range, a month of 1 to 12 and a day of that month) and the time with
/// `NaiveTime::from_hms_opt` (hour below 24, minute below 60); in UTC that
/// date and time is one point in time, the one `utc_datetime_value` counts,
/// and chrono represents it.
#[verifier::external_body]
pub(crate) fn utc_from_parts(year: i32, month: u32, day: u32, hour: u32, minute: u32) -> (r: Option<i64>)
    ensures
        r == utc_datetime_value(year, month, day, hour, minute),
        r matches Some(t) ==> in_chrono_range(t),
{
    match chrono::Utc.with_ymd_and_hms(year, month, day, hour, minute, 0) {
        chrono::LocalResult::Single(d) => Some(d.timestamp_micros()),
        chrono::LocalResult::Ambiguous(_, _) => None,
        chrono::LocalResult::None => None,
    }
}

/// The days from 1970-01-01 to a date of the proleptic Gregorian calendar
/// (negative before it).
pub open spec fn days_of_date(d: LocalDate) -> int {
    days_before_year(d.year as int) - days_before_epoch() + days_before_month(d.year as int, d.month as int)
        + d.day - 1
}

/// The days from 1970-01-01 to the UTC date of a point in time, counted in
/// microseconds since 1970-01-01T00:00:00Z (rounded down, so negative before
/// 1970).
pub open spec fn utc_day(t: i64) -> int {
    t / 86_400_000_000
}

/// Whether a date is the UTC date of a point in time, the day before or the
/// day after: the dates on which that point can fall in a time zone.
pub open spec fn is_near_day(d: LocalDate, t: i64) -> bool {
    utc_day(t) - 1 <= days_of_date(d) <= utc_day(t) + 1
}

/// The weekday of a date counted from Monday as 0; 1970-01-01 was a Thursday.
pub open spec fn weekday_number(d: LocalDate) -> int {
    (days_of_date(d) + 3) % 7
}

/// The weekday of a date.
pub open spec fn weekday_of(d: LocalDate) -> Weekday {
    let n = weekday_number(d);
    if n == 0 {
        Weekday::Mon
    } else if n == 1 {
        Weekday::Tue
    } else if n == 2 {
        Weekday::Wed
    } else if n == 3 {
        Weekday::Thu
    } else if n == 4 {
        Weekday::Fri
    } else if n == 5 {
        Weekday::Sat
    } else {
        Weekday::Sun
    }
}

/// The calendar day of a point in time in the machine's time zone, and its
/// weekday counted from Monday as 0 (`DateTime::with_timezone(&chrono::Local)`,
/// then `year`, `month`, `day` and `weekday().num_days_from_monday()`).
///
/// Trusted: chrono reads the local date off the UTC date and time moved by the
/// zone's offset, and its offsets are under a day either way, so the date is
/// the UTC date, the day before or the day after; it is a date of the
/// calendar, and chrono gives the weekday of that date. Which of the three
/// days it is depends on the machine's time zone, which chrono reads again at
/// most once a second, and is not said. chrono panics when the machine's zone
/// data gives an offset of a day or more (`Local::offset_from_utc_datetime`
/// unwraps); that is a fault of the machine's configuration, not an input.
#[verifier::external_body]
fn local_calendar_day_numbers(t: i64) -> (r: (LocalDate, u32))
    requires
        in_chrono_range(t),
    ensures
        1 <= r.0.month <= 12,
        1 <= r.0.day <= days_in_month(r.0.year as int, r.0.month as int),
        is_near_day(r.0, t),
        r.1 == weekday_number(r.0),
{
    let utc = chrono::DateTime::from_timestamp_micros(t).unwrap_or(chrono::DateTime::<chrono::Utc>::MIN_UTC);
    let local = utc.with_timezone(&chrono::Local);
    let date = LocalDate { year: local.year(), month: local.month(), day: local.day() };
    (date, local.weekday().num_days_from_monday())
}

/// The calendar day and the weekday of a point in time in the machine's time
/// zone: the UTC date of that point, the day before or the day after, as the
/// machine's time zone has it, and that day's weekday.
pub fn local_calendar_day(t: i64) -> (r: (LocalDate, Weekday))
    requires
        in_chrono_range(t),
    ensures
        1 <= r.0.month <= 12,
        1 <= r.0.day <= 31,
        1 <= r.0.day <= days_in_month(r.0.year as int, r.0.month as int),
        is_near_day(r.0, t),
        r.1 == weekday_of(r.0),
{
    let (date, n) = local_calendar_day_numbers(t);
    let weekday = if n == 0 {
        Weekday::Mon
    } else if n == 1 {
        Weekday::Tue
    } else if n == 2 {
        Weekday::Wed
    } else if n == 3 {
        Weekday::Thu
    } else if n == 4 {
        Weekday::Fri
    } else if n == 5 {
        Weekday::Sat
    } else {
        Weekday::Sun
    };
    (date, weekday)
}

} // verus!

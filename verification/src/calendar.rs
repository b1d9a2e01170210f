//! Calendar rules, and the calendar facts that the `chrono` crate computes.
//!
//! The rules that decide whether a civil date and time exist are stated and
//! checked here, and so is the day of the year. What takes a calendar
//! algorithm (the day of the week, ISO weeks, the start of a week, the Unix
//! timestamp) is asked of `chrono`, and each answer has a name below. An
//! answer is `None` where `chrono` cannot represent the date, the week start
//! or the moment.

use chrono::{Datelike, FixedOffset, NaiveDate, TimeZone, Weekday};
use vstd::prelude::*;

verus! {

/// The first year that `chrono` can represent.
pub const MIN_YEAR: i32 = -262_143;

/// The last year that `chrono` can represent.
pub const MAX_YEAR: i32 = 262_142;

/// Whether `year` is a year that `chrono` can represent.
pub open spec fn is_supported_year(year: int) -> bool {
    MIN_YEAR <= year <= MAX_YEAR
}

/// Whether `year` is a leap year of the proleptic Gregorian calendar.
pub open spec fn is_leap_year(year: int) -> bool {
    year % 4 == 0 && (year % 100 != 0 || year % 400 == 0)
}

/// The number of days of `month` in `year`; 0 where `month` is no month.
pub open spec fn days_in_month(year: int, month: int) -> int {
    if month == 2 {
        if is_leap_year(year) {
            29
        } else {
            28
        }
    } else if month == 4 || month == 6 || month == 9 || month == 11 {
        30
    } else if 1 <= month <= 12 {
        31
    } else {
        0
    }
}

/// Whether the day exists in the proleptic Gregorian calendar.
pub open spec fn is_civil_date(year: int, month: int, day: int) -> bool {
    1 <= month <= 12 && 1 <= day <= days_in_month(year, month)
}

/// Whether the day exists and lies in a year that `chrono` can represent.
pub open spec fn is_date(year: int, month: int, day: int) -> bool {
    is_supported_year(year) && is_civil_date(year, month, day)
}

/// The number of days of `year`.
pub open spec fn days_in_year(year: int) -> int {
    if is_leap_year(year) {
        366
    } else {
        365
    }
}

/// The number of days of `year` that lie before `month`.
pub open spec fn days_before_month(year: int, month: int) -> int
    decreases month,
{
    if month <= 1 {
        0
    } else {
        days_before_month(year, month - 1) + days_in_month(year, month - 1)
    }
}

/// The day of the year of a date, counted from 1.
pub open spec fn day_of_year(year: int, month: int, day: int) -> int {
    days_before_month(year, month) + day
}

/// Whether the time of day exists. A nanosecond of a billion or more stands
/// for a leap second, which only the last second of a minute can have.
pub open spec fn is_civil_time(hour: int, minute: int, second: int, nanosecond: int) -> bool {
    &&& 0 <= hour < 24
    &&& 0 <= minute < 60
    &&& 0 <= second < 60
    &&& 0 <= nanosecond < 2_000_000_000
    &&& (nanosecond < 1_000_000_000 || second == 59)
}

/// Whether `seconds` is an offset from UTC of less than a day.
pub open spec fn is_utc_offset(seconds: int) -> bool {
    -86_400 < seconds < 86_400
}

/// The hour on a 12-hour clock face, from 1 to 12.
pub open spec fn hour_on_clock(hour: int) -> int {
    if hour % 12 == 0 {
        12
    } else {
        hour % 12
    }
}

/// The quotient of `a` by `b > 0`, rounded towards zero.
pub open spec fn quotient_towards_zero(a: int, b: int) -> int {
    if a >= 0 {
        a / b
    } else {
        -((-a) / b)
    }
}

/// The remainder that goes with [`quotient_towards_zero`]: it has the sign
/// of `a`.
pub open spec fn remainder_towards_zero(a: int, b: int) -> int {
    if a >= 0 {
        a % b
    } else {
        -((-a) % b)
    }
}

/// The day of the week of a date as the number of days since Monday, as
/// `chrono` gives it.
pub uninterp spec fn days_since_monday(year: i32, month: u32, day: u32) -> u32;

/// The year of the ISO 8601 week that a date lies in, as `chrono` gives it.
pub uninterp spec fn iso_week_year(year: i32, month: u32, day: u32) -> i32;

/// The number of the ISO 8601 week that a date lies in, as `chrono` gives it.
pub uninterp spec fn iso_week_number(year: i32, month: u32, day: u32) -> u32;

/// The day of the year, counted from 0, of the first day of the week that a
/// date lies in, as `chrono` gives it. Weeks start on the day that is
/// `week_start` days after Monday. That first day may lie in the year before.
pub uninterp spec fn week_start_day(year: i32, month: u32, day: u32, week_start: u8) -> Option<
    u32,
>;

/// The Unix timestamp of a civil date and time at an offset from UTC, as
/// `chrono` gives it.
pub uninterp spec fn unix_timestamp(
    year: i32,
    month: u32,
    day: u32,
    hour: u32,
    minute: u32,
    second: u32,
    offset_seconds: i32,
) -> Option<i64>;

/// Calls `Datelike::ordinal` on the `NaiveDate` that `NaiveDate::from_ymd_opt`
/// makes of the arguments. `chrono` makes a date exactly of a day that
/// exists in a year from [`MIN_YEAR`] to [`MAX_YEAR`], and gives `None`
/// otherwise; the result is the day of the year, counted from 1.
#[verifier::external_body]
pub(crate) fn chrono_day_of_year(year: i32, month: u32, day: u32) -> (ordinal: Option<u32>)
    ensures
        ordinal is Some <==> is_date(year as int, month as int, day as int),
        ordinal matches Some(n) ==> n == day_of_year(year as int, month as int, day as int),
{
    Some(NaiveDate::from_ymd_opt(year, month, day)?.ordinal())
}

/// Calls `Datelike::weekday` and `Weekday::num_days_from_monday` on the
/// `NaiveDate` that `NaiveDate::from_ymd_opt` makes of the arguments.
/// `chrono` makes a date exactly of a day that exists in a year from
/// [`MIN_YEAR`] to [`MAX_YEAR`], and gives `None` otherwise. The result is a
/// function of the date, named [`days_since_monday`]; `chrono` documents 0
/// for Monday up to 6 for Sunday.
#[verifier::external_body]
pub(crate) fn chrono_days_since_monday(year: i32, month: u32, day: u32) -> (weekday: Option<u32>)
    ensures
        weekday is Some <==> is_date(year as int, month as int, day as int),
        weekday matches Some(n) ==> n == days_since_monday(year, month, day) && n <= 6,
{
    Some(NaiveDate::from_ymd_opt(year, month, day)?.weekday().num_days_from_monday())
}

/// Calls `Datelike::iso_week` and `IsoWeek::year` on the `NaiveDate` that
/// `NaiveDate::from_ymd_opt` makes of the arguments. `chrono` makes a date
/// exactly of a day that exists in a year from [`MIN_YEAR`] to [`MAX_YEAR`],
/// and gives `None` otherwise. The result is a function of the date, named
/// [`iso_week_year`]; it is the year of the date, the year before or the
/// year after.
#[verifier::external_body]
pub(crate) fn chrono_iso_week_year(year: i32, month: u32, day: u32) -> (iso_year: Option<i32>)
    ensures
        iso_year is Some <==> is_date(year as int, month as int, day as int),
        iso_year matches Some(n) ==> n == iso_week_year(year, month, day) && year - 1 <= n
            <= year + 1,
{
    Some(NaiveDate::from_ymd_opt(year, month, day)?.iso_week().year())
}

/// Calls `Datelike::iso_week` and `IsoWeek::week` on the `NaiveDate` that
/// `NaiveDate::from_ymd_opt` makes of the arguments. `chrono` makes a date
/// exactly of a day that exists in a year from [`MIN_YEAR`] to [`MAX_YEAR`],
/// and gives `None` otherwise. The result is a function of the date, named
/// [`iso_week_number`]; `chrono` documents that a week number lies between 1
/// and 53.
#[verifier::external_body]
pub(crate) fn chrono_iso_week_number(year: i32, month: u32, day: u32) -> (week: Option<u32>)
    ensures
        week is Some <==> is_date(year as int, month as int, day as int),
        week matches Some(n) ==> n == iso_week_number(year, month, day) && 1 <= n <= 53,
{
    Some(NaiveDate::from_ymd_opt(year, month, day)?.iso_week().week())
}

/// Calls `NaiveDate::week`, `NaiveWeek::checked_first_day` and
/// `Datelike::ordinal0` on the `NaiveDate` that `NaiveDate::from_ymd_opt`
/// makes of the arguments, with the `Weekday` that `Weekday::try_from` makes
/// of `week_start`, and gives `None` where one of these calls gives none.
/// The result is a function of the arguments, named [`week_start_day`];
/// `chrono` documents that a day of the year counted from 0 lies between 0
/// and 365.
#[verifier::external_body]
pub(crate) fn chrono_week_start_day(year: i32, month: u32, day: u32, week_start: u8) -> (first: Option<
    u32,
>)
    ensures
        first == week_start_day(year, month, day, week_start),
        first matches Some(n) ==> n <= 365,
{
    let start = Weekday::try_from(week_start).ok()?;
    let date = NaiveDate::from_ymd_opt(year, month, day)?;
    Some(date.week(start).checked_first_day()?.ordinal0())
}

/// Calls `DateTime::timestamp` on the `DateTime<FixedOffset>` that
/// `TimeZone::from_local_datetime` makes of the civil date and time at the
/// offset that `FixedOffset::east_opt` makes of `offset_seconds`, and gives
/// `None` where one of these calls gives none. The result is a function of
/// the arguments, named [`unix_timestamp`].
#[verifier::external_body]
pub(crate) fn chrono_unix_timestamp(
    year: i32,
    month: u32,
    day: u32,
    hour: u32,
    minute: u32,
    second: u32,
    offset_seconds: i32,
) -> (timestamp: Option<i64>)
    ensures
        timestamp == unix_timestamp(year, month, day, hour, minute, second, offset_seconds),
{
    let local = NaiveDate::from_ymd_opt(year, month, day)?.and_hms_opt(hour, minute, second)?;
    let zone = FixedOffset::east_opt(offset_seconds)?;
    Some(zone.from_local_datetime(&local).single()?.timestamp())
}

/// The day of the year lies within the year.
pub proof fn lemma_day_of_year_range(year: int, month: int, day: int)
    requires
        is_civil_date(year, month, day),
    ensures
        1 <= day_of_year(year, month, day) <= days_in_year(year),
        day_of_year(year, month, day) <= days_before_month(year, 12) + 31 == days_in_year(year),
{
    reveal_with_fuel(days_before_month, 13);
}

/// Whether `year` is a leap year.
pub fn leap_year(year: i32) -> (leap: bool)
    ensures
        leap == is_leap_year(year as int),
{
    year % 4 == 0 && (year % 100 != 0 || year % 400 == 0)
}

/// The number of days of `month` in `year`; 0 where `month` is no month.
pub fn month_length(year: i32, month: u32) -> (days: u32)
    ensures
        days == days_in_month(year as int, month as int),
{
    if month == 2 {
        if leap_year(year) {
            29
        } else {
            28
        }
    } else if month == 4 || month == 6 || month == 9 || month == 11 {
        30
    } else if 1 <= month && month <= 12 {
        31
    } else {
        0
    }
}

/// The hour on a 12-hour clock face.
pub fn clock_hour(hour: u32) -> (shown: u32)
    ensures
        shown == hour_on_clock(hour as int),
        1 <= shown <= 12,
{
    let rest = hour % 12;
    if rest == 0 {
        12
    } else {
        rest
    }
}

/// `a / b` as Rust divides signed integers: rounded towards zero.
pub fn divide(a: i32, b: i32) -> (q: i32)
    requires
        b > 0,
    ensures
        q == quotient_towards_zero(a as int, b as int),
{
    a / b
}

/// `a % b` as Rust takes the remainder of signed integers: with the sign of
/// `a`.
pub fn remainder(a: i32, b: i32) -> (r: i32)
    requires
        b > 0,
    ensures
        r == remainder_towards_zero(a as int, b as int),
{
    a % b
}

} // verus!

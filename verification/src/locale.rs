//! Names of weekdays, months and the time zone, looked up in the locale data
//! of the `icu` crate.

use crate::calendar::{is_civil_date, is_supported_year};
use icu::calendar::DateTime;
use icu::datetime::options::components;
use icu::datetime::{DateTimeFormatter, ZonedDateTimeFormatter};
use icu::locid::Locale;
use icu::timezone::CustomTimeZone;
use vstd::prelude::*;

verus! {

/// The locale whose names the formatter writes.
pub open spec fn locale_tag() -> Seq<char> {
    "en-US"@
}

/// The locale whose names the formatter writes.
pub fn locale() -> (tag: &'static str)
    ensures
        tag@ == locale_tag(),
{
    "en-US"
}

/// Whether a date and a time of day are ones that a name can be asked
/// for: the day exists in a year that `chrono` can represent, and the hour,
/// the minute and the second are those of a clock.
pub open spec fn is_nameable(year: i32, month: u8, day: u8, hour: u8, minute: u8, second: u8) -> bool {
    &&& is_supported_year(year as int)
    &&& is_civil_date(year as int, month as int, day as int)
    &&& hour < 24
    &&& minute < 60
    &&& second < 60
}

/// A part of a date that has a name in a locale.
#[derive(Clone, Copy, Debug, PartialEq, Eq)]
pub enum NameField {
    WeekdayShort,
    WeekdayLong,
    MonthShort,
    MonthLong,
}

/// The text of an optional string.
pub open spec fn text_of(string: Option<String>) -> Option<Seq<char>> {
    match string {
        Some(s) => Some(s@),
        None => None,
    }
}

/// The name of one part of a date in a locale, as the `icu` crate writes it
/// from the data compiled into it.
pub uninterp spec fn date_name(
    locale: Seq<char>,
    field: NameField,
    year: i32,
    month: u8,
    day: u8,
    hour: u8,
    minute: u8,
    second: u8,
) -> Option<Seq<char>>;

/// The long generic name of the UTC time zone in a locale at a date and
/// time, as the `icu` crate writes it from the data compiled into it.
pub uninterp spec fn zone_name(
    locale: Seq<char>,
    year: i32,
    month: u8,
    day: u8,
    hour: u8,
    minute: u8,
    second: u8,
) -> Option<Seq<char>>;

/// Calls `DateTimeFormatter::format` for the ISO date and time that
/// `DateTime::try_new_iso_datetime` makes of the arguments, on a formatter
/// that `DateTimeFormatter::try_new_experimental` makes for the parsed
/// locale and a components bag that holds `field` alone. The text depends on
/// the arguments and the data compiled into the crate only; it is named
/// [`date_name`]. The result is `None` where one of these calls fails.
///
/// The locale is the one of [`locale_tag`], whose calendar is the Gregorian
/// one, and the date and time are as [`is_nameable`] says: the crate finds
/// the weekday of a date by its month, and other calendars shift the year.
#[verifier::external_body]
pub(crate) fn icu_date_name(
    locale: &str,
    field: NameField,
    year: i32,
    month: u8,
    day: u8,
    hour: u8,
    minute: u8,
    second: u8,
) -> (name: Option<String>)
    requires
        locale@ == locale_tag(),
        is_nameable(year, month, day, hour, minute, second),
    ensures
        text_of(name) == date_name(locale@, field, year, month, day, hour, minute, second),
{
    let locale: Locale = locale.parse().ok()?;
    let mut bag = components::Bag::default();
    match field {
        NameField::WeekdayShort => bag.weekday = Some(components::Text::Short),
        NameField::WeekdayLong => bag.weekday = Some(components::Text::Long),
        NameField::MonthShort => bag.month = Some(components::Month::Short),
        NameField::MonthLong => bag.month = Some(components::Month::Long),
    }
    let date = DateTime::try_new_iso_datetime(year, month, day, hour, minute, second).ok()?;
    let formatter = DateTimeFormatter::try_new_experimental(&locale.into(), bag.into()).ok()?;
    Some(formatter.format(&date.to_any()).ok()?.to_string())
}

/// Calls `ZonedDateTimeFormatter::format` for the ISO date and time that
/// `DateTime::try_new_iso_datetime` makes of the arguments and the time zone
/// `CustomTimeZone::utc()`, on a formatter that
/// `ZonedDateTimeFormatter::try_new_experimental` makes for the parsed locale
/// and a components bag that holds the long generic time zone name alone.
/// The text depends on the arguments and the data compiled into the crate
/// only; it is named [`zone_name`]. The result is `None` where one of these
/// calls fails.
///
/// The locale is the one of [`locale_tag`], whose calendar is the Gregorian
/// one, and the date and time are as [`is_nameable`] says: the crate finds
/// the weekday of a date by its month, and other calendars shift the year.
#[verifier::external_body]
pub(crate) fn icu_zone_name(
    locale: &str,
    year: i32,
    month: u8,
    day: u8,
    hour: u8,
    minute: u8,
    second: u8,
) -> (name: Option<String>)
    requires
        locale@ == locale_tag(),
        is_nameable(year, month, day, hour, minute, second),
    ensures
        text_of(name) == zone_name(locale@, year, month, day, hour, minute, second),
{
    let locale: Locale = locale.parse().ok()?;
    let mut bag = components::Bag::default();
    bag.time_zone_name = Some(components::TimeZoneName::LongGeneric);
    let date = DateTime::try_new_iso_datetime(year, month, day, hour, minute, second).ok()?;
    let formatter =
        ZonedDateTimeFormatter::try_new_experimental(&locale.into(), bag.into(), Default::default())
            .ok()?;
    Some(formatter.format(&date.to_any(), &CustomTimeZone::utc()).ok()?.to_string())
}

} // verus!

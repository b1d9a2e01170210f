//! The moment that a template is formatted for: a civil date and time at a
//! fixed offset from UTC, together with everything a specifier can ask of it.

use crate::calendar::{
    chrono_day_of_year, chrono_days_since_monday, chrono_iso_week_number, chrono_iso_week_year,
    chrono_unix_timestamp, chrono_week_start_day, day_of_year, days_since_monday, is_civil_time,
    is_date, is_utc_offset, iso_week_number, iso_week_year, month_length, unix_timestamp,
    week_start_day, MAX_YEAR, MIN_YEAR,
};
use crate::locale::{
    date_name, icu_date_name, icu_zone_name, locale, locale_tag, zone_name, NameField,
};
use vstd::prelude::*;

verus! {

/// The number of days from Monday to Sunday: weeks that start on Sunday.
pub const SUNDAY: u8 = 6;

/// The number of days from Monday to Monday: weeks that start on Monday.
pub const MONDAY: u8 = 0;

/// The mathematical content of an [`Instant`].
pub struct InstantView {
    pub year: int,
    pub month: int,
    pub day: int,
    pub hour: int,
    pub minute: int,
    pub second: int,
    pub nanosecond: int,
    /// Seconds east of UTC.
    pub offset_seconds: int,
    /// Day of the year, from 1.
    pub ordinal: int,
    /// Day of the week as days since Monday.
    pub weekday: int,
    pub iso_year: int,
    pub iso_week: int,
    /// Day of the year, from 0, of the first day of the week, for weeks that
    /// start on Sunday.
    pub sunday_week_start: int,
    /// The same for weeks that start on Monday.
    pub monday_week_start: int,
    /// Seconds since the Unix epoch.
    pub timestamp: int,
    pub weekday_short: Seq<char>,
    pub weekday_long: Seq<char>,
    pub month_short: Seq<char>,
    pub month_long: Seq<char>,
    pub zone_name: Seq<char>,
}

impl InstantView {
    /// What every instant keeps: its date and time exist, the day of the
    /// year is the one of its date, and the other calendar facts lie in
    /// their ranges.
    pub open spec fn wf(self) -> bool {
        &&& is_date(self.year, self.month, self.day)
        &&& is_civil_time(self.hour, self.minute, self.second, self.nanosecond)
        &&& is_utc_offset(self.offset_seconds)
        &&& self.ordinal == day_of_year(self.year, self.month, self.day)
        &&& 0 <= self.weekday <= 6
        &&& self.year - 1 <= self.iso_year <= self.year + 1
        &&& 1 <= self.iso_week <= 53
        &&& 0 <= self.sunday_week_start <= 365
        &&& 0 <= self.monday_week_start <= 365
    }
}

/// A civil date and time at a fixed offset from UTC, with its calendar facts
/// and local names. All of it is fixed when the value is made, so every
/// specifier of a template reads the same moment.
#[derive(Debug, PartialEq, Eq)]
pub struct Instant {
    pub(crate) year: i32,
    pub(crate) month: u32,
    pub(crate) day: u32,
    pub(crate) hour: u32,
    pub(crate) minute: u32,
    pub(crate) second: u32,
    pub(crate) nanosecond: u32,
    pub(crate) offset_seconds: i32,
    pub(crate) ordinal: u32,
    pub(crate) weekday: u32,
    pub(crate) iso_year: i32,
    pub(crate) iso_week: u32,
    pub(crate) sunday_week_start: u32,
    pub(crate) monday_week_start: u32,
    pub(crate) timestamp: i64,
    pub(crate) weekday_short: String,
    pub(crate) weekday_long: String,
    pub(crate) month_short: String,
    pub(crate) month_long: String,
    pub(crate) zone_name: String,
}

impl View for Instant {
    type V = InstantView;

    open(crate) spec fn view(&self) -> InstantView {
        InstantView {
            year: self.year as int,
            month: self.month as int,
            day: self.day as int,
            hour: self.hour as int,
            minute: self.minute as int,
            second: self.second as int,
            nanosecond: self.nanosecond as int,
            offset_seconds: self.offset_seconds as int,
            ordinal: self.ordinal as int,
            weekday: self.weekday as int,
            iso_year: self.iso_year as int,
            iso_week: self.iso_week as int,
            sunday_week_start: self.sunday_week_start as int,
            monday_week_start: self.monday_week_start as int,
            timestamp: self.timestamp as int,
            weekday_short: self.weekday_short@,
            weekday_long: self.weekday_long@,
            month_short: self.month_short@,
            month_long: self.month_long@,
            zone_name: self.zone_name@,
        }
    }
}

impl Instant {
    /// Every instant keeps the ranges of its view.
    #[verifier::type_invariant]
    pub open(crate) spec fn keeps_ranges(self) -> bool {
        self@.wf()
    }
}

impl Clone for Instant {
    fn clone(&self) -> (copy: Self)
        ensures
            copy@ == self@,
    {
        proof {
            use_type_invariant(self);
        }
        Instant {
            year: self.year,
            month: self.month,
            day: self.day,
            hour: self.hour,
            minute: self.minute,
            second: self.second,
            nanosecond: self.nanosecond,
            offset_seconds: self.offset_seconds,
            ordinal: self.ordinal,
            weekday: self.weekday,
            iso_year: self.iso_year,
            iso_week: self.iso_week,
            sunday_week_start: self.sunday_week_start,
            monday_week_start: self.monday_week_start,
            timestamp: self.timestamp,
            weekday_short: self.weekday_short.clone(),
            weekday_long: self.weekday_long.clone(),
            month_short: self.month_short.clone(),
            month_long: self.month_long.clone(),
            zone_name: self.zone_name.clone(),
        }
    }
}

/// The view of an optional instant.
pub open spec fn view_of(instant: Option<Instant>) -> Option<InstantView> {
    match instant {
        Some(t) => Some(t@),
        None => None,
    }
}

/// Whether a civil date and time at an offset make an instant: the date
/// exists in a year that `chrono` can represent, the time exists, the offset
/// is less than a day, and the week starts, the timestamp and each name can
/// be had.
pub open spec fn is_instant(
    year: i32,
    month: u32,
    day: u32,
    hour: u32,
    minute: u32,
    second: u32,
    nanosecond: u32,
    offset_seconds: i32,
) -> bool {
    let name = |field: NameField|
        date_name(
            locale_tag(),
            field,
            year,
            month as u8,
            day as u8,
            hour as u8,
            minute as u8,
            second as u8,
        );
    &&& is_date(year as int, month as int, day as int)
    &&& is_civil_time(hour as int, minute as int, second as int, nanosecond as int)
    &&& is_utc_offset(offset_seconds as int)
    &&& week_start_day(year, month, day, SUNDAY) is Some
    &&& week_start_day(year, month, day, MONDAY) is Some
    &&& unix_timestamp(year, month, day, hour, minute, second, offset_seconds) is Some
    &&& name(NameField::WeekdayShort) is Some
    &&& name(NameField::WeekdayLong) is Some
    &&& name(NameField::MonthShort) is Some
    &&& name(NameField::MonthLong) is Some
    &&& zone_name(
        locale_tag(),
        year,
        month as u8,
        day as u8,
        hour as u8,
        minute as u8,
        second as u8,
    ) is Some
}

/// The instant that a civil date and time at an offset make, where they make
/// one: see [`is_instant`].
pub open spec fn instant_at(
    year: i32,
    month: u32,
    day: u32,
    hour: u32,
    minute: u32,
    second: u32,
    nanosecond: u32,
    offset_seconds: i32,
) -> Option<InstantView> {
    let name = |field: NameField|
        date_name(
            locale_tag(),
            field,
            year,
            month as u8,
            day as u8,
            hour as u8,
            minute as u8,
            second as u8,
        );
    if is_instant(year, month, day, hour, minute, second, nanosecond, offset_seconds) {
        Some(
            InstantView {
                year: year as int,
                month: month as int,
                day: day as int,
                hour: hour as int,
                minute: minute as int,
                second: second as int,
                nanosecond: nanosecond as int,
                offset_seconds: offset_seconds as int,
                ordinal: day_of_year(year as int, month as int, day as int),
                weekday: days_since_monday(year, month, day) as int,
                iso_year: iso_week_year(year, month, day) as int,
                iso_week: iso_week_number(year, month, day) as int,
                sunday_week_start: week_start_day(year, month, day, SUNDAY).unwrap() as int,
                monday_week_start: week_start_day(year, month, day, MONDAY).unwrap() as int,
                timestamp: unix_timestamp(
                    year,
                    month,
                    day,
                    hour,
                    minute,
                    second,
                    offset_seconds,
                ).unwrap() as int,
                weekday_short: name(NameField::WeekdayShort).unwrap(),
                weekday_long: name(NameField::WeekdayLong).unwrap(),
                month_short: name(NameField::MonthShort).unwrap(),
                month_long: name(NameField::MonthLong).unwrap(),
                zone_name: zone_name(
                    locale_tag(),
                    year,
                    month as u8,
                    day as u8,
                    hour as u8,
                    minute as u8,
                    second as u8,
                ).unwrap(),
            },
        )
    } else {
        None
    }
}

/// Whether the day exists in a year that `chrono` can represent.
pub fn date_exists(year: i32, month: u32, day: u32) -> (exists: bool)
    ensures
        exists == is_date(year as int, month as int, day as int),
{
    MIN_YEAR <= year && year <= MAX_YEAR && 1 <= month && month <= 12 && 1 <= day && day
        <= month_length(year, month)
}

/// Whether the time of day exists.
pub fn civil_time_exists(hour: u32, minute: u32, second: u32, nanosecond: u32) -> (exists: bool)
    ensures
        exists == is_civil_time(hour as int, minute as int, second as int, nanosecond as int),
{
    hour < 24 && minute < 60 && second < 60 && nanosecond < 2_000_000_000 && (nanosecond
        < 1_000_000_000 || second == 59)
}

impl Instant {
    /// Makes the instant of a civil date and time at `offset_seconds` east
    /// of UTC, or `None` where they make none.
    pub fn new(
        year: i32,
        month: u32,
        day: u32,
        hour: u32,
        minute: u32,
        second: u32,
        nanosecond: u32,
        offset_seconds: i32,
    ) -> (instant: Option<Instant>)
        ensures
            view_of(instant) == instant_at(
                year,
                month,
                day,
                hour,
                minute,
                second,
                nanosecond,
                offset_seconds,
            ),
            instant matches Some(t) ==> t@.wf(),
    {
        if !date_exists(year, month, day) || !civil_time_exists(
            hour,
            minute,
            second,
            nanosecond,
        ) || offset_seconds <= -86_400 || offset_seconds >= 86_400 {
            return None;
        }
        let ordinal = chrono_day_of_year(year, month, day)?;
        let weekday = chrono_days_since_monday(year, month, day)?;
        let iso_year = chrono_iso_week_year(year, month, day)?;
        let iso_week = chrono_iso_week_number(year, month, day)?;
        let sunday_week_start = chrono_week_start_day(year, month, day, SUNDAY)?;
        let monday_week_start = chrono_week_start_day(year, month, day, MONDAY)?;
        let timestamp = chrono_unix_timestamp(
            year,
            month,
            day,
            hour,
            minute,
            second,
            offset_seconds,
        )?;
        let (m, d) = (month as u8, day as u8);
        let (h, mi, s) = (hour as u8, minute as u8, second as u8);
        let tag = locale();
        let weekday_short = icu_date_name(tag, NameField::WeekdayShort, year, m, d, h, mi, s)?;
        let weekday_long = icu_date_name(tag, NameField::WeekdayLong, year, m, d, h, mi, s)?;
        let month_short = icu_date_name(tag, NameField::MonthShort, year, m, d, h, mi, s)?;
        let month_long = icu_date_name(tag, NameField::MonthLong, year, m, d, h, mi, s)?;
        let zone_name = icu_zone_name(tag, year, m, d, h, mi, s)?;
        Some(
            Instant {
                year,
                month,
                day,
                hour,
                minute,
                second,
                nanosecond,
                offset_seconds,
                ordinal,
                weekday,
                iso_year,
                iso_week,
                sunday_week_start,
                monday_week_start,
                timestamp,
                weekday_short,
                weekday_long,
                month_short,
                month_long,
                zone_name,
            },
        )
    }
}

} // verus!

//! Conversion between [`DateTime`] and the calendar timestamp of the
//! `chrono` crate.
//!
//! The calendar is chrono's business. This module reads the fields of a
//! timestamp through chrono and asks chrono to make a timestamp of fields;
//! what it verifies is how the fields are carried over. The functions
//! marked `external_body` are the calls into chrono. Their contracts are
//! taken from chrono's documentation and source and are not proved; the
//! spec functions without a body name what chrono returns.

use vstd::prelude::*;
use crate::datetime::DateTime;

verus! {

/// chrono's timestamp without a time zone. Nothing inside it is visible
/// here; the functions `stamp_..` name what chrono reads from it.
#[verifier::external_type_specification]
#[verifier::external_body]
pub struct ExNaiveDateTime(chrono::naive::NaiveDateTime);

/// chrono's calendar date without a time zone. Nothing inside it is
/// visible here; the functions `date_..` name what chrono reads from it.
#[verifier::external_type_specification]
#[verifier::external_body]
pub struct ExNaiveDate(chrono::naive::NaiveDate);

/// A day of the week.
#[derive(Debug, Clone, Copy, PartialEq, Eq)]
pub enum Weekday {
    /// Monday.
    Mon,
    /// Tuesday.
    Tue,
    /// Wednesday.
    Wed,
    /// Thursday.
    Thu,
    /// Friday.
    Fri,
    /// Saturday.
    Sat,
    /// Sunday.
    Sun,
}

impl Weekday {
    /// The number of the day in a week that begins on Sunday: 1 for
    /// Sunday, 2 for Monday, up to 7 for Saturday.
    pub open spec fn spec_number_from_sunday(&self) -> u8 {
        match self {
            Weekday::Sun => 1,
            Weekday::Mon => 2,
            Weekday::Tue => 3,
            Weekday::Wed => 4,
            Weekday::Thu => 5,
            Weekday::Fri => 6,
            Weekday::Sat => 7,
        }
    }

    /// The number of the day in a week that begins on Sunday, from 1 for
    /// Sunday to 7 for Saturday. This is the numbering in which a
    /// [`DateTime`] that comes from a timestamp holds its day of the week.
    #[verifier::when_used_as_spec(spec_number_from_sunday)]
    pub fn number_from_sunday(&self) -> (number: u8)
        ensures
            number == self.spec_number_from_sunday(),
            1 <= number <= 7,
    {
        match self {
            Weekday::Sun => 1,
            Weekday::Mon => 2,
            Weekday::Tue => 3,
            Weekday::Wed => 4,
            Weekday::Thu => 5,
            Weekday::Fri => 6,
            Weekday::Sat => 7,
        }
    }
}

/// The year of a timestamp: what `Datelike::year` returns of it.
pub uninterp spec fn stamp_year(datetime: chrono::naive::NaiveDateTime) -> int;

/// The month of a timestamp: what `Datelike::month` returns of it.
pub uninterp spec fn stamp_month(datetime: chrono::naive::NaiveDateTime) -> int;

/// The day of the month of a timestamp: what `Datelike::day` returns of
/// it.
pub uninterp spec fn stamp_day(datetime: chrono::naive::NaiveDateTime) -> int;

/// The day of the week of a timestamp: what `Datelike::weekday` returns of
/// it.
pub uninterp spec fn stamp_weekday(datetime: chrono::naive::NaiveDateTime) -> Weekday;

/// The hour of a timestamp: what `Timelike::hour` returns of it.
pub uninterp spec fn stamp_hour(datetime: chrono::naive::NaiveDateTime) -> int;

/// The minute of a timestamp: what `Timelike::minute` returns of it.
pub uninterp spec fn stamp_minute(datetime: chrono::naive::NaiveDateTime) -> int;

/// The second of a timestamp: what `Timelike::second` returns of it.
pub uninterp spec fn stamp_second(datetime: chrono::naive::NaiveDateTime) -> int;

/// The year of a calendar date: what `Datelike::year` returns of it.
pub uninterp spec fn date_year(date: chrono::naive::NaiveDate) -> int;

/// The month of a calendar date: what `Datelike::month` returns of it.
pub uninterp spec fn date_month(date: chrono::naive::NaiveDate) -> int;

/// The day of the month of a calendar date: what `Datelike::day` returns
/// of it.
pub uninterp spec fn date_day(date: chrono::naive::NaiveDate) -> int;

/// Whether chrono has a calendar date of this year, month and day: what
/// `NaiveDate::from_ymd_opt` decides.
pub uninterp spec fn calendar_date_exists(year: int, month: int, day: int) -> bool;

/// Calls `Datelike::year` on a `NaiveDateTime`. Claimed: the result is
/// the year of the timestamp, by name. Nothing is claimed of the number.
#[verifier::external_body]
fn naive_year(datetime: &chrono::naive::NaiveDateTime) -> (year: i32)
    ensures
        year == stamp_year(*datetime),
{
    chrono::Datelike::year(datetime)
}

/// Calls `Datelike::month` on a `NaiveDateTime`. Claimed: the result is
/// the month of the timestamp, by name, and is from 1 to 12, as
/// documented.
#[verifier::external_body]
fn naive_month(datetime: &chrono::naive::NaiveDateTime) -> (month: u32)
    ensures
        month == stamp_month(*datetime),
        1 <= month <= 12,
{
    chrono::Datelike::month(datetime)
}

/// Calls `Datelike::day` on a `NaiveDateTime`. Claimed: the result is the
/// day of the month of the timestamp, by name, and is from 1 to 31, as
/// documented.
#[verifier::external_body]
fn naive_day(datetime: &chrono::naive::NaiveDateTime) -> (day: u32)
    ensures
        day == stamp_day(*datetime),
        1 <= day <= 31,
{
    chrono::Datelike::day(datetime)
}

/// Calls `Datelike::weekday` on a `NaiveDateTime` and hands chrono's day
/// on as the day of the same name here. Claimed: the result is the day of
/// the week of the timestamp, by name.
#[verifier::external_body]
fn naive_weekday(datetime: &chrono::naive::NaiveDateTime) -> (weekday: Weekday)
    ensures
        weekday == stamp_weekday(*datetime),
{
    match chrono::Datelike::weekday(datetime) {
        chrono::Weekday::Mon => Weekday::Mon,
        chrono::Weekday::Tue => Weekday::Tue,
        chrono::Weekday::Wed => Weekday::Wed,
        chrono::Weekday::Thu => Weekday::Thu,
        chrono::Weekday::Fri => Weekday::Fri,
        chrono::Weekday::Sat => Weekday::Sat,
        chrono::Weekday::Sun => Weekday::Sun,
    }
}

/// Calls `Timelike::hour` on a `NaiveDateTime`. Claimed: the result is
/// the hour of the timestamp, by name, and is from 0 to 23, as
/// documented.
#[verifier::external_body]
fn naive_hour(datetime: &chrono::naive::NaiveDateTime) -> (hour: u32)
    ensures
        hour == stamp_hour(*datetime),
        hour <= 23,
{
    chrono::Timelike::hour(datetime)
}

/// Calls `Timelike::minute` on a `NaiveDateTime`. Claimed: the result is
/// the minute of the timestamp, by name, and is from 0 to 59, as
/// documented.
#[verifier::external_body]
fn naive_minute(datetime: &chrono::naive::NaiveDateTime) -> (minute: u32)
    ensures
        minute == stamp_minute(*datetime),
        minute <= 59,
{
    chrono::Timelike::minute(datetime)
}

/// Calls `Timelike::second` on a `NaiveDateTime`. Claimed: the result is
/// the second of the timestamp, by name, and is from 0 to 59, as
/// documented; a leap second shows in the nanoseconds.
#[verifier::external_body]
fn naive_second(datetime: &chrono::naive::NaiveDateTime) -> (second: u32)
    ensures
        second == stamp_second(*datetime),
        second <= 59,
{
    chrono::Timelike::second(datetime)
}

/// Calls `NaiveDate::from_ymd_opt`. Claimed: there is a date exactly when
/// chrono has one of this year, month and day; then the month is from 1
/// to 12 and the day from 1 to 31, as documented, and year, month and day
/// of the date are those given.
#[verifier::external_body]
fn naive_date(year: i32, month: u32, day: u32) -> (date: Option<chrono::naive::NaiveDate>)
    ensures
        date is Some <==> calendar_date_exists(year as int, month as int, day as int),
        date is Some ==> 1 <= month <= 12 && 1 <= day <= 31,
        date matches Some(made) ==> date_year(made) == year,
        date matches Some(made) ==> date_month(made) == month,
        date matches Some(made) ==> date_day(made) == day,
{
    chrono::naive::NaiveDate::from_ymd_opt(year, month, day)
}

/// Calls `NaiveDate::and_hms_opt`. Claimed: there is a timestamp exactly
/// when the hour is at most 23 and minute and second are at most 59, as
/// documented; then year, month and day of the timestamp are those of the
/// date, and its hour, minute and second are those given.
#[verifier::external_body]
fn naive_date_and_hms(
    date: &chrono::naive::NaiveDate,
    hour: u32,
    min: u32,
    sec: u32,
) -> (stamp: Option<chrono::naive::NaiveDateTime>)
    ensures
        stamp is Some <==> (hour <= 23 && min <= 59 && sec <= 59),
        stamp matches Some(made) ==> stamp_year(made) == date_year(*date),
        stamp matches Some(made) ==> stamp_month(made) == date_month(*date),
        stamp matches Some(made) ==> stamp_day(made) == date_day(*date),
        stamp matches Some(made) ==> stamp_hour(made) == hour,
        stamp matches Some(made) ==> stamp_minute(made) == min,
        stamp matches Some(made) ==> stamp_second(made) == sec,
{
    date.and_hms_opt(hour, min, sec)
}

impl DateTime {
    /// The time value of calendar fields: each field cut to the width it
    /// has here. A year from 0 to 65535 and any other field from 0 to 255
    /// is kept as it is.
    pub open spec fn spec_from_calendar(
        year: i32,
        month: u32,
        day: u32,
        weekday: u32,
        hour: u32,
        minute: u32,
        second: u32,
    ) -> DateTime {
        DateTime {
            seconds: second as u8,
            minutes: minute as u8,
            hours: hour as u8,
            weekday: weekday as u8,
            date: day as u8,
            month: month as u8,
            year: year as u16,
        }
    }

    /// The time value of a timestamp: what chrono reads from the
    /// timestamp, field by field, with the day of the week numbered from 1
    /// for Sunday to 7 for Saturday, each field cut to the width it has
    /// here.
    pub open spec fn spec_from_naive(datetime: chrono::naive::NaiveDateTime) -> DateTime {
        DateTime {
            seconds: stamp_second(datetime) as u8,
            minutes: stamp_minute(datetime) as u8,
            hours: stamp_hour(datetime) as u8,
            weekday: stamp_weekday(datetime).number_from_sunday(),
            date: stamp_day(datetime) as u8,
            month: stamp_month(datetime) as u8,
            year: stamp_year(datetime) as u16,
        }
    }

    /// Builds the time value of calendar fields as a calendar library
    /// reports them: a year, a month and day of the month from 1, a number
    /// for the day of the week, hour, minute and second.
    pub fn from_calendar(
        year: i32,
        month: u32,
        day: u32,
        weekday: u32,
        hour: u32,
        minute: u32,
        second: u32,
    ) -> (r: DateTime)
        ensures
            r == DateTime::spec_from_calendar(year, month, day, weekday, hour, minute, second),
            0 <= year <= 0xFFFF ==> r.year == year,
            month <= 0xFF ==> r.month == month,
            day <= 0xFF ==> r.date == day,
            weekday <= 0xFF ==> r.weekday == weekday,
            hour <= 0xFF ==> r.hours == hour,
            minute <= 0xFF ==> r.minutes == minute,
            second <= 0xFF ==> r.seconds == second,
    {
        DateTime {
            seconds: #[verifier::truncate] (second as u8),
            minutes: #[verifier::truncate] (minute as u8),
            hours: #[verifier::truncate] (hour as u8),
            weekday: #[verifier::truncate] (weekday as u8),
            date: #[verifier::truncate] (day as u8),
            month: #[verifier::truncate] (month as u8),
            year: #[verifier::truncate] (year as u16),
        }
    }

    /// The time value of a timestamp: its year, month, day of the month,
    /// hour, minute and second, and its day of the week numbered from 1
    /// for Sunday to 7 for Saturday.
    ///
    /// Every field but the year is the timestamp's own. The year is the
    /// timestamp's where it is from 0 to 65535, and is cut to sixteen bits
    /// where it is not. Only the year can keep the result from being
    /// written to the chip.
    pub fn from_naive(datetime: chrono::naive::NaiveDateTime) -> (r: DateTime)
        ensures
            r == DateTime::spec_from_naive(datetime),
            r.seconds == stamp_second(datetime) && r.seconds <= 59,
            r.minutes == stamp_minute(datetime) && r.minutes <= 59,
            r.hours == stamp_hour(datetime) && r.hours <= 23,
            r.weekday == stamp_weekday(datetime).number_from_sunday() && 1 <= r.weekday <= 7,
            r.date == stamp_day(datetime) && 1 <= r.date <= 31,
            r.month == stamp_month(datetime) && 1 <= r.month <= 12,
            0 <= stamp_year(datetime) <= 0xFFFF ==> r.year == stamp_year(datetime),
            r.rejected() is Some ==> r.rejected() == Some(r.year),
    {
        let weekday = naive_weekday(&datetime);
        DateTime::from_calendar(
            naive_year(&datetime),
            naive_month(&datetime),
            naive_day(&datetime),
            weekday.number_from_sunday() as u32,
            naive_hour(&datetime),
            naive_minute(&datetime),
            naive_second(&datetime),
        )
    }

    /// The timestamp of this time value, if its fields make one up: there
    /// is one exactly when the calendar has the date and hour, minute and
    /// second are those of a time of day. Year, month, day, hour, minute
    /// and second of the timestamp are then those of this time value, so
    /// that [`DateTime::from_naive`] gives this time value back, with the
    /// day of the week that the calendar has for the date. The day of the
    /// week held here is not consulted.
    pub fn to_naive(&self) -> (r: Option<chrono::naive::NaiveDateTime>)
        ensures
            r is Some <==> calendar_date_exists(
                self.year as int,
                self.month as int,
                self.date as int,
            ) && self.hours <= 23 && self.minutes <= 59 && self.seconds <= 59,
            r is Some ==> 1 <= self.month <= 12 && 1 <= self.date <= 31,
            r matches Some(stamp) ==> {
                &&& stamp_year(stamp) == self.year
                &&& stamp_month(stamp) == self.month
                &&& stamp_day(stamp) == self.date
                &&& stamp_hour(stamp) == self.hours
                &&& stamp_minute(stamp) == self.minutes
                &&& stamp_second(stamp) == self.seconds
            },
            r matches Some(stamp) ==> DateTime::spec_from_naive(stamp) == (DateTime {
                weekday: stamp_weekday(stamp).number_from_sunday(),
                ..*self
            }),
    {
        match naive_date(self.year as i32, self.month as u32, self.date as u32) {
            Some(date) => naive_date_and_hms(
                &date,
                self.hours as u32,
                self.minutes as u32,
                self.seconds as u32,
            ),
            None => None,
        }
    }
}

} // verus!

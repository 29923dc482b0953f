use chrono::naive::{NaiveDate, NaiveDateTime};
use chrono::{Datelike, Timelike};
use mcp795xx::calendar::Weekday;
use mcp795xx::DateTime;

fn stamp(y: i32, mo: u32, d: u32, h: u32, mi: u32, s: u32) -> NaiveDateTime {
    NaiveDate::from_ymd_opt(y, mo, d).unwrap().and_hms_opt(h, mi, s).unwrap()
}

#[test]
fn from_naive_reads_every_field() {
    // 15 March 2024 was a Friday: the sixth day counted from Sunday
    assert_eq!(
        DateTime::from_naive(stamp(2024, 3, 15, 14, 30, 45)),
        DateTime { seconds: 45, minutes: 30, hours: 14, weekday: 6, date: 15, month: 3, year: 2024 }
    );
}

#[test]
fn from_naive_numbers_the_week_from_sunday() {
    // 3 March 2024 was a Sunday
    for offset in 0..7u32 {
        let t = DateTime::from_naive(stamp(2024, 3, 3 + offset, 0, 0, 0));
        assert_eq!(t.weekday as u32, offset + 1);
        assert_eq!(t.date as u32, 3 + offset);
    }
}

#[test]
fn from_naive_cuts_the_year_to_sixteen_bits() {
    assert_eq!(DateTime::from_naive(stamp(70000, 1, 1, 0, 0, 0)).year, 4464);
    assert_eq!(DateTime::from_naive(stamp(-1, 12, 31, 23, 59, 59)).year, 65535);
    assert_eq!(DateTime::from_naive(stamp(1999, 12, 31, 23, 59, 59)).year, 1999);
}

#[test]
fn from_calendar_cuts_each_field_to_its_width() {
    assert_eq!(
        DateTime::from_calendar(2024, 3, 15, 6, 14, 30, 45),
        DateTime { seconds: 45, minutes: 30, hours: 14, weekday: 6, date: 15, month: 3, year: 2024 }
    );
    assert_eq!(
        DateTime::from_calendar(65536 + 2024, 256 + 3, 256 + 15, 256 + 6, 256 + 14, 256 + 30, 256 + 45),
        DateTime { seconds: 45, minutes: 30, hours: 14, weekday: 6, date: 15, month: 3, year: 2024 }
    );
    assert_eq!(DateTime::from_calendar(-1, 255, 255, 255, 255, 255, 255).year, 65535);
}

#[test]
fn to_naive_builds_the_timestamp() {
    let t = DateTime { seconds: 45, minutes: 30, hours: 14, weekday: 6, date: 15, month: 3, year: 2024 };
    assert_eq!(t.to_naive(), Some(stamp(2024, 3, 15, 14, 30, 45)));
    // the day of the week is not consulted
    let t = DateTime { weekday: 0, ..t };
    assert_eq!(t.to_naive(), Some(stamp(2024, 3, 15, 14, 30, 45)));
}

#[test]
fn to_naive_and_back() {
    for s in [stamp(2000, 1, 1, 0, 0, 0), stamp(2024, 2, 29, 23, 59, 59), stamp(2099, 12, 31, 12, 0, 1)]
    {
        assert_eq!(DateTime::from_naive(s).to_naive(), Some(s));
    }
}

#[test]
fn to_naive_fails_on_a_date_that_does_not_exist() {
    let ok = DateTime { seconds: 0, minutes: 0, hours: 0, weekday: 1, date: 1, month: 1, year: 2023 };
    assert_eq!(DateTime { month: 2, date: 30, ..ok }.to_naive(), None);
    assert_eq!(DateTime { month: 2, date: 29, ..ok }.to_naive(), None);
    assert_eq!(DateTime { month: 4, date: 31, ..ok }.to_naive(), None);
    assert_eq!(DateTime { month: 0, ..ok }.to_naive(), None);
    assert_eq!(DateTime { month: 13, ..ok }.to_naive(), None);
    assert_eq!(DateTime { date: 0, ..ok }.to_naive(), None);
    assert_eq!(DateTime { date: 32, ..ok }.to_naive(), None);
    assert!(DateTime { month: 2, date: 29, year: 2024, ..ok }.to_naive().is_some());
}

#[test]
fn to_naive_fails_on_a_time_that_does_not_exist() {
    let ok = DateTime { seconds: 0, minutes: 0, hours: 0, weekday: 1, date: 1, month: 1, year: 2023 };
    assert_eq!(DateTime { hours: 24, ..ok }.to_naive(), None);
    assert_eq!(DateTime { minutes: 60, ..ok }.to_naive(), None);
    assert_eq!(DateTime { seconds: 60, ..ok }.to_naive(), None);
    assert!(DateTime { hours: 23, minutes: 59, seconds: 59, ..ok }.to_naive().is_some());
}

#[test]
fn weekday_numbers_from_sunday() {
    assert_eq!(Weekday::Sun.number_from_sunday(), 1);
    assert_eq!(Weekday::Mon.number_from_sunday(), 2);
    assert_eq!(Weekday::Tue.number_from_sunday(), 3);
    assert_eq!(Weekday::Wed.number_from_sunday(), 4);
    assert_eq!(Weekday::Thu.number_from_sunday(), 5);
    assert_eq!(Weekday::Fri.number_from_sunday(), 6);
    assert_eq!(Weekday::Sat.number_from_sunday(), 7);
}

#[test]
fn from_naive_numbers_each_day_as_chrono_does() {
    // four weeks across the end of a leap-year February
    for offset in 0..28i64 {
        let s = stamp(2024, 2, 15, 6, 7, 8) + chrono::TimeDelta::days(offset);
        let t = DateTime::from_naive(s);
        assert_eq!(t.weekday as u32, s.weekday().number_from_sunday());
        assert_eq!(t.date as u32, s.day());
        assert_eq!(t.month as u32, s.month());
        assert_eq!(t.year as i32, s.year());
    }
}

#[test]
fn to_naive_keeps_each_field() {
    let t = DateTime { seconds: 1, minutes: 2, hours: 3, weekday: 4, date: 5, month: 6, year: 2007 };
    let s = t.to_naive().unwrap();
    assert_eq!(
        (s.year(), s.month(), s.day(), s.hour(), s.minute(), s.second()),
        (2007, 6, 5, 3, 2, 1)
    );
    // 5 June 2007 was a Tuesday
    assert_eq!(DateTime::from_naive(s), DateTime { weekday: 3, ..t });
}

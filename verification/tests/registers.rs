use mcp795xx::registers::{
    RTCDATE, RTCHOUR, RTCHSEC, RTCMIN, RTCMTH, RTCSEC, RTCWKDAY, RTCYEAR, BASE_YEAR,
};
use mcp795xx::InvalidInput;

#[test]
#[allow(non_snake_case)]
fn RTCSEC_test() {
    let a = RTCSEC(1 << 7 | 4 << 4 | 5);
    assert_eq!(a.ST(), true);
    assert_eq!(a.seconds(), 45);
}

#[test]
fn seconds_round_trip_from_any_register() {
    for prior in 0..=255u8 {
        for s in 0..=59u8 {
            let mut r = RTCSEC(prior);
            assert_eq!(r.set_seconds(s), Ok(()));
            assert_eq!(r.seconds(), s);
            assert!(r.ST());
        }
    }
}

#[test]
fn seconds_45_pack_to_c5() {
    let mut r = RTCSEC(0);
    assert_eq!(r.set_seconds(45), Ok(()));
    assert_eq!(r.0, 0b1_100_0101);
    assert_eq!(r.seconds(), 45);
    assert_eq!(RTCSEC(0b0_100_0101).seconds(), 45);
}

#[test]
fn seconds_above_59_are_refused() {
    for prior in [0u8, 0x45, 0xC5, 0xFF] {
        for s in 60..=255u8 {
            let mut r = RTCSEC(prior);
            assert_eq!(r.set_seconds(s), Err(InvalidInput(s as u16)));
            assert_eq!(r.0, prior);
        }
    }
}

#[test]
fn seconds_flag_accessors() {
    let mut r = RTCSEC(0x45);
    assert!(!r.ST());
    r.set_st(true);
    assert_eq!(r.0, 0xC5);
    r.set_st(false);
    assert_eq!(r.0, 0x45);
    assert_eq!(r.SECTEN(), 4);
    assert_eq!(r.SECONE(), 5);
    r.set_SECTEN(0xFF);
    assert_eq!(r.0, 0x75);
    r.set_SECONE(0x19);
    assert_eq!(r.0, 0x79);
}

#[test]
fn hundredths_round_trip_and_refusal() {
    for prior in [0u8, 0x5A, 0xFF] {
        for v in 0..=99u8 {
            let mut r = RTCHSEC(prior);
            assert_eq!(r.set_hundreth_seconds(v), Ok(()));
            assert_eq!(r.hundreth_seconds(), v);
            assert_eq!(r.0, (v / 10) << 4 | (v % 10));
        }
        for v in 100..=255u8 {
            let mut r = RTCHSEC(prior);
            assert_eq!(r.set_hundreth_seconds(v), Err(InvalidInput(v as u16)));
            assert_eq!(r.0, prior);
        }
    }
    assert_eq!(RTCHSEC(0x99).hundreth_seconds(), 99);
    assert_eq!(RTCHSEC(0xFF).hundreth_seconds(), 165);
}

#[test]
fn minutes_round_trip_and_refusal() {
    for prior in [0u8, 0x80, 0x7F, 0xFF] {
        for v in 0..=59u8 {
            let mut r = RTCMIN(prior);
            assert_eq!(r.set_minutes(v), Ok(()));
            assert_eq!(r.minutes(), v);
            assert_eq!(r.0, (prior & 0x80) | (v / 10) << 4 | (v % 10));
        }
        for v in 60..=255u8 {
            let mut r = RTCMIN(prior);
            assert_eq!(r.set_minutes(v), Err(InvalidInput(v as u16)));
            assert_eq!(r.0, prior);
        }
    }
    assert_eq!(RTCMIN(0x30).minutes(), 30);
}

#[test]
fn hours_military_round_trip_and_refusal() {
    for prior in [0u8, 0x40, 0x80, 0x7F, 0xFF] {
        for v in 0..=23u8 {
            let mut r = RTCHOUR(prior);
            assert_eq!(r.set_hours_military(v), Ok(()));
            assert_eq!(r.hours(), v);
            assert!(!r.FORMAT());
            assert_eq!(r.TRIMSIGN(), prior & 0x80 != 0);
            assert_eq!(r.0, (prior & 0x80) | (v / 10) << 4 | (v % 10));
        }
        for v in 24..=255u8 {
            let mut r = RTCHOUR(prior);
            assert_eq!(r.set_hours_military(v), Err(InvalidInput(v as u16)));
            assert_eq!(r.0, prior);
        }
    }
    assert_eq!(RTCHOUR(0x14).hours(), 14);
}

#[test]
fn hours_std_round_trip_and_refusal() {
    for prior in [0u8, 0x40, 0x80, 0x3F, 0xFF] {
        for pm in [false, true] {
            for v in 0..=12u8 {
                let mut r = RTCHOUR(prior);
                assert_eq!(r.set_hours_std(v, pm), Ok(()));
                assert_eq!(r.hours(), v);
                assert!(r.FORMAT());
                assert_eq!(r.PM(), pm);
                assert_eq!(
                    r.0,
                    (prior & 0x80) | 0x40 | (pm as u8) << 5 | (v / 10) << 4 | (v % 10)
                );
            }
            for v in 13..=255u8 {
                let mut r = RTCHOUR(prior);
                assert_eq!(r.set_hours_std(v, pm), Err(InvalidInput(v as u16)));
                assert_eq!(r.0, prior);
            }
        }
    }
}

#[test]
fn hours_decode_reads_the_format_flag() {
    // 12-hour format, PM, 11 o'clock: format 1, PM 1, tens 1, ones 1
    let r = RTCHOUR(0b0111_0001);
    assert!(r.FORMAT());
    assert!(r.PM());
    assert_eq!(r.HOURTEN_STD(), 1);
    assert_eq!(r.HOURTEN_MILITARY(), 3);
    assert_eq!(r.hours(), 11);
    // the same digit bits in the 24-hour format spell 31
    let r = RTCHOUR(0b0011_0001);
    assert!(!r.FORMAT());
    assert_eq!(r.hours(), 31);
    // 24-hour format, 23 o'clock
    assert_eq!(RTCHOUR(0x23).hours(), 23);
}

#[test]
fn weekday_3_forces_the_flags_whatever_was_there() {
    for prior in 0..=255u8 {
        let mut r = RTCWKDAY(prior);
        r.set_weekday(3);
        assert!(r.VBATEN());
        assert!(!r.PWRFAIL());
        assert_eq!(r.weekday(), 3);
        assert_eq!(r.OSCRUN(), prior & 0x20 != 0);
        assert_eq!(r.0, (prior & 0xE0) | 0x08 | 3);
    }
}

#[test]
fn weekday_round_trip_and_truncation() {
    for prior in [0u8, 0x38, 0xC7, 0xFF] {
        for v in 0..=255u8 {
            let mut r = RTCWKDAY(prior);
            r.set_weekday(v);
            assert_eq!(r.weekday(), v % 8);
            assert_eq!(r.WKDAY(), v % 8);
            assert!(r.VBATEN());
            assert!(!r.PWRFAIL());
        }
    }
    let mut r = RTCWKDAY(0);
    r.set_weekday(6);
    assert_eq!(r.0, 0x0E);
    assert_eq!(RTCWKDAY(0x2E).weekday(), 6);
}

#[test]
fn weekday_flag_accessors() {
    let mut r = RTCWKDAY(0);
    r.set_OSCRUN(true);
    assert_eq!(r.0, 0x20);
    r.set_PWRFAIL(true);
    assert_eq!(r.0, 0x30);
    r.set_VBATEN(true);
    assert_eq!(r.0, 0x38);
    r.set_WKDAY(0xFF);
    assert_eq!(r.0, 0x3F);
    assert!(r.OSCRUN() && r.PWRFAIL() && r.VBATEN());
    r.set_PWRFAIL(false);
    assert_eq!(r.0, 0x2F);
}

#[test]
fn date_round_trip_and_refusal() {
    for prior in [0u8, 0xC0, 0x3F, 0xFF] {
        for v in 0..=31u8 {
            let mut r = RTCDATE(prior);
            assert_eq!(r.set_date(v), Ok(()));
            assert_eq!(r.date(), v);
            assert_eq!(r.0, (prior & 0xC0) | (v / 10) << 4 | (v % 10));
        }
        for v in 32..=255u8 {
            let mut r = RTCDATE(prior);
            assert_eq!(r.set_date(v), Err(InvalidInput(v as u16)));
            assert_eq!(r.0, prior);
        }
    }
    assert_eq!(RTCDATE(0x15).date(), 15);
}

#[test]
fn month_round_trip_and_refusal() {
    for prior in [0u8, 0x20, 0xE0, 0x1F, 0xFF] {
        for v in 0..=12u8 {
            let mut r = RTCMTH(prior);
            assert_eq!(r.set_month(v), Ok(()));
            assert_eq!(r.month(), v);
            assert_eq!(r.LPYR(), prior & 0x20 != 0);
            assert_eq!(r.0, (prior & 0xE0) | (v / 10) << 4 | (v % 10));
        }
        for v in 13..=255u8 {
            let mut r = RTCMTH(prior);
            assert_eq!(r.set_month(v), Err(InvalidInput(v as u16)));
            assert_eq!(r.0, prior);
        }
    }
    // the leap-year flag is not part of the month
    assert_eq!(RTCMTH(0x22).month(), 2);
    assert!(RTCMTH(0x22).LPYR());
}

#[test]
fn year_round_trip_over_the_century() {
    assert_eq!(BASE_YEAR, 2000);
    for prior in [0u8, 0x5A, 0xFF] {
        for y in 2000..=2099u16 {
            let mut r = RTCYEAR(prior);
            assert_eq!(r.set_year(y), Ok(()));
            assert_eq!(r.year(), y);
            let offset = (y - 2000) as u8;
            assert_eq!(r.0, (offset / 10) << 4 | (offset % 10));
        }
    }
    let mut r = RTCYEAR(0);
    assert_eq!(r.set_year(2024), Ok(()));
    assert_eq!(r.0, 0x24);
    assert_eq!(RTCYEAR(0x99).year(), 2099);
    assert_eq!(RTCYEAR(0xFF).year(), 2165);
}

#[test]
fn year_outside_the_century_is_refused() {
    for y in [0u16, 1, 1999, 2100, 2101, 9999, u16::MAX] {
        let mut r = RTCYEAR(0x24);
        assert_eq!(r.set_year(y), Err(InvalidInput(y)));
        assert_eq!(r.0, 0x24);
    }
}

#[test]
fn each_setter_refuses_the_first_value_past_its_range() {
    let mut sec = RTCSEC(0x12);
    assert_eq!(sec.set_seconds(60), Err(InvalidInput(60)));
    assert_eq!(sec.0, 0x12);
    let mut min = RTCMIN(0x12);
    assert_eq!(min.set_minutes(60), Err(InvalidInput(60)));
    assert_eq!(min.0, 0x12);
    let mut hour = RTCHOUR(0x12);
    assert_eq!(hour.set_hours_military(24), Err(InvalidInput(24)));
    assert_eq!(hour.0, 0x12);
    assert_eq!(hour.set_hours_std(13, false), Err(InvalidInput(13)));
    assert_eq!(hour.0, 0x12);
    let mut date = RTCDATE(0x12);
    assert_eq!(date.set_date(32), Err(InvalidInput(32)));
    assert_eq!(date.0, 0x12);
    let mut month = RTCMTH(0x12);
    assert_eq!(month.set_month(13), Err(InvalidInput(13)));
    assert_eq!(month.0, 0x12);
}

#[test]
fn decoding_never_fails() {
    for b in 0..=255u8 {
        let tens3 = (b >> 4) & 7;
        let ones = b & 15;
        assert_eq!(RTCSEC(b).seconds(), tens3 * 10 + ones);
        assert_eq!(RTCMIN(b).minutes(), tens3 * 10 + ones);
        assert_eq!(RTCHSEC(b).hundreth_seconds(), (b >> 4) * 10 + ones);
        assert_eq!(RTCDATE(b).date(), ((b >> 4) & 3) * 10 + ones);
        assert_eq!(RTCMTH(b).month(), ((b >> 4) & 1) * 10 + ones);
        assert_eq!(RTCYEAR(b).year(), 2000 + ((b >> 4) as u16) * 10 + ones as u16);
        assert_eq!(RTCWKDAY(b).weekday(), b & 7);
        let hours = if b & 0x40 != 0 {
            ((b >> 4) & 1) * 10 + ones
        } else {
            ((b >> 4) & 3) * 10 + ones
        };
        assert_eq!(RTCHOUR(b).hours(), hours);
    }
}

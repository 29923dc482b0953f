use mcp795xx::frame::{
    decode_frame, read_frame, write_frame, ADDR_CONTROL, ADDR_RTCDATE, ADDR_RTCHOUR,
    ADDR_RTCHSEC, ADDR_RTCMIN, ADDR_RTCMTH, ADDR_RTCSEC, ADDR_RTCWKDAY, ADDR_RTCYEAR, READ, WRITE,
};
use mcp795xx::{DateTime, InvalidInput};

fn sample() -> DateTime {
    DateTime { seconds: 45, minutes: 30, hours: 14, weekday: 6, date: 15, month: 3, year: 2024 }
}

#[test]
fn write_frame_of_the_sample_time() {
    assert_eq!(
        write_frame(&sample()),
        Ok([0x12, 0x00, 0x00, 0xC5, 0x30, 0x14, 0x0E, 0x15, 0x03, 0x24])
    );
}

#[test]
fn frame_constants() {
    assert_eq!(WRITE, 0x12);
    assert_eq!(READ, 0x13);
    assert_eq!(
        [
            ADDR_RTCHSEC,
            ADDR_RTCSEC,
            ADDR_RTCMIN,
            ADDR_RTCHOUR,
            ADDR_RTCWKDAY,
            ADDR_RTCDATE,
            ADDR_RTCMTH,
            ADDR_RTCYEAR,
            ADDR_CONTROL
        ],
        [0, 1, 2, 3, 4, 5, 6, 7, 8]
    );
}

#[test]
fn read_frame_is_fixed() {
    assert_eq!(read_frame(), [0x13, 0x01, 0, 0, 0, 0, 0, 0, 0, 0]);
}

#[test]
fn write_frame_edges() {
    let first = DateTime { seconds: 0, minutes: 0, hours: 0, weekday: 1, date: 1, month: 1, year: 2000 };
    assert_eq!(write_frame(&first), Ok([0x12, 0, 0, 0x80, 0, 0, 0x09, 0x01, 0x01, 0x00]));
    let last =
        DateTime { seconds: 59, minutes: 59, hours: 23, weekday: 7, date: 31, month: 12, year: 2099 };
    assert_eq!(write_frame(&last), Ok([0x12, 0, 0, 0xD9, 0x59, 0x23, 0x0F, 0x31, 0x12, 0x99]));
}

#[test]
fn write_frame_reports_the_first_refused_field() {
    let ok = sample();
    assert_eq!(write_frame(&DateTime { seconds: 60, ..ok }), Err(InvalidInput(60)));
    assert_eq!(write_frame(&DateTime { minutes: 61, ..ok }), Err(InvalidInput(61)));
    assert_eq!(write_frame(&DateTime { hours: 24, ..ok }), Err(InvalidInput(24)));
    assert_eq!(write_frame(&DateTime { date: 32, ..ok }), Err(InvalidInput(32)));
    assert_eq!(write_frame(&DateTime { month: 13, ..ok }), Err(InvalidInput(13)));
    assert_eq!(write_frame(&DateTime { year: 1999, ..ok }), Err(InvalidInput(1999)));
    assert_eq!(write_frame(&DateTime { year: 2100, ..ok }), Err(InvalidInput(2100)));
    // seconds are looked at before minutes, minutes before the year
    assert_eq!(
        write_frame(&DateTime { seconds: 77, minutes: 88, year: 1, ..ok }),
        Err(InvalidInput(77))
    );
    assert_eq!(write_frame(&DateTime { minutes: 88, year: 1, ..ok }), Err(InvalidInput(88)));
    assert_eq!(write_frame(&DateTime { date: 40, month: 50, ..ok }), Err(InvalidInput(40)));
}

#[test]
fn write_frame_takes_any_day_of_the_week() {
    let ok = sample();
    assert_eq!(write_frame(&DateTime { weekday: 0, ..ok }).unwrap()[6], 0x08);
    assert_eq!(write_frame(&DateTime { weekday: 9, ..ok }).unwrap()[6], 0x09);
    assert_eq!(write_frame(&DateTime { weekday: 255, ..ok }).unwrap()[6], 0x0F);
}

#[test]
fn decode_frame_reads_bytes_2_to_8() {
    let answer = [0x13, 0x01, 0xC5, 0x30, 0x14, 0x2E, 0x15, 0x23, 0x24, 0xFF];
    assert_eq!(decode_frame(&answer), sample());
    // instruction, address and control register play no part
    let other = [0x00, 0xFF, 0xC5, 0x30, 0x14, 0x2E, 0x15, 0x23, 0x24, 0x00];
    assert_eq!(decode_frame(&other), sample());
}

#[test]
fn decode_frame_takes_any_bytes() {
    let t = decode_frame(&[0xFF; 10]);
    assert_eq!(
        t,
        DateTime { seconds: 85, minutes: 85, hours: 25, weekday: 7, date: 45, month: 25, year: 2165 }
    );
    let t = decode_frame(&[0; 10]);
    assert_eq!(
        t,
        DateTime { seconds: 0, minutes: 0, hours: 0, weekday: 0, date: 0, month: 0, year: 2000 }
    );
}

#[test]
fn what_is_written_reads_back() {
    for (s, mi, h, wd, d, mo, y) in [
        (0u8, 0u8, 0u8, 1u8, 1u8, 1u8, 2000u16),
        (45, 30, 14, 6, 15, 3, 2024),
        (59, 59, 23, 7, 31, 12, 2099),
        (9, 10, 19, 0, 0, 0, 2050),
    ] {
        let t = DateTime { seconds: s, minutes: mi, hours: h, weekday: wd, date: d, month: mo, year: y };
        let written = write_frame(&t).unwrap();
        let mut answer = read_frame();
        answer[2..9].copy_from_slice(&written[3..10]);
        assert_eq!(decode_frame(&answer), t);
    }
}

#[test]
fn reading_then_writing_keeps_the_registers() {
    // seconds without the oscillator flag, weekday with all three flags
    // the other way round: these are the bits that a write forces
    let answer = [0x13, 0x01, 0x45, 0x30, 0x14, 0x36, 0x15, 0x03, 0x24, 0x00];
    let written = write_frame(&decode_frame(&answer)).unwrap();
    assert_eq!(written[3], answer[2] | 0x80);
    assert_eq!(written[4], answer[3]);
    assert_eq!(written[5], answer[4]);
    assert_eq!(written[6], (answer[5] & !0x38) | 0x08);
    assert_eq!(written[7], answer[6]);
    assert_eq!(written[8], answer[7]);
    assert_eq!(written[9], answer[8]);
}

#[test]
fn reading_then_writing_every_canonical_register() {
    for s in 0..=59u8 {
        for flags in [0u8, 0x80] {
            let b = flags | (s / 10) << 4 | (s % 10);
            let mut answer = [0x13, 0x01, b, 0, 0, 0, 0, 0, 0, 0];
            answer[3] = b & 0x7F;
            answer[4] = if s <= 23 { b & 0x7F } else { 0 };
            answer[5] = (s % 8) | (flags >> 2);
            answer[6] = if s <= 31 { b & 0x7F } else { 0 };
            answer[7] = if s <= 12 { b & 0x7F } else { 0 };
            answer[8] = b & 0x7F;
            let written = write_frame(&decode_frame(&answer)).unwrap();
            assert_eq!(written[3], answer[2] | 0x80);
            assert_eq!(&written[4..6], &answer[3..5]);
            assert_eq!(written[6], (answer[5] & 0xC7) | 0x08);
            assert_eq!(&written[7..10], &answer[6..9]);
        }
    }
}

#[test]
fn a_register_without_decimal_digits_does_not_come_back() {
    // ones digit of ten: read as 10 seconds, written back as 0x10
    let answer = [0x13, 0x01, 0x0A, 0, 0, 0, 0x01, 0x01, 0, 0];
    let t = decode_frame(&answer);
    assert_eq!(t.seconds, 10);
    assert_eq!(write_frame(&t).unwrap()[3], 0x90);
    // twelve-hour format: written back in the 24-hour format
    let answer = [0x13, 0x01, 0, 0, 0x71, 0, 0x01, 0x01, 0, 0];
    let t = decode_frame(&answer);
    assert_eq!(t.hours, 11);
    assert_eq!(write_frame(&t).unwrap()[5], 0x11);
    // sixty seconds and more are read but cannot be written
    let answer = [0x13, 0x01, 0x60, 0, 0, 0, 0x01, 0x01, 0, 0];
    assert_eq!(write_frame(&decode_frame(&answer)), Err(InvalidInput(60)));
}

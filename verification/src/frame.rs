//! The two frames that move the time over the bus.
//!
//! A frame is ten bytes: an instruction, the address of the first register,
//! and eight register bytes, which the chip takes as the registers at that
//! address and at the seven addresses after it. The frame that sets the
//! time starts at the hundredths register and carries the seven packed time
//! registers behind a zero for the hundredths. The frame that reads the
//! time starts at the seconds register; its eight register bytes go out as
//! zeros and come back holding the registers from seconds to year, and the
//! control register after them.

use vstd::prelude::*;
use crate::datetime::DateTime;
use crate::error::InvalidInput;
use crate::bits::with_flag;
use crate::registers::{
    bcd, lemma_date_in_numbers, lemma_date_packed, lemma_date_rewritten, lemma_date_round_trip,
    lemma_hours_in_numbers, lemma_hours_military_round_trip, lemma_hours_packed,
    lemma_hours_rewritten, lemma_minutes_in_numbers, lemma_minutes_packed,
    lemma_minutes_rewritten, lemma_minutes_round_trip, lemma_month_in_numbers,
    lemma_month_packed, lemma_month_rewritten, lemma_month_round_trip, lemma_seconds_in_numbers,
    lemma_seconds_packed, lemma_seconds_rewritten, lemma_seconds_round_trip,
    lemma_weekday_in_numbers, lemma_weekday_packed, lemma_weekday_rewritten,
    lemma_weekday_round_trip, lemma_year_in_numbers, lemma_year_packed, lemma_year_rewritten,
    lemma_year_round_trip, BASE_YEAR, RTCDATE, RTCHOUR, RTCMIN, RTCMTH, RTCSEC, RTCWKDAY, RTCYEAR,
};

verus! {

/// Instruction: read from the clock registers and SRAM, from the address
/// that follows.
pub const READ: u8 = 0x13;

/// Instruction: write to the clock registers and SRAM, from the address
/// that follows.
pub const WRITE: u8 = 0x12;

/// Address of the hundredths-of-a-second register, where a write of the
/// time begins.
pub const ADDR_RTCHSEC: u8 = 0x00;

/// Address of the seconds register, where a read of the time begins.
pub const ADDR_RTCSEC: u8 = 0x01;

/// Address of the minutes register.
pub const ADDR_RTCMIN: u8 = 0x02;

/// Address of the hours register.
pub const ADDR_RTCHOUR: u8 = 0x03;

/// Address of the weekday register.
pub const ADDR_RTCWKDAY: u8 = 0x04;

/// Address of the date register.
pub const ADDR_RTCDATE: u8 = 0x05;

/// Address of the month register.
pub const ADDR_RTCMTH: u8 = 0x06;

/// Address of the year register.
pub const ADDR_RTCYEAR: u8 = 0x07;

/// Address of the control register, the last that a read of the time
/// brings back.
pub const ADDR_CONTROL: u8 = 0x08;

/// The frame that sets the chip to `datetime`: the write instruction, the
/// address of the hundredths register, zero hundredths, then the seconds
/// register with the oscillator started, the minutes, the hours in the
/// 24-hour format, the day of the week with the battery enabled, the day
/// of the month, the month and the year, each packed into a register that
/// was zero before.
pub open spec fn write_frame_of(datetime: DateTime) -> Seq<u8> {
    seq![
        WRITE,
        ADDR_RTCHSEC,
        0u8,
        RTCSEC(0).with_seconds(datetime.seconds).0,
        RTCMIN(0).with_minutes(datetime.minutes).0,
        RTCHOUR(0).with_hours_military(datetime.hours).0,
        RTCWKDAY(0).with_weekday(datetime.weekday).0,
        RTCDATE(0).with_date(datetime.date).0,
        RTCMTH(0).with_month(datetime.month).0,
        RTCYEAR(0).with_year(datetime.year).0,
    ]
}

/// The frame that asks for the time: the read instruction, the address of
/// the seconds register, and eight zeros for the chip to overwrite.
pub open spec fn read_frame_of() -> Seq<u8> {
    seq![READ, ADDR_RTCSEC, 0u8, 0u8, 0u8, 0u8, 0u8, 0u8, 0u8, 0u8]
}

/// The time that a read frame holds once the chip has filled it in: bytes
/// 2 to 8 are the registers from seconds to year. Bytes 0 and 1 and the
/// control register in byte 9 play no part.
pub open spec fn time_of(frame: Seq<u8>) -> DateTime {
    DateTime {
        seconds: RTCSEC(frame[2]).seconds(),
        minutes: RTCMIN(frame[3]).minutes(),
        hours: RTCHOUR(frame[4]).hours(),
        weekday: RTCWKDAY(frame[5]).weekday(),
        date: RTCDATE(frame[6]).date(),
        month: RTCMTH(frame[7]).month(),
        year: RTCYEAR(frame[8]).year(),
    }
}

/// Whether each of the seven time registers in a filled-in read frame is
/// canonical: it holds decimal digits that spell a value its setter takes,
/// in the 24-hour format, and its bits outside the fields, the trim sign
/// and the leap-year flag are clear. Of such a frame, and of no other,
/// writing back the time read gives every register as it was but for the
/// flags that a write forces: [`lemma_read_then_write`] and
/// [`lemma_read_then_write_only_canonical`].
pub open spec fn holds_canonical_registers(frame: Seq<u8>) -> bool {
    &&& RTCSEC(frame[2]).is_canonical()
    &&& RTCMIN(frame[3]).is_canonical()
    &&& RTCHOUR(frame[4]).is_canonical()
    &&& RTCWKDAY(frame[5]).is_canonical()
    &&& RTCDATE(frame[6]).is_canonical()
    &&& RTCMTH(frame[7]).is_canonical()
    &&& RTCYEAR(frame[8]).is_canonical()
}

/// Builds the frame that sets the chip to `datetime`. A field that its
/// register refuses stops the frame from being built; the first such
/// field, in the order of [`DateTime::rejected`], is the one reported.
pub fn write_frame(datetime: &DateTime) -> (r: Result<[u8; 10], InvalidInput>)
    ensures
        match datetime.rejected() {
            Some(value) => r == Err::<[u8; 10], InvalidInput>(InvalidInput(value)),
            None => r is Ok && r.unwrap()@ == write_frame_of(*datetime),
        },
{
    let mut seconds = RTCSEC(0);
    seconds.set_seconds(datetime.seconds)?;

    let mut minutes = RTCMIN(0);
    minutes.set_minutes(datetime.minutes)?;

    let mut hours = RTCHOUR(0);
    hours.set_hours_military(datetime.hours)?;

    let mut weekday = RTCWKDAY(0);
    weekday.set_weekday(datetime.weekday);

    let mut date = RTCDATE(0);
    date.set_date(datetime.date)?;

    let mut month = RTCMTH(0);
    month.set_month(datetime.month)?;

    let mut year = RTCYEAR(0);
    year.set_year(datetime.year)?;

    let frame: [u8; 10] = [
        WRITE,
        ADDR_RTCHSEC,
        0,
        seconds.0,
        minutes.0,
        hours.0,
        weekday.0,
        date.0,
        month.0,
        year.0,
    ];
    assert(frame@ =~= write_frame_of(*datetime));
    Ok(frame)
}

/// Builds the frame that asks for the time.
pub fn read_frame() -> (r: [u8; 10])
    ensures
        r@ == read_frame_of(),
{
    let frame: [u8; 10] = [READ, ADDR_RTCSEC, 0, 0, 0, 0, 0, 0, 0, 0];
    assert(frame@ =~= read_frame_of());
    frame
}

/// Reads the time out of a read frame that the chip has filled in. Every
/// frame decodes to some time: the chip is the source of truth, and a
/// register that holds no decimal digits still spells a number.
pub fn decode_frame(frame: &[u8; 10]) -> (r: DateTime)
    ensures
        r == time_of(frame@),
{
    DateTime {
        seconds: RTCSEC(frame[2]).seconds(),
        minutes: RTCMIN(frame[3]).minutes(),
        hours: RTCHOUR(frame[4]).hours(),
        weekday: RTCWKDAY(frame[5]).weekday(),
        date: RTCDATE(frame[6]).date(),
        month: RTCMTH(frame[7]).month(),
        year: RTCYEAR(frame[8]).year(),
    }
}

/// In numbers: the frame that sets the time holds the write instruction,
/// address zero, zero hundredths, and each field in binary-coded decimal;
/// the seconds carry the start-oscillator flag, which weighs 128, and the
/// day of the week the battery-enable flag, which weighs 8.
pub proof fn lemma_write_frame_bytes(datetime: DateTime)
    requires
        datetime.rejected() is None,
    ensures
        write_frame_of(datetime) == seq![
            0x12u8,
            0x00u8,
            0x00u8,
            (0x80 + bcd(datetime.seconds)) as u8,
            bcd(datetime.minutes),
            bcd(datetime.hours),
            (8 + datetime.weekday % 8) as u8,
            bcd(datetime.date),
            bcd(datetime.month),
            bcd((datetime.year - BASE_YEAR) as u8),
        ],
{
    lemma_seconds_packed(datetime.seconds);
    lemma_minutes_packed(datetime.minutes);
    lemma_hours_packed(datetime.hours, false);
    lemma_weekday_packed(datetime.weekday);
    lemma_date_packed(datetime.date);
    lemma_month_packed(datetime.month);
    lemma_year_packed(datetime.year);
}

/// In numbers: every field of the time read is its ones digit, the low
/// four bits of its register, plus ten times its tens digit, the bits
/// above them as far as the field reaches. The hour has a tens digit of
/// one bit where bit 6 of its register says 12-hour format, and the year
/// is counted from the base year.
pub proof fn lemma_time_of_bytes(frame: Seq<u8>)
    requires
        frame.len() == 10,
    ensures
        time_of(frame).seconds == 10 * ((frame[2] / 16) % 8) + frame[2] % 16,
        time_of(frame).minutes == 10 * ((frame[3] / 16) % 8) + frame[3] % 16,
        time_of(frame).hours == if (frame[4] / 64) % 2 == 1 {
            10 * ((frame[4] / 16) % 2) + frame[4] % 16
        } else {
            10 * ((frame[4] / 16) % 4) + frame[4] % 16
        },
        time_of(frame).weekday == frame[5] % 8,
        time_of(frame).date == 10 * ((frame[6] / 16) % 4) + frame[6] % 16,
        time_of(frame).month == 10 * ((frame[7] / 16) % 2) + frame[7] % 16,
        time_of(frame).year == BASE_YEAR + 10 * (frame[8] / 16) + frame[8] % 16,
{
    lemma_seconds_in_numbers(RTCSEC(frame[2]));
    lemma_minutes_in_numbers(RTCMIN(frame[3]));
    lemma_hours_in_numbers(RTCHOUR(frame[4]));
    lemma_weekday_in_numbers(RTCWKDAY(frame[5]));
    lemma_date_in_numbers(RTCDATE(frame[6]));
    lemma_month_in_numbers(RTCMTH(frame[7]));
    lemma_year_in_numbers(RTCYEAR(frame[8]));
}

/// A time that was set is the time read: where the chip answers a read
/// with the seven registers that a write has left in it, the time decoded
/// is the time that was written. The day of the week must fit its three
/// bits.
pub proof fn lemma_write_then_read(datetime: DateTime, answer: Seq<u8>)
    requires
        datetime.rejected() is None,
        datetime.weekday <= 7,
        answer.len() == 10,
        answer.subrange(2, 9) == write_frame_of(datetime).subrange(3, 10),
    ensures
        time_of(answer) == datetime,
{
    let written = write_frame_of(datetime);
    let read = answer.subrange(2, 9);
    let sent = written.subrange(3, 10);
    assert(answer[2] == read[0] && written[3] == sent[0]);
    assert(answer[3] == read[1] && written[4] == sent[1]);
    assert(answer[4] == read[2] && written[5] == sent[2]);
    assert(answer[5] == read[3] && written[6] == sent[3]);
    assert(answer[6] == read[4] && written[7] == sent[4]);
    assert(answer[7] == read[5] && written[8] == sent[5]);
    assert(answer[8] == read[6] && written[9] == sent[6]);
    lemma_seconds_round_trip(RTCSEC(0), datetime.seconds);
    lemma_minutes_round_trip(RTCMIN(0), datetime.minutes);
    lemma_hours_military_round_trip(RTCHOUR(0), datetime.hours);
    lemma_weekday_round_trip(RTCWKDAY(0), datetime.weekday);
    lemma_date_round_trip(RTCDATE(0), datetime.date);
    lemma_month_round_trip(RTCMTH(0), datetime.month);
    lemma_year_round_trip(RTCYEAR(0), datetime.year);
}

/// Reading the time and writing it straight back leaves the registers as
/// they were, bit for bit, but for the flags that a write forces: the
/// start-oscillator flag of the seconds register is set, and of the
/// weekday register the oscillator-running and power-fail flags are clear
/// and the battery-enable flag is set.
///
/// This holds of an answer whose registers are canonical. The time that
/// such an answer decodes to is never refused.
pub proof fn lemma_read_then_write(answer: Seq<u8>)
    requires
        answer.len() == 10,
        holds_canonical_registers(answer),
    ensures
        time_of(answer).rejected() is None,
        write_frame_of(time_of(answer))[3] == with_flag(answer[2], 7, true),
        write_frame_of(time_of(answer))[4] == answer[3],
        write_frame_of(time_of(answer))[5] == answer[4],
        write_frame_of(time_of(answer))[6] == with_flag(
            with_flag(with_flag(answer[5], 5, false), 4, false),
            3,
            true,
        ),
        write_frame_of(time_of(answer))[7] == answer[6],
        write_frame_of(time_of(answer))[8] == answer[7],
        write_frame_of(time_of(answer))[9] == answer[8],
{
    lemma_seconds_rewritten(RTCSEC(answer[2]));
    lemma_minutes_rewritten(RTCMIN(answer[3]));
    lemma_hours_rewritten(RTCHOUR(answer[4]));
    lemma_weekday_rewritten(RTCWKDAY(answer[5]));
    lemma_date_rewritten(RTCDATE(answer[6]));
    lemma_month_rewritten(RTCMTH(answer[7]));
    lemma_year_rewritten(RTCYEAR(answer[8]));
}

/// Reading the time and writing it straight back leaves the registers as
/// they were only where they are canonical: of any other answer the time
/// read is refused, or a register comes back changed in more than the
/// flags that a write forces.
pub proof fn lemma_read_then_write_only_canonical(answer: Seq<u8>)
    requires
        answer.len() == 10,
        time_of(answer).rejected() is None,
        write_frame_of(time_of(answer))[3] == with_flag(answer[2], 7, true),
        write_frame_of(time_of(answer))[4] == answer[3],
        write_frame_of(time_of(answer))[5] == answer[4],
        write_frame_of(time_of(answer))[6] == with_flag(
            with_flag(with_flag(answer[5], 5, false), 4, false),
            3,
            true,
        ),
        write_frame_of(time_of(answer))[7] == answer[6],
        write_frame_of(time_of(answer))[8] == answer[7],
        write_frame_of(time_of(answer))[9] == answer[8],
    ensures
        holds_canonical_registers(answer),
{
    lemma_seconds_rewritten(RTCSEC(answer[2]));
    lemma_minutes_rewritten(RTCMIN(answer[3]));
    lemma_hours_rewritten(RTCHOUR(answer[4]));
    lemma_weekday_rewritten(RTCWKDAY(answer[5]));
    lemma_date_rewritten(RTCDATE(answer[6]));
    lemma_month_rewritten(RTCMTH(answer[7]));
    lemma_year_rewritten(RTCYEAR(answer[8]));
}

} // verus!

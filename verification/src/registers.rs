//! The timekeeping registers of the chip, one type per register.
//!
//! Every register is one byte. A time field is stored in binary-coded
//! decimal: a tens digit and a ones digit, each in a bit field of its own,
//! next to the control flags that share the register. Setting a field checks
//! its range first and writes nothing when the value is refused; reading
//! never fails, whatever the byte holds.
//!
//! Each register type comes with three things: the accessors of its bit
//! fields, a setter and a getter for the decimal value, and the laws that
//! tie the two together. A setter's contract names the spec function
//! `with_..`, the register after the write; a getter can be used in
//! specifications directly.

use vstd::prelude::*;
use crate::bits::{
    bit, bit_range, field, flag, lemma_field_max, set_bit, set_bit_range, with_field, with_flag,
};
use crate::error::InvalidInput;

verus! {

/// The year that a year register of zero stands for.
pub const BASE_YEAR: u16 = 2000;

/// A number below 100 in binary-coded decimal: the tens digit in the high
/// four bits, the ones digit in the low four.
pub open spec fn bcd(value: u8) -> u8 {
    (16 * (value / 10) + value % 10) as u8
}

/// Hundredths-of-a-second register: tens in bits 7-4, ones in bits 3-0.
#[derive(Debug, Clone, Copy, PartialEq, Eq)]
pub struct RTCHSEC(pub u8);

impl RTCHSEC {
    /// The hundredths that the two digit fields spell.
    pub open spec fn spec_hundreth_seconds(&self) -> u8 {
        (field(self.0, 7, 4) * 10 + field(self.0, 3, 0)) as u8
    }

    /// The register after `hundreth_seconds` have been set.
    pub open spec fn with_hundreth_seconds(self, hundreth_seconds: u8) -> RTCHSEC {
        RTCHSEC(
            with_field(
                with_field(self.0, 7, 4, hundreth_seconds / 10),
                3,
                0,
                hundreth_seconds % 10,
            ),
        )
    }

    /// Tens digit of the hundredths of a second.
    pub fn HSECTEN(&self) -> (r: u8)
        ensures
            r == field(self.0, 7, 4),
            r <= 15,
    {
        proof {
            lemma_field_max(7, 4);
        }
        bit_range(self.0, 7, 4)
    }

    /// Writes the tens digit of the hundredths of a second.
    pub fn set_HSECTEN(&mut self, value: u8)
        ensures
            final(self).0 == with_field(old(self).0, 7, 4, value),
    {
        self.0 = set_bit_range(self.0, 7, 4, value);
    }

    /// Ones digit of the hundredths of a second.
    pub fn HSECONE(&self) -> (r: u8)
        ensures
            r == field(self.0, 3, 0),
            r <= 15,
    {
        proof {
            lemma_field_max(3, 0);
        }
        bit_range(self.0, 3, 0)
    }

    /// Writes the ones digit of the hundredths of a second.
    pub fn set_HSECONE(&mut self, value: u8)
        ensures
            final(self).0 == with_field(old(self).0, 3, 0, value),
    {
        self.0 = set_bit_range(self.0, 3, 0, value);
    }

    /// Sets the hundredths of a second, 0 to 99. A larger value is refused
    /// and the register stays as it was.
    pub fn set_hundreth_seconds(&mut self, hundreth_seconds: u8) -> (r: Result<(), InvalidInput>)
        ensures
            hundreth_seconds <= 99 ==> r is Ok && *final(self) == old(self).with_hundreth_seconds(
                hundreth_seconds,
            ),
            hundreth_seconds <= 99 ==> final(self).hundreth_seconds() == hundreth_seconds,
            hundreth_seconds > 99 ==> r == Err::<(), InvalidInput>(
                InvalidInput(hundreth_seconds as u16),
            ) && *final(self) == *old(self),
    {
        if hundreth_seconds > 99 {
            return Err(InvalidInput(hundreth_seconds as u16));
        }
        self.set_HSECTEN(hundreth_seconds / 10);
        self.set_HSECONE(hundreth_seconds % 10);
        proof {
            lemma_hundreth_seconds_round_trip(*old(self), hundreth_seconds);
        }
        Ok(())
    }

    /// The hundredths of a second that the register holds.
    #[verifier::when_used_as_spec(spec_hundreth_seconds)]
    pub fn hundreth_seconds(&self) -> (r: u8)
        ensures
            r == self.spec_hundreth_seconds(),
    {
        self.HSECTEN() * 10 + self.HSECONE()
    }
}

/// Hundredths that were set are the hundredths read, their tens and ones
/// each in its digit field, whatever the register held before.
pub proof fn lemma_hundreth_seconds_round_trip(prior: RTCHSEC, hundreth_seconds: u8)
    requires
        hundreth_seconds <= 99,
    ensures
        prior.with_hundreth_seconds(hundreth_seconds).hundreth_seconds() == hundreth_seconds,
        field(prior.with_hundreth_seconds(hundreth_seconds).0, 7, 4) == hundreth_seconds / 10,
        field(prior.with_hundreth_seconds(hundreth_seconds).0, 3, 0) == hundreth_seconds % 10,
{
    let b = prior.0;
    let t = hundreth_seconds / 10;
    let o = hundreth_seconds % 10;
    let w = with_field(with_field(b, 7, 4, t), 3, 0, o);
    assert(field(w, 7, 4) == t && field(w, 3, 0) == o) by (bit_vector)
        requires
            w == with_field(with_field(b, 7, 4, t), 3, 0, o),
            t <= 9,
            o <= 9,
    ;
}

/// Seconds register: start-oscillator flag in bit 7, tens of seconds in
/// bits 6-4, ones in bits 3-0.
#[derive(Debug, Clone, Copy, PartialEq, Eq)]
pub struct RTCSEC(pub u8);

impl RTCSEC {
    /// The seconds that the two digit fields spell. The start-oscillator
    /// flag plays no part.
    pub open spec fn spec_seconds(&self) -> u8 {
        (field(self.0, 6, 4) * 10 + field(self.0, 3, 0)) as u8
    }

    /// The register after `seconds` have been set: both digits written and
    /// the start-oscillator flag raised.
    pub open spec fn with_seconds(self, seconds: u8) -> RTCSEC {
        RTCSEC(
            with_flag(
                with_field(with_field(self.0, 6, 4, seconds / 10), 3, 0, seconds % 10),
                7,
                true,
            ),
        )
    }

    /// Whether both digits are decimal digits that spell at most 59. The
    /// start-oscillator flag may be either way.
    pub open spec fn is_canonical(&self) -> bool {
        field(self.0, 6, 4) <= 5 && field(self.0, 3, 0) <= 9
    }

    /// Start-oscillator flag: set while the oscillator is enabled.
    pub fn ST(&self) -> (r: bool)
        ensures
            r == flag(self.0, 7),
    {
        bit(self.0, 7)
    }

    /// Sets or clears the start-oscillator flag.
    pub fn set_st(&mut self, value: bool)
        ensures
            final(self).0 == with_flag(old(self).0, 7, value),
    {
        self.0 = set_bit(self.0, 7, value);
    }

    /// Tens digit of the seconds.
    pub fn SECTEN(&self) -> (r: u8)
        ensures
            r == field(self.0, 6, 4),
            r <= 7,
    {
        proof {
            lemma_field_max(6, 4);
        }
        bit_range(self.0, 6, 4)
    }

    /// Writes the tens digit of the seconds.
    pub fn set_SECTEN(&mut self, value: u8)
        ensures
            final(self).0 == with_field(old(self).0, 6, 4, value),
    {
        self.0 = set_bit_range(self.0, 6, 4, value);
    }

    /// Ones digit of the seconds.
    pub fn SECONE(&self) -> (r: u8)
        ensures
            r == field(self.0, 3, 0),
            r <= 15,
    {
        proof {
            lemma_field_max(3, 0);
        }
        bit_range(self.0, 3, 0)
    }

    /// Writes the ones digit of the seconds.
    pub fn set_SECONE(&mut self, value: u8)
        ensures
            final(self).0 == with_field(old(self).0, 3, 0, value),
    {
        self.0 = set_bit_range(self.0, 3, 0, value);
    }

    /// Sets the seconds, 0 to 59, and raises the start-oscillator flag:
    /// writing the seconds is what starts the oscillator. A larger value is
    /// refused and the register stays as it was.
    pub fn set_seconds(&mut self, seconds: u8) -> (r: Result<(), InvalidInput>)
        ensures
            seconds <= 59 ==> r is Ok && *final(self) == old(self).with_seconds(seconds),
            seconds <= 59 ==> final(self).seconds() == seconds && flag(final(self).0, 7),
            seconds > 59 ==> r == Err::<(), InvalidInput>(InvalidInput(seconds as u16))
                && *final(self) == *old(self),
    {
        if seconds > 59 {
            return Err(InvalidInput(seconds as u16));
        }
        self.set_SECTEN(seconds / 10);
        self.set_SECONE(seconds % 10);
        self.set_st(true);
        proof {
            lemma_seconds_round_trip(*old(self), seconds);
        }
        Ok(())
    }

    /// The seconds that the register holds.
    #[verifier::when_used_as_spec(spec_seconds)]
    pub fn seconds(&self) -> (r: u8)
        ensures
            r == self.spec_seconds(),
    {
        self.SECTEN() * 10 + self.SECONE()
    }
}

/// Seconds that were set are the seconds read, their tens and ones each in
/// its digit field, and the oscillator has been started, whatever the
/// register held before.
pub proof fn lemma_seconds_round_trip(prior: RTCSEC, seconds: u8)
    requires
        seconds <= 59,
    ensures
        prior.with_seconds(seconds).seconds() == seconds,
        field(prior.with_seconds(seconds).0, 6, 4) == seconds / 10,
        field(prior.with_seconds(seconds).0, 3, 0) == seconds % 10,
        flag(prior.with_seconds(seconds).0, 7),
{
    let b = prior.0;
    let t = seconds / 10;
    let o = seconds % 10;
    let w = with_flag(with_field(with_field(b, 6, 4, t), 3, 0, o), 7, true);
    assert(field(w, 6, 4) == t && field(w, 3, 0) == o && flag(w, 7)) by (bit_vector)
        requires
            w == with_flag(with_field(with_field(b, 6, 4, t), 3, 0, o), 7, true),
            t <= 5,
            o <= 9,
    ;
}

/// Reading the seconds ignores the start-oscillator flag: the register
/// spells the same seconds with the flag set and with it clear.
pub proof fn lemma_seconds_ignore_oscillator_flag(register: RTCSEC, st: bool)
    ensures
        RTCSEC(with_flag(register.0, 7, st)).seconds() == register.seconds(),
{
    let b = register.0;
    let w = with_flag(b, 7, st);
    assert(field(w, 6, 4) == field(b, 6, 4) && field(w, 3, 0) == field(b, 3, 0)) by (bit_vector)
        requires
            w == with_flag(b, 7, st),
    ;
}

/// Setting the seconds that a register spells gives that register back,
/// with the oscillator started, exactly if the register is canonical: not
/// otherwise, where the seconds are refused or come back in other digits.
pub proof fn lemma_seconds_rewritten(register: RTCSEC)
    ensures
        register.is_canonical() <==> register.seconds() <= 59 && RTCSEC(0).with_seconds(
            register.seconds(),
        ).0 == with_flag(register.0, 7, true),
{
    let b = register.0;
    let v = register.seconds();
    if v <= 59 {
        let t = v / 10;
        let o = v % 10;
        assert(with_flag(with_field(with_field(0u8, 6, 4, t), 3, 0, o), 7, true) == with_flag(
            b,
            7,
            true,
        ) <==> t == field(b, 6, 4) && o == field(b, 3, 0)) by (bit_vector)
            requires
                t <= 5,
                o <= 9,
        ;
    }
}

/// In numbers: the seconds read are ten times bits 6-4 plus the low four
/// bits.
pub proof fn lemma_seconds_in_numbers(register: RTCSEC)
    ensures
        register.seconds() == 10 * ((register.0 / 16) % 8) + register.0 % 16,
{
    let b = register.0;
    assert(field(b, 6, 4) == (b / 16) % 8 && field(b, 3, 0) == b % 16) by (bit_vector);
}

/// In numbers: seconds set in a register of zero leave their binary-coded
/// decimal under the start-oscillator flag, which weighs 128.
pub proof fn lemma_seconds_packed(seconds: u8)
    requires
        seconds <= 59,
    ensures
        RTCSEC(0).with_seconds(seconds).0 == 0x80 + bcd(seconds),
{
    let t = seconds / 10;
    let o = seconds % 10;
    assert(with_flag(with_field(with_field(0u8, 6, 4, t), 3, 0, o), 7, true) == 0x80 + 16 * t + o)
        by (bit_vector)
        requires
            t <= 5,
            o <= 9,
    ;
}

/// Minutes register: tens of minutes in bits 6-4, ones in bits 3-0.
#[derive(Debug, Clone, Copy, PartialEq, Eq)]
pub struct RTCMIN(pub u8);

impl RTCMIN {
    /// The minutes that the two digit fields spell.
    pub open spec fn spec_minutes(&self) -> u8 {
        (field(self.0, 6, 4) * 10 + field(self.0, 3, 0)) as u8
    }

    /// The register after minutes have been set to `value`.
    pub open spec fn with_minutes(self, value: u8) -> RTCMIN {
        RTCMIN(with_field(with_field(self.0, 6, 4, value / 10), 3, 0, value % 10))
    }

    /// Whether both digits are decimal digits that spell at most 59 and
    /// the bit that belongs to no field is clear.
    pub open spec fn is_canonical(&self) -> bool {
        !flag(self.0, 7) && field(self.0, 6, 4) <= 5 && field(self.0, 3, 0) <= 9
    }

    /// Tens digit of the minutes.
    pub fn MINTEN(&self) -> (r: u8)
        ensures
            r == field(self.0, 6, 4),
            r <= 7,
    {
        proof {
            lemma_field_max(6, 4);
        }
        bit_range(self.0, 6, 4)
    }

    /// Writes the tens digit of the minutes.
    pub fn set_MINTEN(&mut self, value: u8)
        ensures
            final(self).0 == with_field(old(self).0, 6, 4, value),
    {
        self.0 = set_bit_range(self.0, 6, 4, value);
    }

    /// Ones digit of the minutes.
    pub fn MINONE(&self) -> (r: u8)
        ensures
            r == field(self.0, 3, 0),
            r <= 15,
    {
        proof {
            lemma_field_max(3, 0);
        }
        bit_range(self.0, 3, 0)
    }

    /// Writes the ones digit of the minutes.
    pub fn set_MINONE(&mut self, value: u8)
        ensures
            final(self).0 == with_field(old(self).0, 3, 0, value),
    {
        self.0 = set_bit_range(self.0, 3, 0, value);
    }

    /// Sets the minutes, 0 to 59. A larger value is refused and the
    /// register stays as it was.
    pub fn set_minutes(&mut self, value: u8) -> (r: Result<(), InvalidInput>)
        ensures
            value <= 59 ==> r is Ok && *final(self) == old(self).with_minutes(value),
            value <= 59 ==> final(self).minutes() == value,
            value > 59 ==> r == Err::<(), InvalidInput>(InvalidInput(value as u16)) && *final(self)
                == *old(self),
    {
        if value > 59 {
            return Err(InvalidInput(value as u16));
        }
        self.set_MINTEN(value / 10);
        self.set_MINONE(value % 10);
        proof {
            lemma_minutes_round_trip(*old(self), value);
        }
        Ok(())
    }

    /// The minutes that the register holds.
    #[verifier::when_used_as_spec(spec_minutes)]
    pub fn minutes(&self) -> (r: u8)
        ensures
            r == self.spec_minutes(),
    {
        self.MINTEN() * 10 + self.MINONE()
    }
}

/// Minutes that were set are the minutes read, their tens and ones each in
/// its digit field, whatever the register held before.
pub proof fn lemma_minutes_round_trip(prior: RTCMIN, value: u8)
    requires
        value <= 59,
    ensures
        prior.with_minutes(value).minutes() == value,
        field(prior.with_minutes(value).0, 6, 4) == value / 10,
        field(prior.with_minutes(value).0, 3, 0) == value % 10,
{
    let b = prior.0;
    let t = value / 10;
    let o = value % 10;
    let w = with_field(with_field(b, 6, 4, t), 3, 0, o);
    assert(field(w, 6, 4) == t && field(w, 3, 0) == o) by (bit_vector)
        requires
            w == with_field(with_field(b, 6, 4, t), 3, 0, o),
            t <= 5,
            o <= 9,
    ;
}

/// Setting the minutes that a register spells gives that register back
/// exactly if the register is canonical.
pub proof fn lemma_minutes_rewritten(register: RTCMIN)
    ensures
        register.is_canonical() <==> register.minutes() <= 59 && RTCMIN(0).with_minutes(
            register.minutes(),
        ) == register,
{
    let b = register.0;
    let v = register.minutes();
    if v <= 59 {
        let t = v / 10;
        let o = v % 10;
        assert(with_field(with_field(0u8, 6, 4, t), 3, 0, o) == b <==> t == field(b, 6, 4) && o
            == field(b, 3, 0) && !flag(b, 7)) by (bit_vector)
            requires
                t <= 5,
                o <= 9,
        ;
    }
}

/// In numbers: the minutes read are ten times bits 6-4 plus the low four
/// bits.
pub proof fn lemma_minutes_in_numbers(register: RTCMIN)
    ensures
        register.minutes() == 10 * ((register.0 / 16) % 8) + register.0 % 16,
{
    let b = register.0;
    assert(field(b, 6, 4) == (b / 16) % 8 && field(b, 3, 0) == b % 16) by (bit_vector);
}

/// In numbers: minutes set in a register of zero leave their binary-coded
/// decimal.
pub proof fn lemma_minutes_packed(value: u8)
    requires
        value <= 59,
    ensures
        RTCMIN(0).with_minutes(value).0 == bcd(value),
{
    let t = value / 10;
    let o = value % 10;
    assert(with_field(with_field(0u8, 6, 4, t), 3, 0, o) == 16 * t + o) by (bit_vector)
        requires
            t <= 5,
            o <= 9,
    ;
}

/// Hours register: trim sign in bit 7, hour format in bit 6, ones of the
/// hour in bits 3-0. In the 24-hour format the tens digit takes bits 5-4.
/// In the 12-hour format it takes bit 4 alone, and bit 5 is the PM
/// indicator.
#[derive(Debug, Clone, Copy, PartialEq, Eq)]
pub struct RTCHOUR(pub u8);

impl RTCHOUR {
    /// The hour that the register spells: with the tens digit of two bits
    /// when the format flag is clear, with the tens digit of one bit when
    /// it is set. The PM indicator is not folded in.
    pub open spec fn spec_hours(&self) -> u8 {
        if flag(self.0, 6) {
            (field(self.0, 4, 4) * 10 + field(self.0, 3, 0)) as u8
        } else {
            (field(self.0, 5, 4) * 10 + field(self.0, 3, 0)) as u8
        }
    }

    /// The register after the hour has been set to `value` in the 24-hour
    /// format.
    pub open spec fn with_hours_military(self, value: u8) -> RTCHOUR {
        RTCHOUR(
            with_flag(with_field(with_field(self.0, 5, 4, value / 10), 3, 0, value % 10), 6, false),
        )
    }

    /// The register after the hour has been set to `value`, AM or PM, in
    /// the 12-hour format.
    pub open spec fn with_hours_std(self, value: u8, pm: bool) -> RTCHOUR {
        RTCHOUR(
            with_flag(
                with_flag(
                    with_field(with_field(self.0, 4, 4, value / 10), 3, 0, value % 10),
                    5,
                    pm,
                ),
                6,
                true,
            ),
        )
    }

    /// Whether the register holds a 24-hour time in decimal digits that
    /// spell at most 23, with the trim sign clear.
    pub open spec fn is_canonical(&self) -> bool {
        &&& !flag(self.0, 7)
        &&& !flag(self.0, 6)
        &&& field(self.0, 3, 0) <= 9
        &&& field(self.0, 5, 4) * 10 + field(self.0, 3, 0) <= 23
    }

    /// Trim sign: set to add clocks for a slow oscillator, clear to subtract
    /// clocks for a fast one.
    pub fn TRIMSIGN(&self) -> (r: bool)
        ensures
            r == flag(self.0, 7),
    {
        bit(self.0, 7)
    }

    /// Sets or clears the trim sign.
    pub fn set_TRIMSIGN(&mut self, value: bool)
        ensures
            final(self).0 == with_flag(old(self).0, 7, value),
    {
        self.0 = set_bit(self.0, 7, value);
    }

    /// Hour format: set for the 12-hour format, clear for the 24-hour format.
    pub fn FORMAT(&self) -> (r: bool)
        ensures
            r == flag(self.0, 6),
    {
        bit(self.0, 6)
    }

    /// Selects the 12-hour format when `value` is set, the 24-hour format when
    /// it is clear.
    pub fn set_FORMAT(&mut self, value: bool)
        ensures
            final(self).0 == with_flag(old(self).0, 6, value),
    {
        self.0 = set_bit(self.0, 6, value);
    }

    /// PM indicator. It has this meaning in the 12-hour format only: in the
    /// 24-hour format the bit belongs to the tens digit.
    pub fn PM(&self) -> (r: bool)
        ensures
            r == flag(self.0, 5),
    {
        bit(self.0, 5)
    }

    /// Sets or clears the PM indicator.
    pub fn set_PM(&mut self, value: bool)
        ensures
            final(self).0 == with_flag(old(self).0, 5, value),
    {
        self.0 = set_bit(self.0, 5, value);
    }

    /// Tens digit of the hour in the 12-hour format: one bit.
    pub fn HOURTEN_STD(&self) -> (r: u8)
        ensures
            r == field(self.0, 4, 4),
            r <= 1,
    {
        proof {
            lemma_field_max(4, 4);
        }
        bit_range(self.0, 4, 4)
    }

    /// Writes the tens digit of the hour in the 12-hour format.
    pub fn set_HOURTEN_STD(&mut self, value: u8)
        ensures
            final(self).0 == with_field(old(self).0, 4, 4, value),
    {
        self.0 = set_bit_range(self.0, 4, 4, value);
    }

    /// Tens digit of the hour in the 24-hour format: two bits.
    pub fn HOURTEN_MILITARY(&self) -> (r: u8)
        ensures
            r == field(self.0, 5, 4),
            r <= 3,
    {
        proof {
            lemma_field_max(5, 4);
        }
        bit_range(self.0, 5, 4)
    }

    /// Writes the tens digit of the hour in the 24-hour format.
    pub fn set_HOURTEN_MILITARY(&mut self, value: u8)
        ensures
            final(self).0 == with_field(old(self).0, 5, 4, value),
    {
        self.0 = set_bit_range(self.0, 5, 4, value);
    }

    /// Ones digit of the hour.
    pub fn HOURONE(&self) -> (r: u8)
        ensures
            r == field(self.0, 3, 0),
            r <= 15,
    {
        proof {
            lemma_field_max(3, 0);
        }
        bit_range(self.0, 3, 0)
    }

    /// Writes the ones digit of the hour.
    pub fn set_HOURONE(&mut self, value: u8)
        ensures
            final(self).0 == with_field(old(self).0, 3, 0, value),
    {
        self.0 = set_bit_range(self.0, 3, 0, value);
    }

    /// Sets the hour, 0 to 23, and selects the 24-hour format. A larger
    /// value is refused and the register stays as it was.
    pub fn set_hours_military(&mut self, value: u8) -> (r: Result<(), InvalidInput>)
        ensures
            value <= 23 ==> r is Ok && *final(self) == old(self).with_hours_military(value),
            value <= 23 ==> final(self).hours() == value && !flag(final(self).0, 6),
            value > 23 ==> r == Err::<(), InvalidInput>(InvalidInput(value as u16)) && *final(self)
                == *old(self),
    {
        if value > 23 {
            return Err(InvalidInput(value as u16));
        }
        self.set_HOURTEN_MILITARY(value / 10);
        self.set_HOURONE(value % 10);
        self.set_FORMAT(false);
        proof {
            lemma_hours_military_round_trip(*old(self), value);
        }
        Ok(())
    }

    /// Sets the hour, 0 to 12, with its PM indicator, and selects the
    /// 12-hour format. A larger value is refused and the register stays as
    /// it was.
    pub fn set_hours_std(&mut self, value: u8, pm: bool) -> (r: Result<(), InvalidInput>)
        ensures
            value <= 12 ==> r is Ok && *final(self) == old(self).with_hours_std(value, pm),
            value <= 12 ==> final(self).hours() == value && flag(final(self).0, 6) && flag(
                final(self).0,
                5,
            ) == pm,
            value > 12 ==> r == Err::<(), InvalidInput>(InvalidInput(value as u16)) && *final(self)
                == *old(self),
    {
        if value > 12 {
            return Err(InvalidInput(value as u16));
        }
        self.set_HOURTEN_STD(value / 10);
        self.set_HOURONE(value % 10);
        self.set_PM(pm);
        self.set_FORMAT(true);
        proof {
            lemma_hours_std_round_trip(*old(self), value, pm);
        }
        Ok(())
    }

    /// The hour that the register holds, read in the format that its
    /// format flag names: 0 to 23 where the chip keeps the 24-hour format,
    /// 1 to 12 where it keeps the 12-hour format. In the 12-hour format the
    /// caller reads [`RTCHOUR::PM`] beside it.
    #[verifier::when_used_as_spec(spec_hours)]
    pub fn hours(&self) -> (r: u8)
        ensures
            r == self.spec_hours(),
    {
        if self.FORMAT() {
            self.HOURTEN_STD() * 10 + self.HOURONE()
        } else {
            self.HOURTEN_MILITARY() * 10 + self.HOURONE()
        }
    }
}

/// An hour that was set in the 24-hour format is the hour read, its tens
/// and ones each in its digit field, and the format flag says 24-hour,
/// whatever the register held before.
pub proof fn lemma_hours_military_round_trip(prior: RTCHOUR, value: u8)
    requires
        value <= 23,
    ensures
        prior.with_hours_military(value).hours() == value,
        field(prior.with_hours_military(value).0, 5, 4) == value / 10,
        field(prior.with_hours_military(value).0, 3, 0) == value % 10,
        !flag(prior.with_hours_military(value).0, 6),
{
    let b = prior.0;
    let t = value / 10;
    let o = value % 10;
    let w = with_flag(with_field(with_field(b, 5, 4, t), 3, 0, o), 6, false);
    assert(field(w, 5, 4) == t && field(w, 3, 0) == o && !flag(w, 6)) by (bit_vector)
        requires
            w == with_flag(with_field(with_field(b, 5, 4, t), 3, 0, o), 6, false),
            t <= 2,
            o <= 9,
    ;
}

/// An hour that was set in the 12-hour format is the hour read, its tens
/// and ones each in its digit field, the PM indicator is as given and the
/// format flag says 12-hour, whatever the register held before.
pub proof fn lemma_hours_std_round_trip(prior: RTCHOUR, value: u8, pm: bool)
    requires
        value <= 12,
    ensures
        prior.with_hours_std(value, pm).hours() == value,
        field(prior.with_hours_std(value, pm).0, 4, 4) == value / 10,
        field(prior.with_hours_std(value, pm).0, 3, 0) == value % 10,
        flag(prior.with_hours_std(value, pm).0, 5) == pm,
        flag(prior.with_hours_std(value, pm).0, 6),
{
    let b = prior.0;
    let t = value / 10;
    let o = value % 10;
    let w = with_flag(with_flag(with_field(with_field(b, 4, 4, t), 3, 0, o), 5, pm), 6, true);
    assert(field(w, 4, 4) == t && field(w, 3, 0) == o && flag(w, 5) == pm && flag(w, 6))
        by (bit_vector)
        requires
            w == with_flag(
                with_flag(with_field(with_field(b, 4, 4, t), 3, 0, o), 5, pm),
                6,
                true,
            ),
            t <= 1,
            o <= 9,
    ;
}

/// Setting, in the 24-hour format, the hour that a register spells gives
/// that register back exactly if the register is canonical.
pub proof fn lemma_hours_rewritten(register: RTCHOUR)
    ensures
        register.is_canonical() <==> register.hours() <= 23 && RTCHOUR(0).with_hours_military(
            register.hours(),
        ) == register,
{
    let b = register.0;
    let v = register.hours();
    if v <= 23 {
        let t = v / 10;
        let o = v % 10;
        assert(with_flag(with_field(with_field(0u8, 5, 4, t), 3, 0, o), 6, false) == b <==> t
            == field(b, 5, 4) && o == field(b, 3, 0) && !flag(b, 7) && !flag(b, 6))
            by (bit_vector)
            requires
                t <= 2,
                o <= 9,
        ;
    }
}

/// In numbers: the hour read is the low four bits plus ten times the tens
/// digit, which is bit 4 where bit 6 says 12-hour format and bits 5-4
/// where it does not.
pub proof fn lemma_hours_in_numbers(register: RTCHOUR)
    ensures
        register.hours() == if (register.0 / 64) % 2 == 1 {
            10 * ((register.0 / 16) % 2) + register.0 % 16
        } else {
            10 * ((register.0 / 16) % 4) + register.0 % 16
        },
{
    let b = register.0;
    assert(flag(b, 6) == ((b / 64) % 2 == 1) && field(b, 4, 4) == (b / 16) % 2 && field(b, 5, 4)
        == (b / 16) % 4 && field(b, 3, 0) == b % 16) by (bit_vector);
}

/// In numbers: an hour set in a register of zero leaves its binary-coded
/// decimal in the 24-hour format; in the 12-hour format the format flag,
/// which weighs 64, and the PM indicator, which weighs 32, come on top.
pub proof fn lemma_hours_packed(value: u8, pm: bool)
    ensures
        value <= 23 ==> RTCHOUR(0).with_hours_military(value).0 == bcd(value),
        value <= 12 ==> RTCHOUR(0).with_hours_std(value, pm).0 == 0x40 + (if pm {
            0x20int
        } else {
            0int
        }) + bcd(value),
{
    let t = value / 10;
    let o = value % 10;
    assert(t <= 2 && o <= 9 ==> with_flag(with_field(with_field(0u8, 5, 4, t), 3, 0, o), 6, false)
        == 16 * t + o) by (bit_vector);
    assert(t <= 1 && o <= 9 ==> with_flag(
        with_flag(with_field(with_field(0u8, 4, 4, t), 3, 0, o), 5, pm),
        6,
        true,
    ) == 0x40 + (if pm {
        0x20int
    } else {
        0int
    }) + 16 * t + o) by (bit_vector);
}

/// Weekday register: oscillator-running flag in bit 5, power-fail flag in
/// bit 4, battery-enable flag in bit 3, day of the week in bits 2-0.
#[derive(Debug, Clone, Copy, PartialEq, Eq)]
pub struct RTCWKDAY(pub u8);

impl RTCWKDAY {
    /// The day of the week that the register holds: its low three bits as
    /// they are.
    pub open spec fn spec_weekday(&self) -> u8 {
        field(self.0, 2, 0)
    }

    /// The register after the day of the week has been set: power-fail
    /// flag cleared, battery backup enabled, and the low three bits of
    /// `value` in the day field.
    pub open spec fn with_weekday(self, value: u8) -> RTCWKDAY {
        RTCWKDAY(with_field(with_flag(with_flag(self.0, 4, false), 3, true), 2, 0, value))
    }

    /// Whether the two bits that belong to no field are clear.
    pub open spec fn is_canonical(&self) -> bool {
        field(self.0, 7, 6) == 0
    }

    /// Oscillator-running flag.
    pub fn OSCRUN(&self) -> (r: bool)
        ensures
            r == flag(self.0, 5),
    {
        bit(self.0, 5)
    }

    /// Sets or clears the oscillator-running flag.
    pub fn set_OSCRUN(&mut self, value: bool)
        ensures
            final(self).0 == with_flag(old(self).0, 5, value),
    {
        self.0 = set_bit(self.0, 5, value);
    }

    /// Power-fail flag: set once primary power has been lost.
    pub fn PWRFAIL(&self) -> (r: bool)
        ensures
            r == flag(self.0, 4),
    {
        bit(self.0, 4)
    }

    /// Sets or clears the power-fail flag.
    pub fn set_PWRFAIL(&mut self, value: bool)
        ensures
            final(self).0 == with_flag(old(self).0, 4, value),
    {
        self.0 = set_bit(self.0, 4, value);
    }

    /// Battery-enable flag: set while the backup battery may take over.
    pub fn VBATEN(&self) -> (r: bool)
        ensures
            r == flag(self.0, 3),
    {
        bit(self.0, 3)
    }

    /// Sets or clears the battery-enable flag.
    pub fn set_VBATEN(&mut self, value: bool)
        ensures
            final(self).0 == with_flag(old(self).0, 3, value),
    {
        self.0 = set_bit(self.0, 3, value);
    }

    /// Day of the week, as the three bits hold it.
    pub fn WKDAY(&self) -> (r: u8)
        ensures
            r == field(self.0, 2, 0),
            r <= 7,
    {
        proof {
            lemma_field_max(2, 0);
        }
        bit_range(self.0, 2, 0)
    }

    /// Writes the day of the week; only the low three bits of `value` fit.
    pub fn set_WKDAY(&mut self, value: u8)
        ensures
            final(self).0 == with_field(old(self).0, 2, 0, value),
    {
        self.0 = set_bit_range(self.0, 2, 0, value);
    }

    /// Sets the day of the week, 1 to 7 in the caller's numbering, clears
    /// the power-fail flag and enables the backup battery: a write that
    /// sets a known time re-arms the battery. No value is refused; of a
    /// value above 7 the low three bits are kept.
    pub fn set_weekday(&mut self, value: u8)
        ensures
            *final(self) == old(self).with_weekday(value),
            flag(final(self).0, 3),
            !flag(final(self).0, 4),
            final(self).weekday() == value % 8,
    {
        self.set_PWRFAIL(false);
        self.set_VBATEN(true);
        self.set_WKDAY(value);
        proof {
            lemma_weekday_round_trip(*old(self), value);
        }
    }

    /// The day of the week that the register holds, 0 to 7, as the chip
    /// has it.
    #[verifier::when_used_as_spec(spec_weekday)]
    pub fn weekday(&self) -> (r: u8)
        ensures
            r == self.spec_weekday(),
            r <= 7,
    {
        self.WKDAY()
    }
}

/// A day of the week that was set is the day read, where it fits in three
/// bits; the battery is enabled and the power-fail flag is clear, whatever
/// the register held before and whatever the day.
pub proof fn lemma_weekday_round_trip(prior: RTCWKDAY, value: u8)
    ensures
        prior.with_weekday(value).weekday() == value % 8,
        value <= 7 ==> prior.with_weekday(value).weekday() == value,
        flag(prior.with_weekday(value).0, 3),
        !flag(prior.with_weekday(value).0, 4),
{
    let b = prior.0;
    let w = with_field(with_flag(with_flag(b, 4, false), 3, true), 2, 0, value);
    assert(field(w, 2, 0) == value % 8 && flag(w, 3) && !flag(w, 4)) by (bit_vector)
        requires
            w == with_field(with_flag(with_flag(b, 4, false), 3, true), 2, 0, value),
    ;
}

/// Setting the day of the week that a register holds gives that register
/// back but for its three flags, which are forced: oscillator-running and
/// power-fail clear, battery enabled. It does so exactly if the register
/// is canonical.
pub proof fn lemma_weekday_rewritten(register: RTCWKDAY)
    ensures
        register.is_canonical() <==> RTCWKDAY(0).with_weekday(register.weekday()).0 == with_flag(
            with_flag(with_flag(register.0, 5, false), 4, false),
            3,
            true,
        ),
{
    let b = register.0;
    let d = field(b, 2, 0);
    assert(with_field(with_flag(with_flag(0u8, 4, false), 3, true), 2, 0, d) == with_flag(
        with_flag(with_flag(b, 5, false), 4, false),
        3,
        true,
    ) <==> field(b, 7, 6) == 0) by (bit_vector)
        requires
            d == field(b, 2, 0),
    ;
}

/// In numbers: the day of the week read is the register modulo 8.
pub proof fn lemma_weekday_in_numbers(register: RTCWKDAY)
    ensures
        register.weekday() == register.0 % 8,
{
    let b = register.0;
    assert(field(b, 2, 0) == b % 8) by (bit_vector);
}

/// In numbers: a day of the week set in a register of zero leaves its low
/// three bits under the battery-enable flag, which weighs 8.
pub proof fn lemma_weekday_packed(value: u8)
    ensures
        RTCWKDAY(0).with_weekday(value).0 == 8 + value % 8,
{
    assert(with_field(with_flag(with_flag(0u8, 4, false), 3, true), 2, 0, value) == 8 + value % 8)
        by (bit_vector);
}

/// Date register: tens of the day of the month in bits 5-4, ones in bits
/// 3-0.
#[derive(Debug, Clone, Copy, PartialEq, Eq)]
pub struct RTCDATE(pub u8);

impl RTCDATE {
    /// The day of the month that the two digit fields spell.
    pub open spec fn spec_date(&self) -> u8 {
        (field(self.0, 5, 4) * 10 + field(self.0, 3, 0)) as u8
    }

    /// The register after the day of the month has been set to `value`.
    pub open spec fn with_date(self, value: u8) -> RTCDATE {
        RTCDATE(with_field(with_field(self.0, 5, 4, value / 10), 3, 0, value % 10))
    }

    /// Whether both digits are decimal digits that spell at most 31 and
    /// the two bits that belong to no field are clear.
    pub open spec fn is_canonical(&self) -> bool {
        &&& field(self.0, 7, 6) == 0
        &&& field(self.0, 3, 0) <= 9
        &&& field(self.0, 5, 4) * 10 + field(self.0, 3, 0) <= 31
    }

    /// Tens digit of the day of the month.
    pub fn DATETEN(&self) -> (r: u8)
        ensures
            r == field(self.0, 5, 4),
            r <= 3,
    {
        proof {
            lemma_field_max(5, 4);
        }
        bit_range(self.0, 5, 4)
    }

    /// Writes the tens digit of the day of the month.
    pub fn set_DATETEN(&mut self, value: u8)
        ensures
            final(self).0 == with_field(old(self).0, 5, 4, value),
    {
        self.0 = set_bit_range(self.0, 5, 4, value);
    }

    /// Ones digit of the day of the month.
    pub fn DATEONE(&self) -> (r: u8)
        ensures
            r == field(self.0, 3, 0),
            r <= 15,
    {
        proof {
            lemma_field_max(3, 0);
        }
        bit_range(self.0, 3, 0)
    }

    /// Writes the ones digit of the day of the month.
    pub fn set_DATEONE(&mut self, value: u8)
        ensures
            final(self).0 == with_field(old(self).0, 3, 0, value),
    {
        self.0 = set_bit_range(self.0, 3, 0, value);
    }

    /// Sets the day of the month, up to 31. A larger value is refused and
    /// the register stays as it was. The month is not consulted.
    pub fn set_date(&mut self, value: u8) -> (r: Result<(), InvalidInput>)
        ensures
            value <= 31 ==> r is Ok && *final(self) == old(self).with_date(value),
            value <= 31 ==> final(self).date() == value,
            value > 31 ==> r == Err::<(), InvalidInput>(InvalidInput(value as u16)) && *final(self)
                == *old(self),
    {
        if value > 31 {
            return Err(InvalidInput(value as u16));
        }
        self.set_DATETEN(value / 10);
        self.set_DATEONE(value % 10);
        proof {
            lemma_date_round_trip(*old(self), value);
        }
        Ok(())
    }

    /// The day of the month that the register holds.
    #[verifier::when_used_as_spec(spec_date)]
    pub fn date(&self) -> (r: u8)
        ensures
            r == self.spec_date(),
    {
        self.DATETEN() * 10 + self.DATEONE()
    }
}

/// A day of the month that was set is the day read, its tens and ones each
/// in its digit field, whatever the register held before.
pub proof fn lemma_date_round_trip(prior: RTCDATE, value: u8)
    requires
        value <= 31,
    ensures
        prior.with_date(value).date() == value,
        field(prior.with_date(value).0, 5, 4) == value / 10,
        field(prior.with_date(value).0, 3, 0) == value % 10,
{
    let b = prior.0;
    let t = value / 10;
    let o = value % 10;
    let w = with_field(with_field(b, 5, 4, t), 3, 0, o);
    assert(field(w, 5, 4) == t && field(w, 3, 0) == o) by (bit_vector)
        requires
            w == with_field(with_field(b, 5, 4, t), 3, 0, o),
            t <= 3,
            o <= 9,
    ;
}

/// Setting the day of the month that a register spells gives that register
/// back exactly if the register is canonical.
pub proof fn lemma_date_rewritten(register: RTCDATE)
    ensures
        register.is_canonical() <==> register.date() <= 31 && RTCDATE(0).with_date(
            register.date(),
        ) == register,
{
    let b = register.0;
    let v = register.date();
    if v <= 31 {
        let t = v / 10;
        let o = v % 10;
        assert(with_field(with_field(0u8, 5, 4, t), 3, 0, o) == b <==> t == field(b, 5, 4) && o
            == field(b, 3, 0) && field(b, 7, 6) == 0) by (bit_vector)
            requires
                t <= 3,
                o <= 9,
        ;
    }
}

/// In numbers: the day of the month read is ten times bits 5-4 plus the
/// low four bits.
pub proof fn lemma_date_in_numbers(register: RTCDATE)
    ensures
        register.date() == 10 * ((register.0 / 16) % 4) + register.0 % 16,
{
    let b = register.0;
    assert(field(b, 5, 4) == (b / 16) % 4 && field(b, 3, 0) == b % 16) by (bit_vector);
}

/// In numbers: a day of the month set in a register of zero leaves its
/// binary-coded decimal.
pub proof fn lemma_date_packed(value: u8)
    requires
        value <= 31,
    ensures
        RTCDATE(0).with_date(value).0 == bcd(value),
{
    let t = value / 10;
    let o = value % 10;
    assert(with_field(with_field(0u8, 5, 4, t), 3, 0, o) == 16 * t + o) by (bit_vector)
        requires
            t <= 3,
            o <= 9,
    ;
}

/// Month register: leap-year flag in bit 5, tens of the month in bit 4,
/// ones in bits 3-0.
#[derive(Debug, Clone, Copy, PartialEq, Eq)]
pub struct RTCMTH(pub u8);

impl RTCMTH {
    /// The month that the two digit fields spell. The leap-year flag plays
    /// no part.
    pub open spec fn spec_month(&self) -> u8 {
        (field(self.0, 4, 4) * 10 + field(self.0, 3, 0)) as u8
    }

    /// The register after the month has been set to `value`. The leap-year
    /// flag is not written.
    pub open spec fn with_month(self, value: u8) -> RTCMTH {
        RTCMTH(with_field(with_field(self.0, 4, 4, value / 10), 3, 0, value % 10))
    }

    /// Whether both digits are decimal digits that spell at most 12, the
    /// leap-year flag is clear and so are the two bits that belong to no
    /// field.
    pub open spec fn is_canonical(&self) -> bool {
        &&& field(self.0, 7, 5) == 0
        &&& field(self.0, 3, 0) <= 9
        &&& field(self.0, 4, 4) * 10 + field(self.0, 3, 0) <= 12
    }

    /// Leap-year flag. The chip keeps it; there is no setter.
    pub fn LPYR(&self) -> (r: bool)
        ensures
            r == flag(self.0, 5),
    {
        bit(self.0, 5)
    }

    /// Tens digit of the month: one bit.
    pub fn MTHTEN(&self) -> (r: u8)
        ensures
            r == field(self.0, 4, 4),
            r <= 1,
    {
        proof {
            lemma_field_max(4, 4);
        }
        bit_range(self.0, 4, 4)
    }

    /// Writes the tens digit of the month.
    pub fn set_MTHTEN(&mut self, value: u8)
        ensures
            final(self).0 == with_field(old(self).0, 4, 4, value),
    {
        self.0 = set_bit_range(self.0, 4, 4, value);
    }

    /// Ones digit of the month.
    pub fn MTHONE(&self) -> (r: u8)
        ensures
            r == field(self.0, 3, 0),
            r <= 15,
    {
        proof {
            lemma_field_max(3, 0);
        }
        bit_range(self.0, 3, 0)
    }

    /// Writes the ones digit of the month.
    pub fn set_MTHONE(&mut self, value: u8)
        ensures
            final(self).0 == with_field(old(self).0, 3, 0, value),
    {
        self.0 = set_bit_range(self.0, 3, 0, value);
    }

    /// Sets the month, up to 12. A larger value is refused and the
    /// register stays as it was. The leap-year flag is the chip's to keep
    /// and is left alone.
    pub fn set_month(&mut self, value: u8) -> (r: Result<(), InvalidInput>)
        ensures
            value <= 12 ==> r is Ok && *final(self) == old(self).with_month(value),
            value <= 12 ==> final(self).month() == value && flag(final(self).0, 5) == flag(
                old(self).0,
                5,
            ),
            value > 12 ==> r == Err::<(), InvalidInput>(InvalidInput(value as u16)) && *final(self)
                == *old(self),
    {
        if value > 12 {
            return Err(InvalidInput(value as u16));
        }
        self.set_MTHTEN(value / 10);
        self.set_MTHONE(value % 10);
        proof {
            lemma_month_round_trip(*old(self), value);
        }
        Ok(())
    }

    /// The month that the register holds.
    #[verifier::when_used_as_spec(spec_month)]
    pub fn month(&self) -> (r: u8)
        ensures
            r == self.spec_month(),
    {
        self.MTHTEN() * 10 + self.MTHONE()
    }
}

/// A month that was set is the month read, its tens and ones each in its
/// digit field, and the leap-year flag is as it was, whatever the register
/// held before.
pub proof fn lemma_month_round_trip(prior: RTCMTH, value: u8)
    requires
        value <= 12,
    ensures
        prior.with_month(value).month() == value,
        field(prior.with_month(value).0, 4, 4) == value / 10,
        field(prior.with_month(value).0, 3, 0) == value % 10,
        flag(prior.with_month(value).0, 5) == flag(prior.0, 5),
{
    let b = prior.0;
    let t = value / 10;
    let o = value % 10;
    let w = with_field(with_field(b, 4, 4, t), 3, 0, o);
    assert(field(w, 4, 4) == t && field(w, 3, 0) == o && flag(w, 5) == flag(b, 5))
        by (bit_vector)
        requires
            w == with_field(with_field(b, 4, 4, t), 3, 0, o),
            t <= 1,
            o <= 9,
    ;
}

/// Setting the month that a register spells gives that register back
/// exactly if the register is canonical.
pub proof fn lemma_month_rewritten(register: RTCMTH)
    ensures
        register.is_canonical() <==> register.month() <= 12 && RTCMTH(0).with_month(
            register.month(),
        ) == register,
{
    let b = register.0;
    let v = register.month();
    if v <= 12 {
        let t = v / 10;
        let o = v % 10;
        assert(with_field(with_field(0u8, 4, 4, t), 3, 0, o) == b <==> t == field(b, 4, 4) && o
            == field(b, 3, 0) && field(b, 7, 5) == 0) by (bit_vector)
            requires
                t <= 1,
                o <= 9,
        ;
    }
}

/// In numbers: the month read is ten times bit 4 plus the low four bits.
pub proof fn lemma_month_in_numbers(register: RTCMTH)
    ensures
        register.month() == 10 * ((register.0 / 16) % 2) + register.0 % 16,
{
    let b = register.0;
    assert(field(b, 4, 4) == (b / 16) % 2 && field(b, 3, 0) == b % 16) by (bit_vector);
}

/// In numbers: a month set in a register of zero leaves its binary-coded
/// decimal.
pub proof fn lemma_month_packed(value: u8)
    requires
        value <= 12,
    ensures
        RTCMTH(0).with_month(value).0 == bcd(value),
{
    let t = value / 10;
    let o = value % 10;
    assert(with_field(with_field(0u8, 4, 4, t), 3, 0, o) == 16 * t + o) by (bit_vector)
        requires
            t <= 1,
            o <= 9,
    ;
}

/// Year register: the year within its century, tens in bits 7-4, ones in
/// bits 3-0. The century begins at [`BASE_YEAR`].
#[derive(Debug, Clone, Copy, PartialEq, Eq)]
pub struct RTCYEAR(pub u8);

impl RTCYEAR {
    /// The year that the register stands for: [`BASE_YEAR`] plus what the
    /// two digit fields spell.
    pub open spec fn spec_year(&self) -> u16 {
        (BASE_YEAR + field(self.0, 7, 4) * 10 + field(self.0, 3, 0)) as u16
    }

    /// The register after the year has been set to `value`, a year of the
    /// century that begins at [`BASE_YEAR`].
    pub open spec fn with_year(self, value: u16) -> RTCYEAR {
        let offset = (value - BASE_YEAR) as u8;
        RTCYEAR(with_field(with_field(self.0, 7, 4, offset / 10), 3, 0, offset % 10))
    }

    /// Whether both digits are decimal digits.
    pub open spec fn is_canonical(&self) -> bool {
        field(self.0, 7, 4) <= 9 && field(self.0, 3, 0) <= 9
    }

    /// Tens digit of the year within its century.
    pub fn YEARTEN(&self) -> (r: u8)
        ensures
            r == field(self.0, 7, 4),
            r <= 15,
    {
        proof {
            lemma_field_max(7, 4);
        }
        bit_range(self.0, 7, 4)
    }

    /// Writes the tens digit of the year within its century.
    pub fn set_YEARTEN(&mut self, value: u8)
        ensures
            final(self).0 == with_field(old(self).0, 7, 4, value),
    {
        self.0 = set_bit_range(self.0, 7, 4, value);
    }

    /// Ones digit of the year within its century.
    pub fn YEARONE(&self) -> (r: u8)
        ensures
            r == field(self.0, 3, 0),
            r <= 15,
    {
        proof {
            lemma_field_max(3, 0);
        }
        bit_range(self.0, 3, 0)
    }

    /// Writes the ones digit of the year within its century.
    pub fn set_YEARONE(&mut self, value: u8)
        ensures
            final(self).0 == with_field(old(self).0, 3, 0, value),
    {
        self.0 = set_bit_range(self.0, 3, 0, value);
    }

    /// Sets the year, from [`BASE_YEAR`] to 99 years after it: the chip
    /// keeps two digits. A year outside that century is refused and the
    /// register stays as it was.
    pub fn set_year(&mut self, value: u16) -> (r: Result<(), InvalidInput>)
        ensures
            BASE_YEAR <= value <= BASE_YEAR + 99 ==> r is Ok && *final(self) == old(
                self,
            ).with_year(value),
            BASE_YEAR <= value <= BASE_YEAR + 99 ==> final(self).year() == value,
            !(BASE_YEAR <= value <= BASE_YEAR + 99) ==> r == Err::<(), InvalidInput>(
                InvalidInput(value),
            ) && *final(self) == *old(self),
    {
        if value > BASE_YEAR + 99 || value < BASE_YEAR {
            return Err(InvalidInput(value));
        }
        let offset: u8 = (value - BASE_YEAR) as u8;
        self.set_YEARTEN(offset / 10);
        self.set_YEARONE(offset % 10);
        proof {
            lemma_year_round_trip(*old(self), value);
        }
        Ok(())
    }

    /// The year that the register holds.
    #[verifier::when_used_as_spec(spec_year)]
    pub fn year(&self) -> (r: u16)
        ensures
            r == self.spec_year(),
    {
        let year: u16 = (self.YEARTEN() * 10 + self.YEARONE()) as u16;
        year + BASE_YEAR
    }
}

/// A year that was set is the year read, the tens and ones of its last two
/// digits each in its digit field, whatever the register held before.
pub proof fn lemma_year_round_trip(prior: RTCYEAR, value: u16)
    requires
        BASE_YEAR <= value <= BASE_YEAR + 99,
    ensures
        prior.with_year(value).year() == value,
        field(prior.with_year(value).0, 7, 4) == (value - BASE_YEAR) / 10,
        field(prior.with_year(value).0, 3, 0) == (value - BASE_YEAR) % 10,
{
    let b = prior.0;
    let offset = (value - BASE_YEAR) as u8;
    let t = offset / 10;
    let o = offset % 10;
    let w = with_field(with_field(b, 7, 4, t), 3, 0, o);
    assert(field(w, 7, 4) == t && field(w, 3, 0) == o) by (bit_vector)
        requires
            w == with_field(with_field(b, 7, 4, t), 3, 0, o),
            t <= 9,
            o <= 9,
    ;
}

/// Setting the year that a register spells gives that register back
/// exactly if the register is canonical.
pub proof fn lemma_year_rewritten(register: RTCYEAR)
    ensures
        register.is_canonical() <==> register.year() <= BASE_YEAR + 99 && RTCYEAR(0).with_year(
            register.year(),
        ) == register,
{
    let b = register.0;
    let y = register.year();
    if y <= BASE_YEAR + 99 {
        let offset = (y - BASE_YEAR) as u8;
        let t = offset / 10;
        let o = offset % 10;
        assert(with_field(with_field(0u8, 7, 4, t), 3, 0, o) == b <==> t == field(b, 7, 4) && o
            == field(b, 3, 0)) by (bit_vector)
            requires
                t <= 9,
                o <= 9,
        ;
    }
}

/// In numbers: the year read is the base year plus ten times the high
/// four bits plus the low four bits.
pub proof fn lemma_year_in_numbers(register: RTCYEAR)
    ensures
        register.year() == BASE_YEAR + 10 * (register.0 / 16) + register.0 % 16,
{
    let b = register.0;
    assert(field(b, 7, 4) == b / 16 && field(b, 3, 0) == b % 16) by (bit_vector);
}

/// In numbers: a year set in a register of zero leaves the binary-coded
/// decimal of its two last digits.
pub proof fn lemma_year_packed(value: u16)
    requires
        BASE_YEAR <= value <= BASE_YEAR + 99,
    ensures
        RTCYEAR(0).with_year(value).0 == bcd((value - BASE_YEAR) as u8),
{
    let offset = (value - BASE_YEAR) as u8;
    let t = offset / 10;
    let o = offset % 10;
    assert(with_field(with_field(0u8, 7, 4, t), 3, 0, o) == 16 * t + o) by (bit_vector)
        requires
            t <= 9,
            o <= 9,
    ;
}

} // verus!

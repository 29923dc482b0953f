//! Bit fields inside one register byte.
//!
//! A field is the run of bits from position `msb` down to position `lsb`,
//! both included; bit 0 is the least significant bit of the byte. A flag is
//! a field of one bit, read as a `bool`.
//!
//! The spec functions [`field`] and [`with_field`] are the model that every
//! register contract in this crate is stated over. They are written with
//! shifts and masks, so that the bit-vector solver can work with them.

use vstd::prelude::*;

verus! {

/// The largest value that a field of bits `msb..=lsb` can hold: as many one
/// bits as the field is wide.
pub open spec fn field_max(msb: u8, lsb: u8) -> u8 {
    0xFFu8 >> ((7u8 - (msb - lsb)) as u8)
}

/// The byte whose set bits are exactly the bits `msb..=lsb`.
pub open spec fn field_mask(msb: u8, lsb: u8) -> u8 {
    field_max(msb, lsb) << lsb
}

/// The value held by bits `msb..=lsb` of `byte`.
pub open spec fn field(byte: u8, msb: u8, lsb: u8) -> u8 {
    (byte >> lsb) & field_max(msb, lsb)
}

/// `byte` with bits `msb..=lsb` replaced by the low bits of `value`. Every
/// bit outside the field is kept, and bits of `value` that do not fit in
/// the field are dropped.
pub open spec fn with_field(byte: u8, msb: u8, lsb: u8, value: u8) -> u8 {
    (byte & !field_mask(msb, lsb)) | ((value << lsb) & field_mask(msb, lsb))
}

/// Whether bit `n` of `byte` is set.
pub open spec fn flag(byte: u8, n: u8) -> bool {
    field(byte, n, n) != 0
}

/// `byte` with bit `n` set or cleared as `value` says.
pub open spec fn with_flag(byte: u8, n: u8, value: bool) -> u8 {
    with_field(byte, n, n, if value { 1u8 } else { 0u8 })
}

/// Reads bits `msb..=lsb` of `byte`.
pub fn bit_range(byte: u8, msb: u8, lsb: u8) -> (r: u8)
    requires
        lsb <= msb <= 7,
    ensures
        r == field(byte, msb, lsb),
        r <= field_max(msb, lsb),
{
    proof {
        lemma_field_bounded(byte, msb, lsb);
    }
    let max: u8 = 0xFFu8 >> (7 - (msb - lsb));
    (byte >> lsb) & max
}

/// Writes the low bits of `value` into bits `msb..=lsb` of `byte` and
/// returns the new byte.
pub fn set_bit_range(byte: u8, msb: u8, lsb: u8, value: u8) -> (r: u8)
    requires
        lsb <= msb <= 7,
    ensures
        r == with_field(byte, msb, lsb, value),
{
    let mask: u8 = (0xFFu8 >> (7 - (msb - lsb))) << lsb;
    (byte & !mask) | ((value << lsb) & mask)
}

/// Reads bit `n` of `byte`.
pub fn bit(byte: u8, n: u8) -> (r: bool)
    requires
        n <= 7,
    ensures
        r == flag(byte, n),
{
    bit_range(byte, n, n) != 0
}

/// Sets or clears bit `n` of `byte` and returns the new byte.
pub fn set_bit(byte: u8, n: u8, value: bool) -> (r: u8)
    requires
        n <= 7,
    ensures
        r == with_flag(byte, n, value),
{
    set_bit_range(byte, n, n, if value { 1u8 } else { 0u8 })
}

/// A field of width `w` holds at most `2^w - 1`.
pub proof fn lemma_field_max(msb: u8, lsb: u8)
    by (bit_vector)
    requires
        lsb <= msb <= 7,
    ensures
        msb - lsb == 0 ==> field_max(msb, lsb) == 1,
        msb - lsb == 1 ==> field_max(msb, lsb) == 3,
        msb - lsb == 2 ==> field_max(msb, lsb) == 7,
        msb - lsb == 3 ==> field_max(msb, lsb) == 15,
        msb - lsb == 4 ==> field_max(msb, lsb) == 31,
        msb - lsb == 5 ==> field_max(msb, lsb) == 63,
        msb - lsb == 6 ==> field_max(msb, lsb) == 127,
        msb - lsb == 7 ==> field_max(msb, lsb) == 255,
{
}

/// What is read from a field never exceeds what the field can hold.
pub proof fn lemma_field_bounded(byte: u8, msb: u8, lsb: u8)
    by (bit_vector)
    requires
        lsb <= msb <= 7,
    ensures
        field(byte, msb, lsb) <= field_max(msb, lsb),
{
}

} // verus!

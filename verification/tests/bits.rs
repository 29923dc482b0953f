use bitfield::{Bit, BitRange};
use mcp795xx::bits::{bit, bit_range, set_bit, set_bit_range};

#[test]
fn bit_range_reads_what_bitfield_reads() {
    for msb in 0..8u8 {
        for lsb in 0..=msb {
            for byte in 0..=255u8 {
                let theirs: u8 = byte.bit_range(msb as usize, lsb as usize);
                assert_eq!(bit_range(byte, msb, lsb), theirs);
            }
        }
    }
}

#[test]
fn set_bit_range_writes_what_bitfield_writes() {
    for msb in 0..8u8 {
        for lsb in 0..=msb {
            for byte in [0u8, 0x0F, 0x5A, 0xA5, 0xF0, 0xFF] {
                for value in 0..=255u8 {
                    let mut theirs = byte;
                    theirs.set_bit_range(msb as usize, lsb as usize, value);
                    assert_eq!(set_bit_range(byte, msb, lsb, value), theirs);
                }
            }
        }
    }
}

#[test]
fn bit_and_set_bit_do_what_bitfield_does() {
    for n in 0..8u8 {
        for byte in 0..=255u8 {
            assert_eq!(bit(byte, n), byte.bit(n as usize));
            for value in [false, true] {
                let mut theirs = byte;
                theirs.set_bit(n as usize, value);
                assert_eq!(set_bit(byte, n, value), theirs);
            }
        }
    }
}

#[test]
fn bit_range_exact_values() {
    assert_eq!(bit_range(0b1100_0101, 6, 4), 4);
    assert_eq!(bit_range(0b1100_0101, 3, 0), 5);
    assert_eq!(bit_range(0b1100_0101, 7, 7), 1);
    assert_eq!(bit_range(0xFF, 7, 0), 0xFF);
    assert_eq!(set_bit_range(0, 6, 4, 4), 0x40);
    assert_eq!(set_bit_range(0xFF, 6, 4, 0), 0x8F);
    assert_eq!(set_bit_range(0, 2, 0, 9), 1);
    assert!(bit(0x80, 7));
    assert!(!bit(0x7F, 7));
    assert_eq!(set_bit(0, 3, true), 8);
    assert_eq!(set_bit(0xFF, 4, false), 0xEF);
}

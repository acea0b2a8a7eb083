use redgb::cpu::alu::read_bits;
use redgb::cpu::alu::read_u16;
use redgb::cpu::alu::rotate_left;
use redgb::cpu::alu::rotate_right;
use redgb::cpu::alu::set_bit;
use redgb::cpu::alu::write_bits;
use redgb::cpu::alu::write_u16;
use redgb::error::GBError;

#[test]
fn read_bits_test() {
    assert_eq!(read_bits(0x0E, 6, 1), 0);
}

#[test]
fn rotate_test() {
    let mut num = 0b10000000;
    let mut carry = true;
    (num, carry) = rotate_left(num, carry, true);
    assert_eq!(num, 0b00000001);
    assert!(carry);
    (num, carry) = rotate_right(num, carry, true);
    assert_eq!(num, 0b10000000);
    assert!(carry);
    (num, carry) = rotate_right(num, carry, false);
    assert_eq!(num, 0b01000000);
    assert!(!carry);
}

#[test]
fn read_u16_joins_high_and_low() {
    assert_eq!(read_u16(&0x34, &0x12), 0x1234);
    assert_eq!(read_u16(&0xFF, &0x00), 0x00FF);
    assert_eq!(read_u16(&0x00, &0xFF), 0xFF00);
}

#[test]
fn write_u16_splits_a_word() {
    let mut lo = 0;
    let mut hi = 0;
    write_u16(&mut lo, &mut hi, 0xBEEF);
    assert_eq!((hi, lo), (0xBE, 0xEF));
    assert_eq!(read_u16(&lo, &hi), 0xBEEF);
}

#[test]
fn read_bits_extracts_fields() {
    assert_eq!(read_bits(0b1011_0101, 2, 3), 0b101);
    assert_eq!(read_bits(0b1011_0101, 0, 8), 0b1011_0101);
    assert_eq!(read_bits(0b1011_0101, 4, 4), 0b1011);
    assert_eq!(read_bits(0xFF, 3, 0), 0);
}

#[test]
fn read_bits_past_the_byte_reads_zero() {
    assert_eq!(read_bits(0xFF, 8, 1), 0);
    assert_eq!(read_bits(0xFF, 200, 3), 0);
    assert_eq!(read_bits(0xFF, 6, 5), 0b11);
    assert_eq!(read_bits(0xA5, 0, 255), 0xA5);
}

#[test]
fn set_bit_sets_and_never_clears() {
    assert_eq!(set_bit(0b0000_0000, 3, true), 0b0000_1000);
    assert_eq!(set_bit(0b0000_1000, 3, true), 0b0000_1000);
    assert_eq!(set_bit(0b0000_1000, 3, false), 0b0000_1000);
    assert_eq!(set_bit(0x7F, 7, true), 0xFF);
    assert_eq!(set_bit(0x12, 8, true), 0x12);
}

#[test]
fn write_bits_replaces_a_field() {
    let mut target = 0xFF;
    assert_eq!(write_bits(&mut target, 2, 3, 0), Ok(()));
    assert_eq!(target, 0b1110_0011);
    assert_eq!(write_bits(&mut target, 2, 3, 0b101), Ok(()));
    assert_eq!(target, 0b1111_0111);
    assert_eq!(write_bits(&mut target, 0, 8, 0x3C), Ok(()));
    assert_eq!(target, 0x3C);
    assert_eq!(write_bits(&mut target, 8, 0, 0xFF), Ok(()));
    assert_eq!(target, 0x3C);
}

#[test]
fn write_bits_takes_only_the_low_bits_of_the_value() {
    let mut target = 0x00;
    assert_eq!(write_bits(&mut target, 4, 2, 0xFF), Ok(()));
    assert_eq!(target, 0b0011_0000);
}

#[test]
fn write_bits_refuses_a_field_past_bit_seven() {
    let mut target = 0xA5;
    assert_eq!(
        write_bits(&mut target, 6, 3, 0),
        Err(GBError::ByteOverflow { length: 3, index: 6 })
    );
    assert_eq!(target, 0xA5);
    assert_eq!(
        write_bits(&mut target, 200, 100, 0),
        Err(GBError::ByteOverflow { length: 100, index: 200 })
    );
    assert_eq!(target, 0xA5);
}

#[test]
fn writing_back_what_was_read_changes_nothing() {
    for target in 0..=255u8 {
        for index in 0..=8u8 {
            for length in 0..=(8 - index) {
                let mut byte = target;
                let field = read_bits(byte, index, length);
                assert_eq!(write_bits(&mut byte, index, length, field), Ok(()));
                assert_eq!(byte, target);
            }
        }
    }
}

#[test]
fn rotate_left_without_carry_through() {
    assert_eq!(rotate_left(0b1000_0001, false, false), (0b0000_0011, true));
    assert_eq!(rotate_left(0b0100_0000, true, false), (0b1000_0000, false));
}

#[test]
fn rotate_right_through_carry() {
    assert_eq!(rotate_right(0b0000_0001, false, true), (0b0000_0000, true));
    assert_eq!(rotate_right(0b0000_0010, true, true), (0b1000_0001, false));
}

#[test]
fn rotating_left_then_right_gives_the_byte_back() {
    for n in 0..=255u8 {
        for carry in [false, true] {
            for through in [false, true] {
                let (left, c) = rotate_left(n, carry, through);
                let (back, c2) = rotate_right(left, c, through);
                assert_eq!(back, n);
                if through {
                    assert_eq!(c2, carry);
                }
                let (right, c) = rotate_right(n, carry, through);
                assert_eq!(rotate_left(right, c, through).0, n);
            }
        }
    }
}

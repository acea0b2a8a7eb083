//! The primitives that the instructions are built from: words out of bytes, bit fields,
//! single bits and rotations. What each of them computes is stated in arithmetic, so that a
//! proof about an instruction needs no bit-level reasoning.

use vstd::prelude::*;
use crate::error::GBError;

verus! {

/// The value of bit `i` of a byte, `2^i`; from 8 on, the first value beyond a byte.
pub open spec fn weight(i: u8) -> int {
    if i == 0 {
        1
    } else if i == 1 {
        2
    } else if i == 2 {
        4
    } else if i == 3 {
        8
    } else if i == 4 {
        16
    } else if i == 5 {
        32
    } else if i == 6 {
        64
    } else if i == 7 {
        128
    } else {
        256
    }
}

/// Whether bit `i` of `n` is set; bits from 8 on are never set.
pub open spec fn bit_at(n: u8, i: u8) -> bool {
    (n as int / weight(i)) % 2 == 1
}

/// `x` brought into a byte, modulo 2^8.
pub open spec fn wrap8(x: int) -> u8 {
    (x % 0x100) as u8
}

/// `x` brought into a word, modulo 2^16.
pub open spec fn wrap16(x: int) -> u16 {
    (x % 0x10000) as u16
}

/// The signed value of a byte read as two's complement.
pub open spec fn signed(byte: u8) -> int {
    if byte >= 128 {
        byte - 256
    } else {
        byte as int
    }
}

/// The 16-bit word with `hi` as its upper and `lo` as its lower byte.
pub open spec fn word(lo: u8, hi: u8) -> u16 {
    (hi as int * 256 + lo as int) as u16
}

/// The `length` bits of `n` that start at bit `index`, as a number.
pub open spec fn field(n: u8, index: u8, length: u8) -> u8 {
    ((n as int / weight(index)) % weight(length)) as u8
}

/// `n` with bit `index` set if `bit` holds, and `n` itself if not: no bit is ever cleared.
pub open spec fn with_bit(n: u8, index: u8, bit: bool) -> u8 {
    if bit && index < 8 && !bit_at(n, index) {
        (n + weight(index)) as u8
    } else {
        n
    }
}

/// `target` with the `length` bits from bit `index` on replaced by the low `length` bits of
/// `bits`: what lies below the field, the field, and what lies above it. A field that
/// reaches past bit 7 replaces nothing.
pub open spec fn replace_field(target: u8, index: u8, length: u8, bits: u8) -> u8 {
    if index + length > 8 {
        target
    } else {
        let end = (index + length) as u8;
        (target as int % weight(index) + (bits as int % weight(length)) * weight(index) + (
        target as int / weight(end)) * weight(end)) as u8
    }
}

/// One rotation to the left. Bit 7 leaves into the carry; bit 0 takes the old carry when the
/// rotation goes through the carry, and the old bit 7 when it does not.
pub open spec fn rotated_left(n: u8, carry: bool, through_carry: bool) -> (u8, bool) {
    let top = n >= 128;
    let incoming = if through_carry {
        carry
    } else {
        top
    };
    (((n % 128) * 2 + if incoming { 1int } else { 0int }) as u8, top)
}

/// One rotation to the right. Bit 0 leaves into the carry; bit 7 takes the old carry when the
/// rotation goes through the carry, and the old bit 0 when it does not.
pub open spec fn rotated_right(n: u8, carry: bool, through_carry: bool) -> (u8, bool) {
    let bottom = n % 2 == 1;
    let incoming = if through_carry {
        carry
    } else {
        bottom
    };
    ((n / 2 + if incoming { 128int } else { 0int }) as u8, bottom)
}

/// A one shifted to bit `i` is the weight of that bit.
proof fn lemma_shift_weight(i: u8)
    by (bit_vector)
    requires
        i < 8,
    ensures
        (1u8 << i) == weight(i),
        (1u8 << i) > 0,
{
}

/// Shifting and or-ing two bytes into a word is multiplying and adding.
proof fn lemma_word(lo: u8, hi: u8)
    by (bit_vector)
    ensures
        ((hi as u16) << 8) | (lo as u16) == (hi as u16) * 256 + (lo as u16),
{
}

/// The upper byte of a word is its quotient by 256, and the lower byte its remainder.
proof fn lemma_word_bytes(value: u16)
    by (bit_vector)
    ensures
        (value >> 8) == value / 256,
        (value & 0xFF) == value % 256,
{
}

/// A shift to the right is a division by a power of two.
proof fn lemma_shift_is_division(n: u8, index: u8)
    by (bit_vector)
    requires
        index < 8,
    ensures
        n >> index == n / (1u8 << index),
{
}

/// Masking with a run of low ones is a remainder by a power of two.
proof fn lemma_mask_is_remainder(n: u8, length: u8)
    by (bit_vector)
    requires
        length < 8,
    ensures
        n & (((1u8 << length) - 1) as u8) == n % (1u8 << length),
{
}

/// Or-ing a bit in adds its weight where the bit was clear, and changes nothing where it was
/// set.
proof fn lemma_or_sets_bit(n: u8, index: u8)
    by (bit_vector)
    requires
        index < 8,
    ensures
        (n >> index) & 1 == 1 ==> n | (1u8 << index) == n,
        (n >> index) & 1 != 1 ==> n | (1u8 << index) == n + (1u8 << index),
        (n >> index) & 1 == (n / (1u8 << index)) % 2,
{
}

/// Clearing a field with a mask and or-ing the new bits in is [`replace_field`].
proof fn lemma_replace_field(target: u8, index: u8, length: u8, bits: u8)
    by (bit_vector)
    requires
        index < 8,
        length < 8,
        index + length <= 8,
    ensures
        ({
            let mask = ((((1u8 << length) - 1) as u8) << index);
            (target & !mask) | ((bits << index) & mask)
        }) == replace_field(target, index, length, bits),
        length == 0 ==> replace_field(target, index, length, bits) == target,
{
}

/// Masking a byte with `0x0F` keeps its low nibble.
pub proof fn lemma_low_nibble(n: u8)
    by (bit_vector)
    ensures
        n & 0x0F == n % 16,
{
}

/// What masking a word with a run of low ones keeps of it.
pub proof fn lemma_low_masks(w: u16)
    by (bit_vector)
    ensures
        w & 0x0F == w % 16,
        w & 0xFF == w % 256,
        w & 0x0FFF == w % 4096,
{
}

/// Shifts and rotations by one place, in arithmetic.
proof fn lemma_shift_by_one(n: u8)
    by (bit_vector)
    ensures
        n << 1 == (n % 128) * 2,
        n >> 1 == n / 2,
        (n << 1) | (n >> 7) == (n % 128) * 2 + n / 128,
        (n >> 1) | (n << 7) == n / 2 + (n % 2) * 128,
{
}

/// `base` moved by the signed offset that `offset` holds in two's complement, modulo 2^16.
pub(crate) fn displaced(base: u16, offset: u8) -> (out: u16)
    ensures
        out == wrap16(base + signed(offset)),
{
    let delta: i16 = if offset >= 128 {
        offset as i16 - 256
    } else {
        offset as i16
    };
    base.wrapping_add_signed(delta)
}

/// Joins two bytes into a word, `lo` the lower one.
pub fn read_u16(lo: &u8, hi: &u8) -> (w: u16)
    ensures
        w == word(*lo, *hi),
{
    proof {
        lemma_word(*lo, *hi);
    }
    ((*hi as u16) << 8) | (*lo as u16)
}

/// Splits a word into its two bytes.
pub fn write_u16(lo: &mut u8, hi: &mut u8, value: u16)
    ensures
        *final(hi) == value / 256,
        *final(lo) == value % 256,
        word(*final(lo), *final(hi)) == value,
{
    proof {
        lemma_word_bytes(value);
    }
    *hi = (value >> 8) as u8;
    *lo = (value & 0xFF) as u8;
}

/// Extracts the `length` bits of `num` that start at bit `index`, lowest bit first.
/// Bits past the end of the byte read as zero.
pub fn read_bits(num: u8, index: u8, length: u8) -> (out: u8)
    ensures
        out == field(num, index, length),
{
    if index >= 8 {
        return 0;
    }
    proof {
        lemma_shift_weight(index);
        lemma_shift_is_division(num, index);
    }
    let shifted: u8 = num >> index;
    if length >= 8 {
        shifted
    } else {
        proof {
            lemma_shift_weight(length);
            lemma_mask_is_remainder(shifted, length);
        }
        shifted & ((1u8 << length) - 1)
    }
}

/// Sets bit `index` of `num` if `bit` holds. Never clears a bit.
pub fn set_bit(num: u8, index: u8, bit: bool) -> (out: u8)
    ensures
        out == with_bit(num, index, bit),
{
    if !bit || index >= 8 {
        return num;
    }
    proof {
        lemma_shift_weight(index);
        lemma_or_sets_bit(num, index);
    }
    num | (1u8 << index)
}

/// Replaces the `length` bits of `target` from bit `index` on by the low `length` bits of
/// `bits`, or refuses a field that reaches past bit 7 and leaves `target` as it was.
pub fn write_bits(target: &mut u8, index: u8, length: u8, bits: u8) -> (r: Result<(), GBError>)
    ensures
        index + length > 8 ==> r == Err::<(), GBError>(GBError::ByteOverflow { length, index }),
        index + length <= 8 ==> r == Ok::<(), GBError>(()),
        *final(target) == replace_field(*old(target), index, length, bits),
{
    if index as u16 + length as u16 > 8 {
        return Err(GBError::ByteOverflow { length, index });
    }
    if length == 0 {
        proof {
            if index < 8 {
                lemma_replace_field(*target, index, length, bits);
            }
        }
        return Ok(());
    }
    if length == 8 {
        assert(weight(index) == 1 && weight(length) == 256 && weight((index + length) as u8) == 256);
        *target = bits;
        return Ok(());
    }
    proof {
        lemma_shift_weight(length);
        lemma_replace_field(*target, index, length, bits);
    }
    let mask: u8 = ((1u8 << length) - 1) << index;
    *target = (*target & !mask) | ((bits << index) & mask);
    Ok(())
}

/// Rotates `num` one bit to the left; see [`rotated_left`].
pub fn rotate_left(num: u8, carry: bool, through_carry: bool) -> (out: (u8, bool))
    ensures
        out == rotated_left(num, carry, through_carry),
{
    proof {
        lemma_shift_by_one(num);
    }
    let last: u8 = read_bits(num, 7, 1);
    if through_carry {
        (set_bit(num << 1, 0, carry), last == 1)
    } else {
        ((num << 1) | (num >> 7), last == 1)
    }
}

/// Rotates `num` one bit to the right; see [`rotated_right`].
pub fn rotate_right(num: u8, carry: bool, through_carry: bool) -> (out: (u8, bool))
    ensures
        out == rotated_right(num, carry, through_carry),
{
    proof {
        lemma_shift_by_one(num);
    }
    let first: u8 = read_bits(num, 0, 1);
    if through_carry {
        (set_bit(num >> 1, 7, carry), first == 1)
    } else {
        ((num >> 1) | (num << 7), first == 1)
    }
}

/// A rotation to the left and then one to the right, both through the carry or both not,
/// give back the byte; and so do a rotation to the right and then one to the left. Through
/// the carry the carry comes back too; otherwise it holds the bit that went round last.
pub proof fn lemma_rotate_round_trip(n: u8, carry: bool, through_carry: bool)
    ensures
        ({
            let (left, c) = rotated_left(n, carry, through_carry);
            rotated_right(left, c, through_carry) == (
                n,
                if through_carry {
                    carry
                } else {
                    n >= 128
                },
            )
        }),
        ({
            let (right, c) = rotated_right(n, carry, through_carry);
            rotated_left(right, c, through_carry) == (
                n,
                if through_carry {
                    carry
                } else {
                    n % 2 == 1
                },
            )
        }),
{
}

/// Writing a field back where it was read changes nothing.
pub proof fn lemma_write_back_field(target: u8, index: u8, length: u8)
    by (bit_vector)
    ensures
        replace_field(target, index, length, field(target, index, length)) == target,
{
}

} // verus!

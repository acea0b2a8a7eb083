//! The rotations, shifts and single-bit instructions of the `0xCB` block.
//!
//! Each instruction has a function `..._spec` that gives the machine after it and its result,
//! and the function that executes the instruction ensures exactly that. These functions are
//! opaque, so that a proof about one instruction does not unfold all the others:
//! `reveal(add_spec)` and the like bring in what an instruction does.

use vstd::prelude::*;
use crate::cpu::alu::bit_at;
use crate::cpu::alu::field;
use crate::cpu::alu::read_bits;
use crate::cpu::alu::replace_field;
use crate::cpu::alu::rotate_left;
use crate::cpu::alu::rotate_right;
use crate::cpu::alu::rotated_left;
use crate::cpu::alu::rotated_right;
use crate::cpu::alu::weight;
use crate::cpu::alu::with_bit;
use crate::cpu::alu::write_bits;
use crate::cpu::cpu_context::CpuContext;
use crate::cpu::handlers::arithmetic::flag_entry;
use crate::cpu::machine::lemma_in_step_kept;
use crate::cpu::machine::Machine;
use crate::cpu::operands::R8;
use crate::cpu::reg_file::Flag;
use crate::cpu::reg_file::PRESERVE;
use crate::cpu::reg_file::RegFile;
use crate::error::GBError;

verus! {

/// An instruction of the `0xCB` block that reads the operand named by the low three bits
/// of its opcode, turns it and the carry flag into a new value and a new carry, and writes
/// the value back. `Z` is set for a zero value; `N` and `H` are cleared.
pub open spec fn rewritten(m: Machine, opcode: u8, effect: spec_fn(u8, bool) -> (u8, bool)) -> (
    Machine,
    Result<(), GBError>,
) {
    let operand = R8::named(m.regs, opcode, 0);
    let (m1, old_value) = operand.loaded(m);
    match old_value {
        Err(e) => (m1, Err(e)),
        Ok(old_value) => {
            let (value, carry) = effect(old_value, m1.regs.flag(Flag::Carry));
            let (m2, saved) = operand.saved(m1, value);
            match saved {
                Err(e) => (m2, Err(e)),
                Ok(_) => (m2.with_regs(m2.regs.with_flags(value == 0, false, false, carry)), Ok(())),
            }
        },
    }
}

/// An instruction of the `0xCB` block that gives the operand named by the low three bits
/// of its opcode a new value and leaves every flag alone.
pub open spec fn replaced(m: Machine, opcode: u8, effect: spec_fn(u8) -> u8) -> (
    Machine,
    Result<(), GBError>,
) {
    let operand = R8::named(m.regs, opcode, 0);
    let (m1, old_value) = operand.loaded(m);
    match old_value {
        Err(e) => (m1, Err(e)),
        Ok(old_value) => operand.saved(m1, effect(old_value)),
    }
}

/// `RLC`, `RRC`, `RL` and `RR` (`0xCB 0x00..=0x1F`): bit 3 of the opcode is set for a
/// rotation to the right, and bit 4 for one through the carry.
#[verifier::opaque]
pub open spec fn rotate_to_carry_spec(m: Machine, opcode: u8) -> (Machine, Result<(), GBError>) {
    rewritten(
        m,
        opcode,
        |value: u8, carry: bool|
            if bit_at(opcode, 3) {
                rotated_right(value, carry, bit_at(opcode, 4))
            } else {
                rotated_left(value, carry, bit_at(opcode, 4))
            },
    )
}

/// What a shift makes of a byte, and the bit that it moves into the carry. With bit 4 of
/// the opcode set it is `SRL`: one place to the right, bit 7 cleared. Else bit 3 tells
/// `SRA`, one place to the right with bit 7 kept, from `SLA`, one place to the left.
pub open spec fn shifted(value: u8, opcode: u8) -> (u8, bool) {
    if bit_at(opcode, 4) {
        (value / 2, value % 2 == 1)
    } else if bit_at(opcode, 3) {
        ((value / 2 + if value >= 128 { 128int } else { 0int }) as u8, value % 2 == 1)
    } else {
        (((value % 128) * 2) as u8, value >= 128)
    }
}

/// `SLA`, `SRA` (`0xCB 0x20..=0x2F`) and `SRL` (`0xCB 0x38..=0x3F`).
#[verifier::opaque]
pub open spec fn shift_to_carry_spec(m: Machine, opcode: u8) -> (Machine, Result<(), GBError>) {
    rewritten(m, opcode, |value: u8, carry: bool| shifted(value, opcode))
}

/// A byte with its two nibbles exchanged.
pub open spec fn swapped(value: u8) -> u8 {
    ((value % 16) * 16 + value / 16) as u8
}

/// `SWAP` (`0xCB 0x30..=0x37`): the carry is cleared with `N` and `H`.
#[verifier::opaque]
pub open spec fn swap_spec(m: Machine, opcode: u8) -> (Machine, Result<(), GBError>) {
    rewritten(m, opcode, |value: u8, carry: bool| (swapped(value), false))
}

/// `BIT u3,r8` (`0xCB 0x40..=0x7F`): bits 3 to 5 of the opcode pick the bit. `Z` is set
/// where the bit is clear, `N` is cleared, `H` is set, and `C` stays. The operand is only
/// read.
#[verifier::opaque]
pub open spec fn test_bit_spec(m: Machine, opcode: u8) -> (Machine, Result<(), GBError>) {
    let (m1, value) = R8::fetched(m, false, opcode, 0);
    match value {
        Err(e) => (m1, Err(e)),
        Ok(value) => (
            m1.with_regs(
                m1.regs.with_flags(
                    !bit_at(value, field(opcode, 3, 3)),
                    false,
                    true,
                    m1.regs.flag(Flag::Carry),
                ),
            ),
            Ok(()),
        ),
    }
}

/// A byte with bit `index` cleared.
pub open spec fn without_bit(value: u8, index: u8) -> u8 {
    if bit_at(value, index) {
        (value - weight(index)) as u8
    } else {
        value
    }
}

/// `RES u3,r8` (`0xCB 0x80..=0xBF`): bits 3 to 5 of the opcode pick the bit to clear.
#[verifier::opaque]
pub open spec fn reset_bit_spec(m: Machine, opcode: u8) -> (Machine, Result<(), GBError>) {
    replaced(m, opcode, |value: u8| without_bit(value, field(opcode, 3, 3)))
}

/// `SET u3,r8` (`0xCB 0xC0..=0xFF`): bits 3 to 5 of the opcode pick the bit to set.
#[verifier::opaque]
pub open spec fn set_bit_spec(m: Machine, opcode: u8) -> (Machine, Result<(), GBError>) {
    replaced(m, opcode, |value: u8| with_bit(value, field(opcode, 3, 3), true))
}

proof fn lemma_swapped(value: u8)
    by (bit_vector)
    ensures
        (value << 4) | (value >> 4) == (value % 16) * 16 + value / 16,
        (value >> 4) == value / 16,
{
}

proof fn lemma_without_bit(value: u8, index: u8)
    by (bit_vector)
    requires
        index < 8,
    ensures
        replace_field(value, index, 1, 0) == without_bit(value, index),
{
}

/// Rotates the operand one bit, to the left or to the right, through the carry or not.
pub fn rotate_to_carry(opcode: u8, context: &mut CpuContext) -> (r: Result<(), GBError>)
    requires
        old(context).has_cycles(2),
    ensures
        (final(context)@, r) == rotate_to_carry_spec(old(context)@, opcode),
{
    proof {
        reveal(rotate_to_carry_spec);
    }
    let is_left: bool = read_bits(opcode, 3, 1) == 0;
    let through_carry: bool = read_bits(opcode, 4, 1) == 1;
    let r8_param = R8::get_r8_param(false, opcode, 0, context)?;
    let r8: u8 = r8_param.read(context)?;
    let (result, carry) = if is_left {
        rotate_left(r8, context.registers.read_flag(Flag::Carry), through_carry)
    } else {
        rotate_right(r8, context.registers.read_flag(Flag::Carry), through_carry)
    };
    r8_param.write(context, result)?;
    context.registers.set_all_flags(&[flag_entry(result == 0), 0, 0, flag_entry(carry)])?;
    Ok(())
}

/// Shifts the operand one bit, to the left or to the right.
pub fn shift_to_carry(opcode: u8, context: &mut CpuContext) -> (r: Result<(), GBError>)
    requires
        old(context).has_cycles(2),
    ensures
        (final(context)@, r) == shift_to_carry_spec(old(context)@, opcode),
{
    proof {
        reveal(shift_to_carry_spec);
    }
    let is_left: bool = read_bits(opcode, 3, 1) == 0;
    let is_logical: bool = read_bits(opcode, 4, 1) == 1;
    let r8_param = R8::get_r8_param(false, opcode, 0, context)?;
    let r8: u8 = r8_param.read(context)?;
    let (result, carry) = if is_logical {
        rotate_right(r8, false, true)
    } else if is_left {
        rotate_left(r8, false, true)
    } else {
        rotate_right(r8, read_bits(r8, 7, 1) == 1, true)
    };
    r8_param.write(context, result)?;
    context.registers.set_all_flags(&[flag_entry(result == 0), 0, 0, flag_entry(carry)])?;
    Ok(())
}

/// Exchanges the two nibbles of the operand.
pub fn swap(opcode: u8, context: &mut CpuContext) -> (r: Result<(), GBError>)
    requires
        old(context).has_cycles(2),
    ensures
        (final(context)@, r) == swap_spec(old(context)@, opcode),
{
    proof {
        reveal(swap_spec);
    }
    let r8_param = R8::get_r8_param(false, opcode, 0, context)?;
    let r8: u8 = r8_param.read(context)?;
    proof {
        lemma_swapped(r8);
    }
    let high: u8 = read_bits(r8, 4, 4);
    let result: u8 = (r8 << 4) | high;
    r8_param.write(context, result)?;
    context.registers.set_all_flags(&[flag_entry(result == 0), 0, 0, 0])?;
    Ok(())
}

/// Tests one bit of the operand.
pub fn test_bit(opcode: u8, context: &mut CpuContext) -> (r: Result<(), GBError>)
    requires
        old(context).has_cycles(1),
    ensures
        (final(context)@, r) == test_bit_spec(old(context)@, opcode),
{
    proof {
        reveal(test_bit_spec);
    }
    let r8_param = R8::get_r8_param(false, opcode, 0, context)?;
    let r8: u8 = r8_param.read(context)?;
    let index: u8 = read_bits(opcode, 3, 3);
    let result: bool = read_bits(r8, index, 1) == 0;
    context.registers.set_all_flags(&[flag_entry(result), 0, 1, PRESERVE])?;
    Ok(())
}

/// Clears one bit of the operand.
pub fn reset_bit(opcode: u8, context: &mut CpuContext) -> (r: Result<(), GBError>)
    requires
        old(context).has_cycles(2),
    ensures
        (final(context)@, r) == reset_bit_spec(old(context)@, opcode),
{
    proof {
        reveal(reset_bit_spec);
    }
    let r8_param = R8::get_r8_param(false, opcode, 0, context)?;
    let mut r8: u8 = r8_param.read(context)?;
    let index: u8 = read_bits(opcode, 3, 3);
    proof {
        lemma_without_bit(r8, index);
    }
    write_bits(&mut r8, index, 1, 0)?;
    r8_param.write(context, r8)?;
    Ok(())
}

/// Sets one bit of the operand.
pub fn set_bit(opcode: u8, context: &mut CpuContext) -> (r: Result<(), GBError>)
    requires
        old(context).has_cycles(2),
    ensures
        (final(context)@, r) == set_bit_spec(old(context)@, opcode),
{
    proof {
        reveal(set_bit_spec);
    }
    let r8_param = R8::get_r8_param(false, opcode, 0, context)?;
    let r8: u8 = r8_param.read(context)?;
    let index: u8 = read_bits(opcode, 3, 3);
    let result: u8 = crate::cpu::alu::set_bit(r8, index, true);
    r8_param.write(context, result)?;
    Ok(())
}

/// No instruction of the `0xCB` block takes more than two machine cycles once its second
/// byte is fetched, and `BIT` no more than one.
pub proof fn lemma_bitwise_cycles(m: Machine, opcode: u8)
    ensures
        m.within(rotate_to_carry_spec(m, opcode).0, 2),
        m.within(shift_to_carry_spec(m, opcode).0, 2),
        m.within(swap_spec(m, opcode).0, 2),
        m.within(test_bit_spec(m, opcode).0, 1),
        m.within(reset_bit_spec(m, opcode).0, 2),
        m.within(set_bit_spec(m, opcode).0, 2),
{
    reveal(rotate_to_carry_spec);
    reveal(shift_to_carry_spec);
    reveal(swap_spec);
    reveal(test_bit_spec);
    reveal(reset_bit_spec);
    reveal(set_bit_spec);
}

/// Setting a bit and then clearing it leaves the byte with that bit clear: the byte itself
/// where the bit was clear before.
pub proof fn lemma_set_then_reset(value: u8, index: u8)
    ensures
        without_bit(with_bit(value, index, true), index) == without_bit(value, index),
        !bit_at(value, index) ==> without_bit(with_bit(value, index, true), index) == value,
{
    if index < 8 {
        lemma_set_reset_bits(value, index);
    }
}

proof fn lemma_set_reset_bits(value: u8, index: u8)
    by (bit_vector)
    requires
        index < 8,
    ensures
        without_bit(with_bit(value, index, true), index) == without_bit(value, index),
{
}

/// `SET u3,r8` and then `RES u3,r8` on the same bit of the same register leave the machine
/// as `RES` alone leaves it: with that bit clear, and so as it was where the bit was clear
/// at first.
pub proof fn lemma_set_then_reset_register(m: Machine, set: u8, reset: u8)
    requires
        field(set, 0, 3) == field(reset, 0, 3),
        field(set, 3, 3) == field(reset, 3, 3),
        field(set, 0, 3) != 6,
    ensures
        set_bit_spec(m, set).1 is Ok,
        reset_bit_spec(set_bit_spec(m, set).0, reset) == reset_bit_spec(m, reset),
        !bit_at(m.regs.r8(field(set, 0, 3)), field(set, 3, 3)) ==> reset_bit_spec(
            set_bit_spec(m, set).0,
            reset,
        ) == (m, Ok::<(), GBError>(())),
{
    reveal(set_bit_spec);
    reveal(reset_bit_spec);
    let slot = field(set, 0, 3);
    let index = field(set, 3, 3);
    lemma_set_then_reset(m.regs.r8(slot), index);
    let m1 = set_bit_spec(m, set).0;
    assert(m1.regs.with_r8(slot, m.regs.r8(slot)) == m.regs);
    assert(m1.regs.with_r8(slot, without_bit(m.regs.r8(slot), index)) == m.regs.with_r8(
        slot,
        without_bit(m.regs.r8(slot), index),
    ));
}

/// `BIT u3,r8` never changes its operand: it leaves every register but `F` and all of
/// memory as they were, but for what the tick of its bus read does where the operand is
/// `[HL]`.
pub proof fn lemma_bit_test_keeps_operand(m: Machine, opcode: u8)
    ensures
        ({
            let (after, r) = test_bit_spec(m, opcode);
            let read = if field(opcode, 0, 3) == 6 {
                m.tick()
            } else {
                m
            };
            r is Ok ==> after == read.with_regs(RegFile { f: after.regs.f, ..m.regs })
        }),
{
    reveal(test_bit_spec);
}

/// The instructions of the `0xCB` block keep a steady machine steady.
pub proof fn lemma_bitwise_steady(m: Machine, opcode: u8)
    requires
        m.steady(),
    ensures
        rotate_to_carry_spec(m, opcode).0.steady(),
        shift_to_carry_spec(m, opcode).0.steady(),
        swap_spec(m, opcode).0.steady(),
        test_bit_spec(m, opcode).0.steady(),
        reset_bit_spec(m, opcode).0.steady(),
        set_bit_spec(m, opcode).0.steady(),
{
    reveal(rotate_to_carry_spec);
    reveal(shift_to_carry_spec);
    reveal(swap_spec);
    reveal(test_bit_spec);
    reveal(reset_bit_spec);
    reveal(set_bit_spec);
    lemma_in_step_kept();
}

} // verus!

//! The 8-bit arithmetic and logic instructions.
//!
//! Each instruction has a function `..._spec` that gives the machine after it and its result,
//! and the function that executes the instruction ensures exactly that. These functions are
//! opaque, so that a proof about one instruction does not unfold all the others:
//! `reveal(add_spec)` and the like bring in what an instruction does.

use vstd::prelude::*;
use crate::cpu::alu::bit_at;
use crate::cpu::alu::lemma_low_nibble;
use crate::cpu::alu::read_bits;
use crate::cpu::alu::wrap8;
use crate::cpu::cpu_context::CpuContext;
use crate::cpu::machine::lemma_in_step_kept;
use crate::cpu::machine::Machine;
use crate::cpu::operands::R8;
use crate::cpu::reg_file::Flag;
use crate::cpu::reg_file::PRESERVE;
use crate::cpu::reg_file::RegFile;
use crate::error::GBError;

verus! {

/// 1 for a flag that is set and 0 for one that is clear.
pub open spec fn as_bit(flag: bool) -> int {
    if flag {
        1
    } else {
        0
    }
}

/// The entry of a flag array that gives a flag the value `flag`.
pub(crate) fn flag_entry(flag: bool) -> (entry: u8)
    ensures
        entry == as_bit(flag),
{
    if flag {
        1
    } else {
        0
    }
}

/// `a + x + carry_in` as the ALU gives it: the sum modulo 2^8, the carry out of bit 3 and
/// the carry out of bit 7.
pub open spec fn added(a: u8, x: u8, carry_in: bool) -> (u8, bool, bool) {
    (wrap8(a + x + as_bit(carry_in)), a % 16 + x % 16 + as_bit(carry_in) > 15, a + x + as_bit(
        carry_in,
    ) > 255)
}

/// `a - x - borrow_in` as the ALU gives it: the difference modulo 2^8, the borrow into
/// bit 3 and the borrow into bit 7.
pub open spec fn subtracted(a: u8, x: u8, borrow_in: bool) -> (u8, bool, bool) {
    (wrap8(a - x - as_bit(borrow_in)), a % 16 < x % 16 + as_bit(borrow_in), a < x + as_bit(
        borrow_in,
    ))
}

/// The registers after `ADD A,x`, or after `ADC A,x` where `with_carry` holds.
pub open spec fn regs_added(regs: RegFile, x: u8, with_carry: bool) -> RegFile {
    let (value, half_carry, carry) = added(regs.a, x, with_carry && regs.flag(Flag::Carry));
    RegFile { a: value, ..regs.with_flags(value == 0, false, half_carry, carry) }
}

/// The registers after `CP A,x`: the flags of a subtraction, and `A` as it was.
pub open spec fn regs_compared(regs: RegFile, x: u8) -> RegFile {
    let (value, half_carry, carry) = subtracted(regs.a, x, false);
    regs.with_flags(value == 0, true, half_carry, carry)
}

/// The registers after `SUB A,x`, or after `SBC A,x` where `with_carry` holds.
pub open spec fn regs_subtracted(regs: RegFile, x: u8, with_carry: bool) -> RegFile {
    let (value, half_carry, carry) = subtracted(regs.a, x, with_carry && regs.flag(Flag::Carry));
    RegFile { a: value, ..regs.with_flags(value == 0, true, half_carry, carry) }
}

/// The registers after a bitwise operation has left `value` in `A`: `Z` from the value,
/// `H` as given, `N` and `C` clear.
pub open spec fn regs_combined(regs: RegFile, value: u8, half_carry: bool) -> RegFile {
    RegFile { a: value, ..regs.with_flags(value == 0, false, half_carry, false) }
}

/// An instruction that takes one 8-bit source operand, named by the low three bits of the
/// opcode or immediate, and then changes only registers.
pub open spec fn with_source(
    m: Machine,
    n8: bool,
    opcode: u8,
    effect: spec_fn(RegFile, u8) -> RegFile,
) -> (Machine, Result<(), GBError>) {
    let (m1, x) = R8::fetched(m, n8, opcode, 0);
    match x {
        Err(e) => (m1, Err(e)),
        Ok(x) => (m1.with_regs(effect(m1.regs, x)), Ok(())),
    }
}

/// `ADD A,r8`, `ADC A,r8` (`0x80..=0x8F`) and their immediate forms `0xC6` and `0xCE`. Bit 3
/// of the opcode tells `ADC` from `ADD`.
#[verifier::opaque]
pub open spec fn add_spec(m: Machine, opcode: u8) -> (Machine, Result<(), GBError>) {
    with_source(
        m,
        opcode == 0xC6 || opcode == 0xCE,
        opcode,
        |regs: RegFile, x: u8| regs_added(regs, x, bit_at(opcode, 3)),
    )
}

/// `SUB A,r8`, `SBC A,r8` (`0x90..=0x9F`) and their immediate forms `0xD6` and `0xDE`. Bit 3
/// of the opcode tells `SBC` from `SUB`.
#[verifier::opaque]
pub open spec fn sub_spec(m: Machine, opcode: u8) -> (Machine, Result<(), GBError>) {
    with_source(
        m,
        opcode == 0xD6 || opcode == 0xDE,
        opcode,
        |regs: RegFile, x: u8| regs_subtracted(regs, x, bit_at(opcode, 3)),
    )
}

/// `AND A,r8` (`0xA0..=0xA7`) and `AND A,n8` (`0xE6`).
#[verifier::opaque]
pub open spec fn and_spec(m: Machine, opcode: u8) -> (Machine, Result<(), GBError>) {
    with_source(m, opcode == 0xE6, opcode, |regs: RegFile, x: u8| regs_combined(regs, regs.a & x, true))
}

/// `XOR A,r8` (`0xA8..=0xAF`) and `XOR A,n8` (`0xEE`).
#[verifier::opaque]
pub open spec fn xor_spec(m: Machine, opcode: u8) -> (Machine, Result<(), GBError>) {
    with_source(m, opcode == 0xEE, opcode, |regs: RegFile, x: u8| regs_combined(regs, regs.a ^ x, false))
}

/// `OR A,r8` (`0xB0..=0xB7`) and `OR A,n8` (`0xF6`).
#[verifier::opaque]
pub open spec fn or_spec(m: Machine, opcode: u8) -> (Machine, Result<(), GBError>) {
    with_source(m, opcode == 0xF6, opcode, |regs: RegFile, x: u8| regs_combined(regs, regs.a | x, false))
}

/// `CP A,r8` (`0xB8..=0xBF`) and `CP A,n8` (`0xFE`).
#[verifier::opaque]
pub open spec fn cp_spec(m: Machine, opcode: u8) -> (Machine, Result<(), GBError>) {
    with_source(m, opcode == 0xFE, opcode, |regs: RegFile, x: u8| regs_compared(regs, x))
}

fn add_bytes(a: u8, x: u8, carry_in: bool) -> (out: (u8, bool, bool))
    ensures
        out == added(a, x, carry_in),
{
    let c: u8 = flag_entry(carry_in);
    proof {
        lemma_low_nibble(a);
        lemma_low_nibble(x);
    }
    let half_carry: bool = (a & 0xF) + (x & 0xF) + c > 0xF;
    let sum: u16 = a as u16 + x as u16 + c as u16;
    if sum > 0xFF {
        ((sum - 0x100) as u8, half_carry, true)
    } else {
        (sum as u8, half_carry, false)
    }
}

fn subtract_bytes(a: u8, x: u8, borrow_in: bool) -> (out: (u8, bool, bool))
    ensures
        out == subtracted(a, x, borrow_in),
{
    let c: u8 = flag_entry(borrow_in);
    proof {
        lemma_low_nibble(a);
        lemma_low_nibble(x);
    }
    let half_carry: bool = (a & 0xF) < (x & 0xF) + c;
    let subtrahend: u16 = x as u16 + c as u16;
    if (a as u16) < subtrahend {
        ((0x100 + a as u16 - subtrahend) as u8, half_carry, true)
    } else {
        ((a as u16 - subtrahend) as u8, half_carry, false)
    }
}

/// Adds the operand, and with `ADC` the carry flag too, to `A`.
pub fn add(opcode: u8, context: &mut CpuContext) -> (r: Result<(), GBError>)
    requires
        old(context).has_cycles(1),
    ensures
        (final(context)@, r) == add_spec(old(context)@, opcode),
{
    proof {
        reveal(add_spec);
    }
    let r8_param = R8::get_r8_param(opcode == 0xC6 || opcode == 0xCE, opcode, 0, context)?;
    let src: u8 = r8_param.read(context)?;
    let carry_in: bool = read_bits(opcode, 3, 1) == 1 && context.registers.read_flag(Flag::Carry);
    let (res, half_carry, carry) = add_bytes(context.registers.a, src, carry_in);
    context.registers.set_all_flags(
        &[flag_entry(res == 0), 0, flag_entry(half_carry), flag_entry(carry)],
    )?;
    context.registers.a = res;
    Ok(())
}

/// Subtracts the operand, and with `SBC` the carry flag too, from `A`.
pub fn sub(opcode: u8, context: &mut CpuContext) -> (r: Result<(), GBError>)
    requires
        old(context).has_cycles(1),
    ensures
        (final(context)@, r) == sub_spec(old(context)@, opcode),
{
    proof {
        reveal(sub_spec);
    }
    let r8_param = R8::get_r8_param(opcode == 0xD6 || opcode == 0xDE, opcode, 0, context)?;
    let src: u8 = r8_param.read(context)?;
    let borrow_in: bool = read_bits(opcode, 3, 1) == 1 && context.registers.read_flag(Flag::Carry);
    let (res, half_carry, carry) = subtract_bytes(context.registers.a, src, borrow_in);
    context.registers.set_all_flags(
        &[flag_entry(res == 0), 1, flag_entry(half_carry), flag_entry(carry)],
    )?;
    context.registers.a = res;
    Ok(())
}

/// `A` becomes `A & operand`.
pub fn and(opcode: u8, context: &mut CpuContext) -> (r: Result<(), GBError>)
    requires
        old(context).has_cycles(1),
    ensures
        (final(context)@, r) == and_spec(old(context)@, opcode),
{
    proof {
        reveal(and_spec);
    }
    let r8_param = R8::get_r8_param(opcode == 0xE6, opcode, 0, context)?;
    let src: u8 = r8_param.read(context)?;
    context.registers.a = context.registers.a & src;
    context.registers.set_all_flags(&[flag_entry(context.registers.a == 0), 0, 1, 0])?;
    Ok(())
}

/// `A` becomes `A ^ operand`.
pub fn xor(opcode: u8, context: &mut CpuContext) -> (r: Result<(), GBError>)
    requires
        old(context).has_cycles(1),
    ensures
        (final(context)@, r) == xor_spec(old(context)@, opcode),
{
    proof {
        reveal(xor_spec);
    }
    let r8_param = R8::get_r8_param(opcode == 0xEE, opcode, 0, context)?;
    let src: u8 = r8_param.read(context)?;
    context.registers.a = context.registers.a ^ src;
    context.registers.set_all_flags(&[flag_entry(context.registers.a == 0), 0, 0, 0])?;
    Ok(())
}

/// `A` becomes `A | operand`.
pub fn or(opcode: u8, context: &mut CpuContext) -> (r: Result<(), GBError>)
    requires
        old(context).has_cycles(1),
    ensures
        (final(context)@, r) == or_spec(old(context)@, opcode),
{
    proof {
        reveal(or_spec);
    }
    let r8_param = R8::get_r8_param(opcode == 0xF6, opcode, 0, context)?;
    let src: u8 = r8_param.read(context)?;
    context.registers.a = context.registers.a | src;
    context.registers.set_all_flags(&[flag_entry(context.registers.a == 0), 0, 0, 0])?;
    Ok(())
}

/// Compares `A` with the operand: the flags of `SUB`, and `A` untouched.
pub fn cp(opcode: u8, context: &mut CpuContext) -> (r: Result<(), GBError>)
    requires
        old(context).has_cycles(1),
    ensures
        (final(context)@, r) == cp_spec(old(context)@, opcode),
{
    proof {
        reveal(cp_spec);
    }
    let r8_param = R8::get_r8_param(opcode == 0xFE, opcode, 0, context)?;
    let subtrahend: u8 = r8_param.read(context)?;
    let (res, half_carry, carry) = subtract_bytes(context.registers.a, subtrahend, false);
    context.registers.set_all_flags(
        &[flag_entry(res == 0), 1, flag_entry(half_carry), flag_entry(carry)],
    )?;
    Ok(())
}

/// `value + delta` modulo 2^8, and whether that carried out of bit 3 (for a negative
/// `delta`: borrowed into it).
pub open spec fn stepped(value: u8, delta: i8) -> (u8, bool) {
    (
        wrap8(value + delta),
        if delta < 0 {
            value % 16 < (-delta) % 16
        } else {
            value % 16 + delta % 16 > 15
        },
    )
}

/// `INC r8` (`delta` 1) and `DEC r8` (`delta` -1): bits 3 to 5 of the opcode name the
/// operand, which is read, changed and written back. `N` is set for a negative `delta`, and
/// `C` stays.
#[verifier::opaque]
pub open spec fn inc_r8_spec(m: Machine, opcode: u8, delta: i8) -> (Machine, Result<(), GBError>) {
    let operand = R8::named(m.regs, opcode, 3);
    let (m1, old_value) = operand.loaded(m);
    match old_value {
        Err(e) => (m1, Err(e)),
        Ok(old_value) => {
            let (value, half_carry) = stepped(old_value, delta);
            let (m2, saved) = operand.saved(m1, value);
            match saved {
                Err(e) => (m2, Err(e)),
                Ok(_) => (
                    m2.with_regs(
                        m2.regs.with_flags(value == 0, delta < 0, half_carry, m2.regs.flag(Flag::Carry)),
                    ),
                    Ok(()),
                ),
            }
        },
    }
}

fn step_byte(value: u8, delta: i8) -> (out: (u8, bool))
    ensures
        out == stepped(value, delta),
{
    proof {
        lemma_low_nibble(value);
    }
    if delta < 0 {
        let magnitude: u8 = (-(delta as i16)) as u8;
        proof {
            lemma_low_nibble(magnitude);
        }
        (value.wrapping_sub(magnitude), (value & 0xF) < (magnitude & 0xF))
    } else {
        let magnitude: u8 = delta as u8;
        proof {
            lemma_low_nibble(magnitude);
        }
        (value.wrapping_add(magnitude), (value & 0xF) + (magnitude & 0xF) > 0xF)
    }
}

/// Adds `delta` to the operand that bits 3 to 5 of the opcode name.
pub fn inc_r8(opcode: u8, context: &mut CpuContext, delta: i8) -> (r: Result<(), GBError>)
    requires
        old(context).has_cycles(2),
    ensures
        (final(context)@, r) == inc_r8_spec(old(context)@, opcode, delta),
{
    proof {
        reveal(inc_r8_spec);
    }
    let r8_param = R8::get_r8_param(false, opcode, 3, context)?;
    let value: u8 = r8_param.read(context)?;
    let (res, half_carry) = step_byte(value, delta);
    r8_param.write(context, res)?;
    context.registers.set_all_flags(
        &[flag_entry(res == 0), flag_entry(delta < 0), flag_entry(half_carry), PRESERVE],
    )?;
    Ok(())
}

/// The registers after `DAA`, which makes `A` a packed decimal number again after an
/// addition or a subtraction of two such numbers. After an addition (`N` clear) 6 is added
/// where `H` is set or the low nibble is above 9, and `0x60` where `C` is set or `A` is
/// above `0x99`, which also sets `C`. After a subtraction 6 is taken off where `H` is set
/// and `0x60` where `C` is set, and `C` stays. `H` is cleared, and `N` stays.
pub open spec fn regs_adjusted(regs: RegFile) -> RegFile {
    let half_carry = regs.flag(Flag::HalfCarry);
    let carry = regs.flag(Flag::Carry);
    if regs.flag(Flag::Subtract) {
        let adjust = (if half_carry { 0x06int } else { 0 }) + (if carry { 0x60int } else { 0 });
        let a = wrap8(regs.a - adjust);
        RegFile { a, ..regs.with_flags(a == 0, true, false, carry) }
    } else {
        let low = half_carry || regs.a % 16 > 9;
        let high = carry || regs.a > 0x99;
        let adjust = (if low { 0x06int } else { 0 }) + (if high { 0x60int } else { 0 });
        let a = wrap8(regs.a + adjust);
        RegFile { a, ..regs.with_flags(a == 0, false, false, high) }
    }
}

/// `DAA` (`0x27`): only registers change.
#[verifier::opaque]
pub open spec fn daa_spec(m: Machine) -> (Machine, Result<(), GBError>) {
    (m.with_regs(regs_adjusted(m.regs)), Ok(()))
}

/// Adjusts `A` to packed decimal after an addition or a subtraction.
pub fn daa(context: &mut CpuContext) -> (r: Result<(), GBError>)
    ensures
        (final(context)@, r) == daa_spec(old(context)@),
{
    proof {
        reveal(daa_spec);
    }
    let mut delta: u8 = 0;
    let a: u8 = context.registers.a;
    let mut carry: bool = context.registers.read_flag(Flag::Carry);
    proof {
        lemma_low_nibble(a);
    }
    if context.registers.read_flag(Flag::Subtract) {
        if context.registers.read_flag(Flag::HalfCarry) {
            delta += 0x06;
        }
        if carry {
            delta += 0x60;
        }
        context.registers.a = a.wrapping_sub(delta);
    } else {
        if context.registers.read_flag(Flag::HalfCarry) || (a & 0x0F) > 0x09 {
            delta += 0x06;
        }
        if carry || a > 0x99 {
            delta += 0x60;
            carry = true;
        }
        context.registers.a = a.wrapping_add(delta);
    }
    context.registers.set_all_flags(
        &[flag_entry(context.registers.a == 0), PRESERVE, 0, flag_entry(carry)],
    )?;
    Ok(())
}

/// No instruction of the 8-bit ALU takes more than one machine cycle once its opcode is
/// fetched, but for `INC` and `DEC`, which take up to two, and `DAA`, which takes none.
pub proof fn lemma_arithmetic_cycles(m: Machine, opcode: u8, delta: i8)
    ensures
        m.within(add_spec(m, opcode).0, 1),
        m.within(sub_spec(m, opcode).0, 1),
        m.within(and_spec(m, opcode).0, 1),
        m.within(xor_spec(m, opcode).0, 1),
        m.within(or_spec(m, opcode).0, 1),
        m.within(cp_spec(m, opcode).0, 1),
        m.within(inc_r8_spec(m, opcode, delta).0, 2),
        m.within(daa_spec(m).0, 0),
{
    reveal(add_spec);
    reveal(sub_spec);
    reveal(and_spec);
    reveal(xor_spec);
    reveal(or_spec);
    reveal(cp_spec);
    reveal(inc_r8_spec);
    reveal(daa_spec);
}

/// `ADD A,x` and then `SUB A,x` give `A` back, and change no register but `F`. The carry
/// that is left is the borrow of the subtraction, which is there if and only if the
/// addition had carried.
pub proof fn lemma_add_then_sub(regs: RegFile, x: u8)
    ensures
        ({
            let back = regs_subtracted(regs_added(regs, x, false), x, false);
            &&& back == RegFile { f: back.f, ..regs }
            &&& back.flag(Flag::Carry) == (regs.a + x > 255)
            &&& back.flag(Flag::Subtract)
        }),
{
}

proof fn lemma_arithmetic_steady_1(m: Machine, opcode: u8, delta: i8)
    requires
        m.steady(),
    ensures
        add_spec(m, opcode).0.steady(),
        sub_spec(m, opcode).0.steady(),
{
    reveal(add_spec);
    reveal(sub_spec);
    lemma_in_step_kept();
}

proof fn lemma_arithmetic_steady_2(m: Machine, opcode: u8, delta: i8)
    requires
        m.steady(),
    ensures
        cp_spec(m, opcode).0.steady(),
        and_spec(m, opcode).0.steady(),
{
    reveal(cp_spec);
    reveal(and_spec);
    lemma_in_step_kept();
}

proof fn lemma_arithmetic_steady_3(m: Machine, opcode: u8, delta: i8)
    requires
        m.steady(),
    ensures
        xor_spec(m, opcode).0.steady(),
        or_spec(m, opcode).0.steady(),
{
    reveal(xor_spec);
    reveal(or_spec);
    lemma_in_step_kept();
}

proof fn lemma_arithmetic_steady_4(m: Machine, opcode: u8, delta: i8)
    requires
        m.steady(),
    ensures
        inc_r8_spec(m, opcode, delta).0.steady(),
        daa_spec(m).0.steady(),
{
    reveal(inc_r8_spec);
    reveal(daa_spec);
    lemma_in_step_kept();
}

/// The instructions of the 8-bit ALU keep a steady machine steady.
pub proof fn lemma_arithmetic_steady(m: Machine, opcode: u8, delta: i8)
    requires
        m.steady(),
    ensures
        add_spec(m, opcode).0.steady(),
        sub_spec(m, opcode).0.steady(),
        cp_spec(m, opcode).0.steady(),
        and_spec(m, opcode).0.steady(),
        xor_spec(m, opcode).0.steady(),
        or_spec(m, opcode).0.steady(),
        inc_r8_spec(m, opcode, delta).0.steady(),
        daa_spec(m).0.steady(),
{
    lemma_arithmetic_steady_1(m, opcode, delta);
    lemma_arithmetic_steady_2(m, opcode, delta);
    lemma_arithmetic_steady_3(m, opcode, delta);
    lemma_arithmetic_steady_4(m, opcode, delta);
}

} // verus!

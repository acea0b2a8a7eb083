//! The 16-bit arithmetic instructions.
//!
//! Each instruction has a function `..._spec` that gives the machine after it and its result,
//! and the function that executes the instruction ensures exactly that. These functions are
//! opaque, so that a proof about one instruction does not unfold all the others:
//! `reveal(add_spec)` and the like bring in what an instruction does.

use vstd::prelude::*;
use crate::cpu::alu::displaced;
use crate::cpu::alu::field;
use crate::cpu::alu::lemma_low_masks;
use crate::cpu::alu::signed;
use crate::cpu::alu::wrap16;
use crate::cpu::cpu_context::CpuContext;
use crate::cpu::handlers::arithmetic::flag_entry;
use crate::cpu::machine::lemma_in_step_kept;
use crate::cpu::machine::Machine;
use crate::cpu::operands::R16;
use crate::cpu::operands::R16Type;
use crate::cpu::reg_file::Flag;
use crate::cpu::reg_file::PRESERVE;
use crate::cpu::reg_file::RegFile;
use crate::error::GBError;

verus! {

/// `INC r16` (`delta` 1) and `DEC r16` (`delta` -1): bits 4 and 5 of the opcode name one of
/// `BC DE HL SP`, which moves by `delta` modulo 2^16. No flag changes, and one machine cycle
/// passes.
#[verifier::opaque]
pub open spec fn inc_r16_spec(m: Machine, opcode: u8, delta: i8) -> (Machine, Result<(), GBError>) {
    let operand = R16::named(field(opcode, 4, 2), R16Type::R16);
    (
        m.with_regs(operand.assigned(m.regs, wrap16(operand.value(m.regs) + delta))).tick(),
        Ok(()),
    )
}

/// Adds `delta` to the register pair that bits 4 and 5 of the opcode name.
pub fn inc_r16(opcode: u8, context: &mut CpuContext, delta: i8) -> (r: Result<(), GBError>)
    requires
        old(context).has_cycles(1),
    ensures
        (final(context)@, r) == inc_r16_spec(old(context)@, opcode, delta),
{
    proof {
        reveal(inc_r16_spec);
    }
    let r16_param = R16::new(opcode, 4, R16Type::R16)?;
    let r16: u16 = r16_param.read(&context.registers);
    let result: u16 = r16.wrapping_add_signed(delta as i16);
    r16_param.write(result, &mut context.registers);
    context.tick();
    Ok(())
}

/// The registers after `ADD HL,x`: the sum modulo 2^16 in `HL`, `H` from the carry out of
/// bit 11, `C` from the carry out of bit 15, `N` clear, and `Z` as it was.
pub open spec fn regs_hl_added(regs: RegFile, x: u16) -> RegFile {
    let hl = R16::HL.value(regs);
    R16::HL.assigned(
        regs.with_flags(
            regs.flag(Flag::Zero),
            false,
            hl % 0x1000 + x % 0x1000 > 0xFFF,
            hl + x > 0xFFFF,
        ),
        wrap16(hl + x),
    )
}

/// `ADD HL,r16` (`0x09 0x19 0x29 0x39`): bits 4 and 5 of the opcode name one of
/// `BC DE HL SP`. One machine cycle passes.
#[verifier::opaque]
pub open spec fn add_hl_spec(m: Machine, opcode: u8) -> (Machine, Result<(), GBError>) {
    let operand = R16::named(field(opcode, 4, 2), R16Type::R16);
    (m.with_regs(regs_hl_added(m.regs, operand.value(m.regs))).tick(), Ok(()))
}

fn add_words(hl: u16, x: u16) -> (out: (u16, bool, bool))
    ensures
        out.0 == wrap16(hl + x),
        out.1 == (hl % 0x1000 + x % 0x1000 > 0xFFF),
        out.2 == (hl + x > 0xFFFF),
{
    proof {
        lemma_low_masks(hl);
        lemma_low_masks(x);
    }
    (hl.wrapping_add(x), (hl & 0xFFF) + (x & 0xFFF) > 0xFFF, hl as u32 + x as u32 > 0xFFFF)
}

/// Adds a register pair to `HL`.
pub fn add_hl(opcode: u8, context: &mut CpuContext) -> (r: Result<(), GBError>)
    requires
        old(context).has_cycles(1),
    ensures
        (final(context)@, r) == add_hl_spec(old(context)@, opcode),
{
    proof {
        reveal(add_hl_spec);
    }
    let r16_param = R16::new(opcode, 4, R16Type::R16)?;
    let r16: u16 = r16_param.read(&context.registers);
    let hl: u16 = R16::HL.read(&context.registers);
    let (result, half_carry, carry) = add_words(hl, r16);
    context.registers.set_all_flags(&[PRESERVE, 0, flag_entry(half_carry), flag_entry(carry)])?;
    R16::HL.write(result, &mut context.registers);
    context.tick();
    Ok(())
}

/// The flags that `ADD SP,e8` and `LD HL,SP+e8` leave: `H` and `C` are the carries out of
/// bit 3 and bit 7 of the sum of the low byte of `SP` and the offset taken as an unsigned
/// byte; `Z` and `N` are clear.
pub open spec fn regs_offset_flags(regs: RegFile, offset: u8) -> RegFile {
    regs.with_flags(
        false,
        false,
        regs.sp % 0x10 + offset % 0x10 > 0xF,
        regs.sp % 0x100 + offset > 0xFF,
    )
}

/// `ADD SP,e8` (`0xE8`): the byte after the opcode is a signed offset, which is added to
/// `SP` modulo 2^16. Two machine cycles pass after the fetch.
#[verifier::opaque]
pub open spec fn add_sp_delta_spec(m: Machine) -> (Machine, Result<(), GBError>) {
    let (m1, offset) = m.fetch();
    match offset {
        Err(e) => (m1, Err(e)),
        Ok(offset) => (
            m1.with_regs(
                RegFile {
                    sp: wrap16(m1.regs.sp + signed(offset)),
                    ..regs_offset_flags(m1.regs, offset)
                },
            ).tick().tick(),
            Ok(()),
        ),
    }
}

/// Sets `Z N H C` as an addition of the offset `offset` to `SP` leaves them.
pub(crate) fn set_offset_flags(context: &mut CpuContext, offset: u8)
    ensures
        final(context)@ == old(context)@.with_regs(regs_offset_flags(old(context)@.regs, offset)),
{
    let sp: u16 = context.registers.sp;
    proof {
        lemma_low_masks(sp);
        lemma_low_masks(offset as u16);
    }
    let carry: bool = (sp & 0xFF) + (offset as u16 & 0xFF) > 0xFF;
    let half_carry: bool = (sp & 0xF) + (offset as u16 & 0xF) > 0xF;
    let _ = context.registers.set_all_flags(&[0, 0, flag_entry(half_carry), flag_entry(carry)]);
}

/// Adds the signed byte that follows the opcode to `SP`.
pub fn add_sp_delta(context: &mut CpuContext) -> (r: Result<(), GBError>)
    requires
        old(context).has_cycles(3),
    ensures
        (final(context)@, r) == add_sp_delta_spec(old(context)@),
{
    proof {
        reveal(add_sp_delta_spec);
    }
    let delta: u8 = context.fetch()?;
    set_offset_flags(context, delta);
    context.registers.sp = displaced(context.registers.sp, delta);
    context.tick();
    context.tick();
    Ok(())
}

/// `INC r16`, `DEC r16` and `ADD HL,r16` take one machine cycle once their opcode is
/// fetched, and `ADD SP,e8` no more than three.
pub proof fn lemma_arithmetic_16_cycles(m: Machine, opcode: u8, delta: i8)
    ensures
        m.within(inc_r16_spec(m, opcode, delta).0, 1),
        m.within(add_hl_spec(m, opcode).0, 1),
        m.within(add_sp_delta_spec(m).0, 3),
{
    reveal(inc_r16_spec);
    reveal(add_hl_spec);
    reveal(add_sp_delta_spec);
}

/// The instructions of the 16-bit ALU keep a steady machine steady.
pub proof fn lemma_arithmetic_16_steady(m: Machine, opcode: u8, delta: i8)
    requires
        m.steady(),
    ensures
        inc_r16_spec(m, opcode, delta).0.steady(),
        add_hl_spec(m, opcode).0.steady(),
        add_sp_delta_spec(m).0.steady(),
{
    reveal(inc_r16_spec);
    reveal(add_hl_spec);
    reveal(add_sp_delta_spec);
    lemma_in_step_kept();
}

} // verus!

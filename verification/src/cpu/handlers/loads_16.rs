//! The 16-bit loads, the loads through an address, and the stack instructions.
//!
//! Each instruction has a function `..._spec` that gives the machine after it and its result,
//! and the function that executes the instruction ensures exactly that. These functions are
//! opaque, so that a proof about one instruction does not unfold all the others:
//! `reveal(add_spec)` and the like bring in what an instruction does.

use vstd::prelude::*;
use crate::cpu::alu::displaced;
use crate::cpu::alu::field;
use crate::cpu::alu::read_bits;
use crate::cpu::alu::signed;
use crate::cpu::alu::word;
use crate::cpu::alu::wrap16;
use crate::cpu::alu::write_u16;
use crate::cpu::cpu_context::CpuContext;
use crate::cpu::handlers::arithmetic_16::regs_offset_flags;
use crate::cpu::handlers::arithmetic_16::set_offset_flags;
use crate::cpu::machine::lemma_in_step_kept;
use crate::cpu::machine::Machine;
use crate::cpu::operands::R16;
use crate::cpu::operands::R16Type;
use crate::cpu::reg_file::RegFile;
use crate::error::GBError;
use crate::mem::map::keeps_writes;

verus! {

/// `LD r16,n16` (`0x01 0x11 0x21 0x31`): bits 4 and 5 of the opcode name one of
/// `BC DE HL SP`, which takes the word after the opcode.
#[verifier::opaque]
pub open spec fn load_r16_imm16_spec(m: Machine, opcode: u8) -> (Machine, Result<(), GBError>) {
    let (m1, value) = m.fetch_word();
    match value {
        Err(e) => (m1, Err(e)),
        Ok(value) => (
            m1.with_regs(R16::named(field(opcode, 4, 2), R16Type::R16).assigned(m1.regs, value)),
            Ok(()),
        ),
    }
}

/// The registers once a load through `HL+` or `HL-` has used the address `addr`: the
/// two-bit field 2 leaves `addr + 1` in `HL`, 3 leaves `addr - 1`, and the others nothing.
pub open spec fn regs_stepped_hl(regs: RegFile, param: u8, addr: u16) -> RegFile {
    if param == 2 {
        R16::HL.assigned(regs, wrap16(addr + 1))
    } else if param == 3 {
        R16::HL.assigned(regs, wrap16(addr - 1))
    } else {
        regs
    }
}

/// `LD [r16mem],A` (`0x02 0x12 0x22 0x32`): `A` is stored at the address that one of
/// `BC DE HL+ HL-` holds; `HL` moves once the store is done.
#[verifier::opaque]
pub open spec fn load_r16mem_a_spec(m: Machine, opcode: u8) -> (Machine, Result<(), GBError>) {
    let param = field(opcode, 4, 2);
    let addr = R16::named(param, R16Type::R16Mem).value(m.regs);
    let (m1, stored) = m.write(addr, m.regs.a);
    match stored {
        Err(e) => (m1, Err(e)),
        Ok(_) => (m1.with_regs(regs_stepped_hl(m1.regs, param, addr)), Ok(())),
    }
}

/// `LD A,[r16mem]` (`0x0A 0x1A 0x2A 0x3A`): `A` is loaded from the address that one of
/// `BC DE HL+ HL-` holds; `HL` moves once the load is done.
#[verifier::opaque]
pub open spec fn load_a_r16mem_spec(m: Machine, opcode: u8) -> (Machine, Result<(), GBError>) {
    let param = field(opcode, 4, 2);
    let addr = R16::named(param, R16Type::R16Mem).value(m.regs);
    let (m1, value) = m.read(addr);
    match value {
        Err(e) => (m1, Err(e)),
        Ok(value) => (
            m1.with_regs(regs_stepped_hl(RegFile { a: value, ..m1.regs }, param, addr)),
            Ok(()),
        ),
    }
}

/// `LD [n16],SP` (`0x08`): the lower byte of `SP` is stored at the address after the
/// opcode, and the upper byte at the address after that.
#[verifier::opaque]
pub open spec fn ld_n16_sp_spec(m: Machine) -> (Machine, Result<(), GBError>) {
    let (m1, addr) = m.fetch_word();
    match addr {
        Err(e) => (m1, Err(e)),
        Ok(addr) => {
            let (m2, low) = m1.write(addr, (m1.regs.sp % 256) as u8);
            match low {
                Err(e) => (m2, Err(e)),
                Ok(_) => m2.write(wrap16(addr + 1), (m2.regs.sp / 256) as u8),
            }
        },
    }
}

/// `LD HL,SP+e8` (`0xF8`): `HL` is `SP` moved by the signed byte after the opcode; the
/// flags are those of `ADD SP,e8`. One machine cycle passes after the fetch.
#[verifier::opaque]
pub open spec fn ld_hl_sp_delta_spec(m: Machine) -> (Machine, Result<(), GBError>) {
    let (m1, offset) = m.fetch();
    match offset {
        Err(e) => (m1, Err(e)),
        Ok(offset) => (
            m1.with_regs(
                R16::HL.assigned(
                    regs_offset_flags(m1.regs, offset),
                    wrap16(m1.regs.sp + signed(offset)),
                ),
            ).tick(),
            Ok(()),
        ),
    }
}

/// `LD [n16],A` (`0xEA`).
#[verifier::opaque]
pub open spec fn ld_n16_a_spec(m: Machine) -> (Machine, Result<(), GBError>) {
    let (m1, addr) = m.fetch_word();
    match addr {
        Err(e) => (m1, Err(e)),
        Ok(addr) => m1.write(addr, m1.regs.a),
    }
}

/// `LD A,[n16]` (`0xFA`).
#[verifier::opaque]
pub open spec fn ld_a_n16_spec(m: Machine) -> (Machine, Result<(), GBError>) {
    let (m1, addr) = m.fetch_word();
    match addr {
        Err(e) => (m1, Err(e)),
        Ok(addr) => {
            let (m2, value) = m1.read(addr);
            match value {
                Err(e) => (m2, Err(e)),
                Ok(value) => (m2.with_regs(RegFile { a: value, ..m2.regs }), Ok(())),
            }
        },
    }
}

/// `PUSH r16stk` (`0xC5 0xD5 0xE5 0xF5`): one machine cycle passes, and one of
/// `BC DE HL AF` is pushed.
#[verifier::opaque]
pub open spec fn push_spec(m: Machine, opcode: u8) -> (Machine, Result<(), GBError>) {
    m.tick().push_word(R16::named(field(opcode, 4, 2), R16Type::R16Stk).value(m.regs))
}

/// `POP r16stk` (`0xC1 0xD1 0xE1 0xF1`): one of `BC DE HL AF` takes the word on top of the
/// stack. `POP AF` leaves the low nibble of `F` zero.
#[verifier::opaque]
pub open spec fn pop_spec(m: Machine, opcode: u8) -> (Machine, Result<(), GBError>) {
    let (m1, value) = m.pop_word();
    match value {
        Err(e) => (m1, Err(e)),
        Ok(value) => (
            m1.with_regs(R16::named(field(opcode, 4, 2), R16Type::R16Stk).assigned(m1.regs, value)),
            Ok(()),
        ),
    }
}

/// Loads a register pair with the word that follows the opcode.
pub fn load_r16_imm16(context: &mut CpuContext, opcode: u8) -> (r: Result<(), GBError>)
    requires
        old(context).has_cycles(2),
    ensures
        (final(context)@, r) == load_r16_imm16_spec(old(context)@, opcode),
{
    proof {
        reveal(load_r16_imm16_spec);
    }
    let param = R16::new(opcode, 4, R16Type::R16)?;
    let value: u16 = context.fetch_word()?;
    param.write(value, &mut context.registers);
    Ok(())
}

fn step_hl(opcode: u8, context: &mut CpuContext, addr: u16)
    ensures
        final(context)@ == old(context)@.with_regs(
            regs_stepped_hl(old(context)@.regs, field(opcode, 4, 2), addr),
        ),
{
    let raw_param: u8 = read_bits(opcode, 4, 2);
    if raw_param == 0x2 {
        R16::HL.write(addr.wrapping_add(1), &mut context.registers);
    } else if raw_param == 0x3 {
        R16::HL.write(addr.wrapping_sub(1), &mut context.registers);
    }
}

/// Stores `A` at the address that a register pair holds.
pub fn load_r16mem_a(opcode: u8, context: &mut CpuContext) -> (r: Result<(), GBError>)
    requires
        old(context).has_cycles(1),
    ensures
        (final(context)@, r) == load_r16mem_a_spec(old(context)@, opcode),
{
    proof {
        reveal(load_r16mem_a_spec);
    }
    let param = R16::new(opcode, 4, R16Type::R16Mem)?;
    let addr: u16 = param.read(&context.registers);
    context.write(addr, context.registers.a)?;
    step_hl(opcode, context, addr);
    Ok(())
}

/// Loads `A` from the address that a register pair holds.
pub fn load_a_r16mem(opcode: u8, context: &mut CpuContext) -> (r: Result<(), GBError>)
    requires
        old(context).has_cycles(1),
    ensures
        (final(context)@, r) == load_a_r16mem_spec(old(context)@, opcode),
{
    proof {
        reveal(load_a_r16mem_spec);
    }
    let param = R16::new(opcode, 4, R16Type::R16Mem)?;
    let addr: u16 = param.read(&context.registers);
    let value: u8 = context.read(addr)?;
    context.registers.a = value;
    step_hl(opcode, context, addr);
    Ok(())
}

/// Stores `SP` at the address that follows the opcode.
pub fn ld_n16_sp(context: &mut CpuContext) -> (r: Result<(), GBError>)
    requires
        old(context).has_cycles(4),
    ensures
        (final(context)@, r) == ld_n16_sp_spec(old(context)@),
{
    proof {
        reveal(ld_n16_sp_spec);
    }
    let addr: u16 = context.fetch_word()?;
    let mut lsb: u8 = 0;
    let mut msb: u8 = 0;
    write_u16(&mut lsb, &mut msb, context.registers.sp);
    context.write(addr, lsb)?;
    context.write(addr.wrapping_add(1), msb)?;
    Ok(())
}

/// Loads `HL` with `SP` moved by the signed byte that follows the opcode.
pub fn ld_hl_sp_delta(context: &mut CpuContext) -> (r: Result<(), GBError>)
    requires
        old(context).has_cycles(2),
    ensures
        (final(context)@, r) == ld_hl_sp_delta_spec(old(context)@),
{
    proof {
        reveal(ld_hl_sp_delta_spec);
    }
    let delta: u8 = context.fetch()?;
    let result: u16 = displaced(context.registers.sp, delta);
    set_offset_flags(context, delta);
    R16::HL.write(result, &mut context.registers);
    context.tick();
    Ok(())
}

/// Stores `A` at the address that follows the opcode.
pub fn ld_n16_a(context: &mut CpuContext) -> (r: Result<(), GBError>)
    requires
        old(context).has_cycles(3),
    ensures
        (final(context)@, r) == ld_n16_a_spec(old(context)@),
{
    proof {
        reveal(ld_n16_a_spec);
    }
    let addr: u16 = context.fetch_word()?;
    context.write(addr, context.registers.a)?;
    Ok(())
}

/// Loads `A` from the address that follows the opcode.
pub fn ld_a_n16(context: &mut CpuContext) -> (r: Result<(), GBError>)
    requires
        old(context).has_cycles(3),
    ensures
        (final(context)@, r) == ld_a_n16_spec(old(context)@),
{
    proof {
        reveal(ld_a_n16_spec);
    }
    let addr: u16 = context.fetch_word()?;
    context.registers.a = context.read(addr)?;
    Ok(())
}

/// Pushes a register pair onto the stack.
pub fn push(opcode: u8, context: &mut CpuContext) -> (r: Result<(), GBError>)
    requires
        old(context).has_cycles(3),
    ensures
        (final(context)@, r) == push_spec(old(context)@, opcode),
{
    proof {
        reveal(push_spec);
    }
    let r16_param = R16::new(opcode, 4, R16Type::R16Stk)?;
    let (msb, lsb) = r16_param.read_as_tuple(&context.registers);
    context.tick();
    context.registers.sp = context.registers.sp.wrapping_sub(1);
    context.write(context.registers.sp, msb)?;
    context.registers.sp = context.registers.sp.wrapping_sub(1);
    context.write(context.registers.sp, lsb)?;
    Ok(())
}

/// Pops a register pair off the stack.
pub fn pop(opcode: u8, context: &mut CpuContext) -> (r: Result<(), GBError>)
    requires
        old(context).has_cycles(2),
    ensures
        (final(context)@, r) == pop_spec(old(context)@, opcode),
{
    proof {
        reveal(pop_spec);
    }
    let r16_param = R16::new(opcode, 4, R16Type::R16Stk)?;
    let value: u16 = context.pop_word()?;
    r16_param.write(value, &mut context.registers);
    Ok(())
}

/// The machine cycles that the 16-bit loads and the stack instructions take at most once
/// their opcode is fetched.
pub proof fn lemma_loads_16_cycles(m: Machine, opcode: u8)
    ensures
        m.within(load_r16_imm16_spec(m, opcode).0, 2),
        m.within(load_r16mem_a_spec(m, opcode).0, 1),
        m.within(load_a_r16mem_spec(m, opcode).0, 1),
        m.within(ld_n16_sp_spec(m).0, 4),
        m.within(ld_hl_sp_delta_spec(m).0, 2),
        m.within(ld_n16_a_spec(m).0, 3),
        m.within(ld_a_n16_spec(m).0, 3),
        m.within(push_spec(m, opcode).0, 3),
        m.within(pop_spec(m, opcode).0, 2),
{
    reveal(load_r16_imm16_spec);
    reveal(load_r16mem_a_spec);
    reveal(load_a_r16mem_spec);
    reveal(ld_n16_sp_spec);
    reveal(ld_hl_sp_delta_spec);
    reveal(ld_n16_a_spec);
    reveal(ld_a_n16_spec);
    reveal(push_spec);
    reveal(pop_spec);
}

/// `POP AF` and then `PUSH AF`, with the stack in memory that keeps what is written to it,
/// put the popped word back where it was, with the low nibble of its lower byte cleared,
/// and leave `SP` where it was.
pub proof fn lemma_pop_then_push_af(m: Machine)
    requires
        m.cells.len() == 0x10000,
        keeps_writes(m.external_ram, m.regs.sp),
        keeps_writes(m.external_ram, wrap16(m.regs.sp + 1)),
    ensures
        ({
            let low = m.regs.sp;
            let high = wrap16(low + 1);
            let (popped, r1) = pop_spec(m, 0xF1);
            let (pushed, r2) = push_spec(popped, 0xF5);
            &&& r1 is Ok
            &&& r2 is Ok
            &&& pushed.regs.sp == low
            &&& pushed.cells[low as int] == m.cells[low as int] - m.cells[low as int] % 16
            &&& pushed.cells[high as int] == m.cells[high as int]
        }),
{
    reveal(pop_spec);
    reveal(push_spec);
    assert(field(0xF1, 4, 2) == 3 && field(0xF5, 4, 2) == 3);
}

/// `LD [n16],SP` into memory that keeps what is written to it leaves `SP` there, lower
/// byte first, for a load of the word to read back.
pub proof fn lemma_stored_sp_reads_back(m: Machine)
    requires
        m.cells.len() == 0x10000,
        m.fetch_word().1 is Ok,
        keeps_writes(m.external_ram, m.fetch_word().1->Ok_0),
        keeps_writes(m.external_ram, wrap16(m.fetch_word().1->Ok_0 + 1)),
    ensures
        ({
            let addr = m.fetch_word().1->Ok_0;
            let (after, r) = ld_n16_sp_spec(m);
            &&& r is Ok
            &&& after.regs.sp == m.regs.sp
            &&& word(after.cells[addr as int], after.cells[wrap16(addr + 1) as int]) == m.regs.sp
        }),
{
    reveal(ld_n16_sp_spec);
}

proof fn lemma_loads_16_steady_1(m: Machine, opcode: u8)
    requires
        m.steady(),
    ensures
        load_r16_imm16_spec(m, opcode).0.steady(),
        load_r16mem_a_spec(m, opcode).0.steady(),
        load_a_r16mem_spec(m, opcode).0.steady(),
{
    reveal(load_r16_imm16_spec);
    reveal(load_r16mem_a_spec);
    reveal(load_a_r16mem_spec);
    lemma_in_step_kept();
}

proof fn lemma_loads_16_steady_2(m: Machine, opcode: u8)
    requires
        m.steady(),
    ensures
        ld_n16_sp_spec(m).0.steady(),
        ld_hl_sp_delta_spec(m).0.steady(),
{
    reveal(ld_n16_sp_spec);
    reveal(ld_hl_sp_delta_spec);
    lemma_in_step_kept();
}

proof fn lemma_loads_16_steady_3(m: Machine, opcode: u8)
    requires
        m.steady(),
    ensures
        ld_n16_a_spec(m).0.steady(),
        ld_a_n16_spec(m).0.steady(),
{
    reveal(ld_n16_a_spec);
    reveal(ld_a_n16_spec);
    lemma_in_step_kept();
}

proof fn lemma_loads_16_steady_4(m: Machine, opcode: u8)
    requires
        m.steady(),
    ensures
        push_spec(m, opcode).0.steady(),
        pop_spec(m, opcode).0.steady(),
{
    reveal(push_spec);
    reveal(pop_spec);
    lemma_in_step_kept();
}

/// The 16-bit loads and the stack instructions keep a steady machine steady.
pub proof fn lemma_loads_16_steady(m: Machine, opcode: u8)
    requires
        m.steady(),
    ensures
        load_r16_imm16_spec(m, opcode).0.steady(),
        load_r16mem_a_spec(m, opcode).0.steady(),
        load_a_r16mem_spec(m, opcode).0.steady(),
        ld_n16_sp_spec(m).0.steady(),
        ld_hl_sp_delta_spec(m).0.steady(),
        ld_n16_a_spec(m).0.steady(),
        ld_a_n16_spec(m).0.steady(),
        push_spec(m, opcode).0.steady(),
        pop_spec(m, opcode).0.steady(),
{
    lemma_loads_16_steady_1(m, opcode);
    lemma_loads_16_steady_2(m, opcode);
    lemma_loads_16_steady_3(m, opcode);
    lemma_loads_16_steady_4(m, opcode);
}

} // verus!

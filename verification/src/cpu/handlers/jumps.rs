//! Jumps, calls, returns and restarts.
//!
//! Each instruction has a function `..._spec` that gives the machine after it and its result,
//! and the function that executes the instruction ensures exactly that. These functions are
//! opaque, so that a proof about one instruction does not unfold all the others:
//! `reveal(add_spec)` and the like bring in what an instruction does.

use vstd::prelude::*;
use crate::cpu::alu::displaced;
use crate::cpu::alu::field;
use crate::cpu::alu::read_bits;
use crate::cpu::alu::signed;
use crate::cpu::alu::wrap16;
use crate::cpu::cpu_context::CpuContext;
use crate::cpu::machine::lemma_in_step_kept;
use crate::cpu::machine::Machine;
use crate::cpu::reg_file::RegFile;
use crate::error::GBError;

verus! {

/// Whether an instruction whose opcode holds a condition code in bits 3 and 4 goes ahead:
/// always where it is unconditional, and else where the flags meet the condition.
pub open spec fn taken(regs: RegFile, opcode: u8, conditional: bool) -> bool {
    !conditional || regs.condition(field(opcode, 3, 2))
}

/// The machine with `PC` at `target`.
pub open spec fn at(m: Machine, target: u16) -> Machine {
    m.with_regs(RegFile { pc: target, ..m.regs })
}

/// The target of a jump: for `JR` the signed byte after the opcode, counted from the
/// address after that byte; for `JP` the word after the opcode.
pub open spec fn jump_target(m: Machine, is_relative: bool) -> (Machine, Result<u16, GBError>) {
    if is_relative {
        let (m1, offset) = m.fetch();
        match offset {
            Err(e) => (m1, Err(e)),
            Ok(offset) => (m1, Ok(wrap16(m1.regs.pc + signed(offset)))),
        }
    } else {
        m.fetch_word()
    }
}

/// `JP n16` (`0xC3`), `JP cc,n16` (`0xC2 0xCA 0xD2 0xDA`), and with `is_relative`
/// `JR e8` (`0x18`), `JR cc,e8` (`0x20 0x28 0x30 0x38`). The target is fetched in any case;
/// a jump that is taken costs one more machine cycle.
#[verifier::opaque]
pub open spec fn jmp_spec(m: Machine, opcode: u8, is_relative: bool) -> (
    Machine,
    Result<(), GBError>,
) {
    let conditional = if is_relative {
        opcode != 0x18
    } else {
        opcode != 0xC3
    };
    let (m1, target) = jump_target(m, is_relative);
    match target {
        Err(e) => (m1, Err(e)),
        Ok(target) => if taken(m1.regs, opcode, conditional) {
            (at(m1, target).tick(), Ok(()))
        } else {
            (m1, Ok(()))
        },
    }
}

/// `CALL n16` (`0xCD`) and `CALL cc,n16` (`0xC4 0xCC 0xD4 0xDC`). The target is fetched in
/// any case. A call that is taken pushes the address of the next instruction, jumps, and
/// costs one more machine cycle.
#[verifier::opaque]
pub open spec fn call_spec(m: Machine, opcode: u8) -> (Machine, Result<(), GBError>) {
    let (m1, target) = m.fetch_word();
    match target {
        Err(e) => (m1, Err(e)),
        Ok(target) => if taken(m1.regs, opcode, opcode != 0xCD) {
            let (m2, pushed) = m1.push_word(m1.regs.pc);
            match pushed {
                Err(e) => (m2, Err(e)),
                Ok(_) => (at(m2, target).tick(), Ok(())),
            }
        } else {
            (m1, Ok(()))
        },
    }
}

/// The return proper: the return address is popped, one machine cycle passes, and `PC` is
/// the address.
pub open spec fn returned(m: Machine) -> (Machine, Result<(), GBError>) {
    let (m1, target) = m.pop_word();
    match target {
        Err(e) => (m1, Err(e)),
        Ok(target) => (at(m1.tick(), target), Ok(())),
    }
}

/// `RET` (`0xC9`), `RETI` (`0xD9`) and `RET cc` (`0xC0 0xC8 0xD0 0xD8`). `RETI` sets the
/// interrupt latch at once. Only `RET cc` looks at a condition, and pays one machine cycle
/// for it whether it returns or not.
#[verifier::opaque]
pub open spec fn ret_spec(m: Machine, opcode: u8) -> (Machine, Result<(), GBError>) {
    if opcode == 0xD9 {
        returned(m.with_latch(true, m.ime_pending))
    } else if opcode == 0xC9 {
        returned(m)
    } else {
        let m1 = m.tick();
        if m1.regs.condition(field(opcode, 3, 2)) {
            returned(m1)
        } else {
            (m1, Ok(()))
        }
    }
}

/// `RST vec` (`0xC7 0xCF 0xD7 0xDF 0xE7 0xEF 0xF7 0xFF`): one machine cycle passes, the
/// address of the next instruction is pushed, and `PC` is eight times bits 3 to 5 of the
/// opcode.
#[verifier::opaque]
pub open spec fn rst_spec(m: Machine, opcode: u8) -> (Machine, Result<(), GBError>) {
    let m1 = m.tick();
    let (m2, pushed) = m1.push_word(m1.regs.pc);
    match pushed {
        Err(e) => (m2, Err(e)),
        Ok(_) => (at(m2, (field(opcode, 3, 3) * 8) as u16), Ok(())),
    }
}

/// Jumps, absolutely or relatively, on a condition or without one.
pub fn jmp(context: &mut CpuContext, opcode: u8, is_relative: bool) -> (r: Result<(), GBError>)
    requires
        old(context).has_cycles(3),
    ensures
        (final(context)@, r) == jmp_spec(old(context)@, opcode, is_relative),
{
    proof {
        reveal(jmp_spec);
    }
    let target_address: u16;
    let is_conditional: bool;
    if is_relative {
        is_conditional = opcode != 0x18;
        let delta: u8 = context.fetch()?;
        target_address = displaced(context.registers.pc, delta);
    } else {
        is_conditional = opcode != 0xC3;
        target_address = context.fetch_word()?;
    }
    let condition: u8 = read_bits(opcode, 3, 2);
    if !is_conditional || context.registers.match_condition(condition)? {
        context.registers.pc = target_address;
        context.tick();
    }
    Ok(())
}

/// Calls a subroutine, on a condition or without one.
pub fn call(context: &mut CpuContext, opcode: u8) -> (r: Result<(), GBError>)
    requires
        old(context).has_cycles(5),
    ensures
        (final(context)@, r) == call_spec(old(context)@, opcode),
{
    proof {
        reveal(call_spec);
    }
    let target_address: u16 = context.fetch_word()?;
    let is_conditional: bool = opcode != 0xCD;
    let condition: u8 = read_bits(opcode, 3, 2);
    if !is_conditional || context.registers.match_condition(condition)? {
        context.push_word(context.registers.pc)?;
        context.registers.pc = target_address;
        context.tick();
    }
    Ok(())
}

/// Returns from a subroutine, on a condition or without one.
pub fn ret(context: &mut CpuContext, opcode: u8) -> (r: Result<(), GBError>)
    requires
        old(context).has_cycles(4),
    ensures
        (final(context)@, r) == ret_spec(old(context)@, opcode),
{
    proof {
        reveal(ret_spec);
    }
    if opcode == 0xD9 {
        context.ime = true;
    }
    if opcode != 0xC9 && opcode != 0xD9 {
        context.tick();
        if !context.registers.match_condition(read_bits(opcode, 3, 2))? {
            return Ok(());
        }
    }
    let addr: u16 = context.pop_word()?;
    context.tick();
    context.registers.pc = addr;
    Ok(())
}

/// Calls one of the eight restart vectors.
pub fn rst(context: &mut CpuContext, opcode: u8) -> (r: Result<(), GBError>)
    requires
        old(context).has_cycles(3),
    ensures
        (final(context)@, r) == rst_spec(old(context)@, opcode),
{
    proof {
        reveal(rst_spec);
    }
    let addr: u16 = (read_bits(opcode, 3, 3) * 8) as u16;
    context.tick();
    context.push_word(context.registers.pc)?;
    context.registers.pc = addr;
    Ok(())
}

/// Once its opcode is fetched a jump takes no more than three machine cycles, a call no
/// more than five, a return no more than four and a restart no more than three.
pub proof fn lemma_jumps_cycles(m: Machine, opcode: u8, is_relative: bool)
    ensures
        m.within(jmp_spec(m, opcode, is_relative).0, 3),
        m.within(call_spec(m, opcode).0, 5),
        m.within(ret_spec(m, opcode).0, 4),
        m.within(rst_spec(m, opcode).0, 3),
{
    reveal(jmp_spec);
    reveal(call_spec);
    reveal(ret_spec);
    reveal(rst_spec);
}

/// Jumps, calls, returns and restarts keep a steady machine steady.
pub proof fn lemma_jumps_steady(m: Machine, opcode: u8, is_relative: bool)
    requires
        m.steady(),
    ensures
        jmp_spec(m, opcode, is_relative).0.steady(),
        call_spec(m, opcode).0.steady(),
        ret_spec(m, opcode).0.steady(),
        rst_spec(m, opcode).0.steady(),
{
    reveal(jmp_spec);
    reveal(call_spec);
    reveal(ret_spec);
    reveal(rst_spec);
    lemma_in_step_kept();
}

} // verus!

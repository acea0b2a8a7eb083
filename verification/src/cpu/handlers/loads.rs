//! The 8-bit loads.
//!
//! Each instruction has a function `..._spec` that gives the machine after it and its result,
//! and the function that executes the instruction ensures exactly that. These functions are
//! opaque, so that a proof about one instruction does not unfold all the others:
//! `reveal(add_spec)` and the like bring in what an instruction does.

use vstd::prelude::*;
use crate::cpu::alu::bit_at;
use crate::cpu::alu::read_bits;
use crate::cpu::cpu_context::CpuContext;
use crate::cpu::machine::lemma_in_step_kept;
use crate::cpu::machine::Machine;
use crate::cpu::operands::R8;
use crate::error::GBError;

verus! {

/// `LD r8,r8` (`0x40..=0x7F`) and `LD r8,n8` (`0x06 0x0E 0x16 0x1E 0x26 0x2E 0x36 0x3E`).
/// With bit 6 of the opcode clear the source is the byte after the opcode, and else the
/// operand that bits 0 to 2 name. The destination is the operand that bits 3 to 5 name.
#[verifier::opaque]
pub open spec fn load8_spec(m: Machine, opcode: u8) -> (Machine, Result<(), GBError>) {
    let (m1, value) = R8::fetched(m, !bit_at(opcode, 6), opcode, 0);
    match value {
        Err(e) => (m1, Err(e)),
        Ok(value) => R8::named(m1.regs, opcode, 3).saved(m1, value),
    }
}

/// Loads one 8-bit operand with another or with an immediate byte.
pub fn load8(context: &mut CpuContext, opcode: u8) -> (r: Result<(), GBError>)
    requires
        old(context).has_cycles(2),
    ensures
        (final(context)@, r) == load8_spec(old(context)@, opcode),
{
    proof {
        reveal(load8_spec);
    }
    let src_param = R8::get_r8_param(read_bits(opcode, 6, 1) == 0, opcode, 0, context)?;
    let src: u8 = src_param.read(context)?;
    let dst_param = R8::get_r8_param(false, opcode, 3, context)?;
    dst_param.write(context, src)?;
    Ok(())
}

/// An 8-bit load takes no more than two machine cycles once its opcode is fetched.
pub proof fn lemma_loads_cycles(m: Machine, opcode: u8)
    ensures
        m.within(load8_spec(m, opcode).0, 2),
{
    reveal(load8_spec);
}

/// An 8-bit load keeps a steady machine steady.
pub proof fn lemma_loads_steady(m: Machine, opcode: u8)
    requires
        m.steady(),
    ensures
        load8_spec(m, opcode).0.steady(),
{
    reveal(load8_spec);
    lemma_in_step_kept();
}

} // verus!

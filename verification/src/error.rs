//! The errors of the core.

use vstd::prelude::*;

verus! {

/// Every way in which the core can refuse to go on.
#[derive(Debug, Clone, Copy, PartialEq, Eq, Structural)]
pub enum GBError {
    /// The address decodes to no region of the memory map.
    BadAddress(u16),
    /// A write into cartridge ROM.
    ReadOnlyAddress(u16),
    /// An access into a region that the current mode forbids.
    IllegalAddress(u16),
    /// A register index that names no 8-bit register (6 is the `[HL]` slot).
    InvalidR8Operand(u8),
    /// A register-pair index outside `0..4`.
    InvalidR16Operand(u8),
    /// A condition code outside `0..4`.
    InvalidCondition(u8),
    /// An opcode that the SM83 does not define.
    IllegalInstruction(u8),
    /// A bit field that does not fit into a byte.
    ByteOverflow { length: u8, index: u8 },
}

} // verus!

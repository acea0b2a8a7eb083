//! The operands that an opcode names: bytes (`R8`) and register pairs (`R16`).

use vstd::prelude::*;
use vstd::string::StringExecFns;
use crate::cpu::alu::field;
use crate::cpu::alu::read_bits;
use crate::cpu::alu::read_u16;
use crate::cpu::alu::word;
use crate::cpu::alu::write_u16;
use crate::cpu::cpu_context::CpuContext;
use crate::cpu::machine::Machine;
use crate::cpu::reg_file::RegFile;
use crate::error::GBError;

verus! {

/// An 8-bit operand. An opcode names it in three bits, in the order
/// `B C D E H L [HL] A`; some instructions take the byte after the opcode instead.
#[derive(Debug, Clone, Copy, PartialEq, Eq, Structural)]
pub enum R8 {
    /// A byte register, by its index.
    Register(u8),
    /// The byte in memory at the address that `HL` held when the operand was decoded.
    Hl(u16),
    /// An immediate byte. It can be read and cannot be written.
    N8(u8),
}

impl R8 {
    /// The operand that the three bits of `opcode` from bit `index` on name.
    pub open spec fn named(regs: RegFile, opcode: u8, index: u8) -> R8 {
        let slot = field(opcode, index, 3);
        if slot == 6 {
            R8::Hl(word(regs.l, regs.h))
        } else {
            R8::Register(slot)
        }
    }

    /// Decoding an operand: with `n8` the next byte of the instruction stream is fetched
    /// and is the operand; without it the opcode names the operand and nothing is fetched.
    pub open spec fn decoded(m: Machine, n8: bool, opcode: u8, index: u8) -> (
        Machine,
        Result<R8, GBError>,
    ) {
        if n8 {
            let (m1, r) = m.fetch();
            match r {
                Err(e) => (m1, Err(e)),
                Ok(byte) => (m1, Ok(R8::N8(byte))),
            }
        } else {
            (m, Ok(Self::named(m.regs, opcode, index)))
        }
    }

    /// Reading the operand: a register comes from the register file, `[HL]` over the bus,
    /// and an immediate is the byte it carries.
    pub open spec fn loaded(self, m: Machine) -> (Machine, Result<u8, GBError>) {
        match self {
            R8::Register(reg) => if RegFile::is_r8(reg) {
                (m, Ok(m.regs.r8(reg)))
            } else {
                (m, Err(GBError::InvalidR8Operand(reg)))
            },
            R8::Hl(addr) => m.read(addr),
            R8::N8(byte) => (m, Ok(byte)),
        }
    }

    /// Writing the operand: a register goes to the register file, `[HL]` over the bus, and
    /// a write to an immediate does nothing.
    pub open spec fn saved(self, m: Machine, value: u8) -> (Machine, Result<(), GBError>) {
        match self {
            R8::Register(reg) => if RegFile::is_r8(reg) {
                (m.with_regs(m.regs.with_r8(reg, value)), Ok(()))
            } else {
                (m, Err(GBError::InvalidR8Operand(reg)))
            },
            R8::Hl(addr) => m.write(addr, value),
            R8::N8(_) => (m, Ok(())),
        }
    }

    /// Decoding an operand and reading it.
    pub open spec fn fetched(m: Machine, n8: bool, opcode: u8, index: u8) -> (
        Machine,
        Result<u8, GBError>,
    ) {
        let (m1, operand) = Self::decoded(m, n8, opcode, index);
        match operand {
            Err(e) => (m1, Err(e)),
            Ok(operand) => operand.loaded(m1),
        }
    }

    /// Whether reading or writing the operand goes over the bus, which takes a machine
    /// cycle.
    pub open spec fn on_bus(self) -> bool {
        self is Hl
    }

    /// Decodes the operand of an instruction: the immediate byte that follows where `n8`
    /// holds, and else what the three bits of `opcode` from bit `index` on name.
    pub fn get_r8_param(n8: bool, opcode: u8, index: u8, context: &mut CpuContext) -> (r: Result<
        Self,
        GBError,
    >)
        requires
            n8 ==> old(context).has_cycles(1),
        ensures
            (final(context)@, r) == Self::decoded(old(context)@, n8, opcode, index),
    {
        if n8 {
            let byte: u8 = context.fetch()?;
            return Ok(Self::N8(byte));
        }
        let param: u8 = read_bits(opcode, index, 3);
        if param == 6 {
            let addr: u16 = read_u16(&context.registers.l, &context.registers.h);
            Ok(Self::Hl(addr))
        } else {
            Ok(Self::Register(param))
        }
    }

    /// Reads the operand.
    pub fn read(&self, context: &mut CpuContext) -> (r: Result<u8, GBError>)
        requires
            self.on_bus() ==> old(context).has_cycles(1),
        ensures
            (final(context)@, r) == self.loaded(old(context)@),
    {
        match self {
            Self::Register(reg) => Ok(*context.registers.match_r8(*reg)?),
            Self::Hl(addr) => context.read(*addr),
            Self::N8(n) => Ok(*n),
        }
    }

    /// Writes the operand.
    pub fn write(&self, context: &mut CpuContext, value: u8) -> (r: Result<(), GBError>)
        requires
            self.on_bus() ==> old(context).has_cycles(1),
        ensures
            (final(context)@, r) == self.saved(old(context)@, value),
    {
        match self {
            Self::Register(reg) => {
                *context.registers.match_r8(*reg)? = value;
                Ok(())
            },
            Self::Hl(addr) => context.write(*addr, value),
            Self::N8(_) => Ok(()),
        }
    }
}

/// The three ways in which two bits of an opcode name a 16-bit operand.
#[derive(Debug, Clone, Copy, PartialEq, Eq, Structural)]
pub enum R16Type {
    /// `BC DE HL SP`.
    R16,
    /// `BC DE HL AF`, for `PUSH` and `POP`.
    R16Stk,
    /// `BC DE HL+ HL-`, for loads through a register pair; the instruction moves `HL`
    /// once it has used it.
    R16Mem,
}

/// A 16-bit operand: a register pair, upper byte first, or the stack pointer.
#[derive(Debug, Clone, Copy, PartialEq, Eq, Structural)]
pub enum R16 {
    BC,
    DE,
    HL,
    AF,
    SP,
}

impl R16 {
    /// The operand that the two-bit field `param` names in the grouping `r16type`.
    pub open spec fn named(param: u8, r16type: R16Type) -> R16 {
        if param == 0 {
            R16::BC
        } else if param == 1 {
            R16::DE
        } else if param == 2 {
            R16::HL
        } else {
            match r16type {
                R16Type::R16 => R16::SP,
                R16Type::R16Stk => R16::AF,
                R16Type::R16Mem => R16::HL,
            }
        }
    }

    /// The value of the operand in `regs`.
    pub open spec fn value(self, regs: RegFile) -> u16 {
        match self {
            R16::BC => word(regs.c, regs.b),
            R16::DE => word(regs.e, regs.d),
            R16::HL => word(regs.l, regs.h),
            R16::AF => word(regs.f, regs.a),
            R16::SP => regs.sp,
        }
    }

    /// `regs` with `value` in the operand. The low nibble of `F` takes no bits: a write to
    /// `AF` leaves it zero.
    pub open spec fn assigned(self, regs: RegFile, value: u16) -> RegFile {
        let hi = (value / 256) as u8;
        let lo = (value % 256) as u8;
        match self {
            R16::BC => RegFile { b: hi, c: lo, ..regs },
            R16::DE => RegFile { d: hi, e: lo, ..regs },
            R16::HL => RegFile { h: hi, l: lo, ..regs },
            R16::AF => RegFile { a: hi, f: (lo - lo % 16) as u8, ..regs },
            R16::SP => RegFile { sp: value, ..regs },
        }
    }

    /// Decodes the two bits of `opcode` from bit `index` on in the grouping `r16type`. Two
    /// bits name one of four operands, so this never fails.
    pub fn new(opcode: u8, index: u8, r16type: R16Type) -> (r: Result<Self, GBError>)
        ensures
            r == Ok::<R16, GBError>(Self::named(field(opcode, index, 2), r16type)),
    {
        let param: u8 = read_bits(opcode, index, 2);
        match param {
            0x0 => Ok(Self::BC),
            0x1 => Ok(Self::DE),
            0x2 => Ok(Self::HL),
            0x3 => match r16type {
                R16Type::R16 => Ok(Self::SP),
                R16Type::R16Stk => Ok(Self::AF),
                R16Type::R16Mem => Ok(Self::HL),
            },
            _ => Err(GBError::InvalidR16Operand(param)),
        }
    }

    /// The value of the operand.
    pub fn read(&self, reg_file: &RegFile) -> (value: u16)
        ensures
            value == self.value(*reg_file),
    {
        match self {
            R16::BC => read_u16(&reg_file.c, &reg_file.b),
            R16::DE => read_u16(&reg_file.e, &reg_file.d),
            R16::HL => read_u16(&reg_file.l, &reg_file.h),
            R16::AF => read_u16(&reg_file.f, &reg_file.a),
            R16::SP => reg_file.sp,
        }
    }

    /// The value of the operand as its upper and its lower byte.
    pub fn read_as_tuple(&self, reg_file: &RegFile) -> (bytes: (u8, u8))
        ensures
            word(bytes.1, bytes.0) == self.value(*reg_file),
            bytes.0 == self.value(*reg_file) / 256,
            bytes.1 == self.value(*reg_file) % 256,
    {
        match self {
            R16::BC => (reg_file.b, reg_file.c),
            R16::DE => (reg_file.d, reg_file.e),
            R16::HL => (reg_file.h, reg_file.l),
            R16::AF => (reg_file.a, reg_file.f),
            R16::SP => {
                let mut lo: u8 = 0;
                let mut hi: u8 = 0;
                write_u16(&mut lo, &mut hi, reg_file.sp);
                (hi, lo)
            },
        }
    }

    /// Gives the operand a value. Of the lower byte of a value for `AF` only the upper
    /// nibble reaches `F`.
    pub fn write(&self, value: u16, reg_file: &mut RegFile)
        ensures
            *final(reg_file) == self.assigned(*old(reg_file), value),
            final(reg_file).f % 16 == old(reg_file).f % 16 || final(reg_file).f % 16 == 0,
    {
        match self {
            R16::BC => write_u16(&mut reg_file.c, &mut reg_file.b, value),
            R16::DE => write_u16(&mut reg_file.e, &mut reg_file.d, value),
            R16::HL => write_u16(&mut reg_file.l, &mut reg_file.h, value),
            R16::AF => {
                write_u16(&mut reg_file.f, &mut reg_file.a, value);
                reg_file.f = reg_file.f - read_bits(reg_file.f, 0, 4);
            },
            R16::SP => reg_file.sp = value,
        }
    }
}

/// The digit that stands for `d` in upper-case hexadecimal.
pub open spec fn hex_digit(d: int) -> char {
    if d == 0 {
        '0'
    } else if d == 1 {
        '1'
    } else if d == 2 {
        '2'
    } else if d == 3 {
        '3'
    } else if d == 4 {
        '4'
    } else if d == 5 {
        '5'
    } else if d == 6 {
        '6'
    } else if d == 7 {
        '7'
    } else if d == 8 {
        '8'
    } else if d == 9 {
        '9'
    } else if d == 10 {
        'A'
    } else if d == 11 {
        'B'
    } else if d == 12 {
        'C'
    } else if d == 13 {
        'D'
    } else if d == 14 {
        'E'
    } else {
        'F'
    }
}

/// The digits of `n` in upper-case hexadecimal, without leading zeros.
pub open spec fn hex_digits(n: nat) -> Seq<char>
    decreases n,
{
    if n < 16 {
        seq![hex_digit(n as int)]
    } else {
        hex_digits(n / 16).push(hex_digit((n % 16) as int))
    }
}

/// `n` as a trace shows it: `0x` and its digits in upper-case hexadecimal.
pub open spec fn hex_text(n: nat) -> Seq<char> {
    seq!['0', 'x'] + hex_digits(n)
}

/// The name of the byte register with the index `reg`, in lower case; the `[HL]` slot and
/// an index that names no register have none.
pub open spec fn register_name(reg: u8) -> Seq<char> {
    if reg == 0 {
        seq!['b']
    } else if reg == 1 {
        seq!['c']
    } else if reg == 2 {
        seq!['d']
    } else if reg == 3 {
        seq!['e']
    } else if reg == 4 {
        seq!['h']
    } else if reg == 5 {
        seq!['l']
    } else if reg == 7 {
        seq!['a']
    } else {
        Seq::empty()
    }
}

fn push_hex_digit(text: &mut String, d: u16)
    requires
        d < 16,
    ensures
        final(text)@ == old(text)@.push(hex_digit(d as int)),
{
    proof {
        reveal_strlit("0");
        reveal_strlit("1");
        reveal_strlit("2");
        reveal_strlit("3");
        reveal_strlit("4");
        reveal_strlit("5");
        reveal_strlit("6");
        reveal_strlit("7");
        reveal_strlit("8");
        reveal_strlit("9");
        reveal_strlit("A");
        reveal_strlit("B");
        reveal_strlit("C");
        reveal_strlit("D");
        reveal_strlit("E");
        reveal_strlit("F");
    }
    match d {
        0 => text.append("0"),
        1 => text.append("1"),
        2 => text.append("2"),
        3 => text.append("3"),
        4 => text.append("4"),
        5 => text.append("5"),
        6 => text.append("6"),
        7 => text.append("7"),
        8 => text.append("8"),
        9 => text.append("9"),
        10 => text.append("A"),
        11 => text.append("B"),
        12 => text.append("C"),
        13 => text.append("D"),
        14 => text.append("E"),
        _ => text.append("F"),
    }
}

fn push_hex_digits(text: &mut String, n: u16)
    ensures
        final(text)@ == old(text)@ + hex_digits(n as nat),
    decreases n,
{
    if n >= 16 {
        push_hex_digits(text, n / 16);
    }
    push_hex_digit(text, n % 16);
}

fn push_hex_text(text: &mut String, n: u16)
    ensures
        final(text)@ == old(text)@ + hex_text(n as nat),
{
    proof {
        reveal_strlit("0x");
    }
    text.append("0x");
    push_hex_digits(text, n);
}

impl R8 {
    /// The operand as a trace shows it: the name of a register, the address of a byte in
    /// memory in square brackets, or the value of an immediate.
    pub open spec fn text(self) -> Seq<char> {
        match self {
            R8::Register(reg) => register_name(reg),
            R8::Hl(addr) => seq!['['] + hex_text(addr as nat) + seq![']'],
            R8::N8(n) => hex_text(n as nat),
        }
    }

    /// The operand in the words of a trace.
    pub fn log(&self) -> (text: String)
        ensures
            text@ == self.text(),
    {
        let mut text = String::new();
        match self {
            Self::Register(reg) => {
                proof {
                    reveal_strlit("b");
                    reveal_strlit("c");
                    reveal_strlit("d");
                    reveal_strlit("e");
                    reveal_strlit("h");
                    reveal_strlit("l");
                    reveal_strlit("a");
                }
                match *reg {
                    0 => text.append("b"),
                    1 => text.append("c"),
                    2 => text.append("d"),
                    3 => text.append("e"),
                    4 => text.append("h"),
                    5 => text.append("l"),
                    7 => text.append("a"),
                    _ => {},
                }
            },
            Self::Hl(addr) => {
                proof {
                    reveal_strlit("[");
                    reveal_strlit("]");
                }
                text.append("[");
                push_hex_text(&mut text, *addr);
                text.append("]");
            },
            Self::N8(n) => {
                push_hex_text(&mut text, *n as u16);
            },
        }
        text
    }
}

impl R16 {
    /// The name of the operand, in upper case.
    pub open spec fn name(self) -> Seq<char> {
        match self {
            R16::BC => seq!['B', 'C'],
            R16::DE => seq!['D', 'E'],
            R16::HL => seq!['H', 'L'],
            R16::AF => seq!['A', 'F'],
            R16::SP => seq!['S', 'P'],
        }
    }

    /// The operand in the words of a trace.
    pub fn log(&self) -> (text: String)
        ensures
            text@ == self.name(),
    {
        proof {
            reveal_strlit("BC");
            reveal_strlit("DE");
            reveal_strlit("HL");
            reveal_strlit("AF");
            reveal_strlit("SP");
        }
        match self {
            R16::BC => String::from_str("BC"),
            R16::DE => String::from_str("DE"),
            R16::HL => String::from_str("HL"),
            R16::AF => String::from_str("AF"),
            R16::SP => String::from_str("SP"),
        }
    }
}

} // verus!

//! The state that the interpreter works on, the fetch of an instruction and its dispatch.
//! The opcode table is stated from the structure of the encoding, and the dispatcher, which
//! lists the opcodes one by one, is proved against it.

use vstd::prelude::*;
use crate::cpu::alu::bit_at;
use crate::cpu::alu::read_bits;
use crate::cpu::alu::read_u16;
use crate::cpu::alu::rotate_left;
use crate::cpu::alu::rotate_right;
use crate::cpu::alu::rotated_left;
use crate::cpu::alu::rotated_right;
use crate::cpu::alu::word;
use crate::cpu::alu::write_u16;
use crate::cpu::clock::Clock;
use crate::cpu::handlers::arithmetic;
use crate::cpu::handlers::arithmetic_16;
use crate::cpu::handlers::bitwise;
use crate::cpu::handlers::jumps;
use crate::cpu::handlers::loads;
use crate::cpu::handlers::loads_16;
use crate::cpu::handlers::arithmetic::flag_entry;
use crate::cpu::machine::lemma_in_step_kept;
use crate::cpu::machine::Machine;
use crate::cpu::reg_file::Flag;
use crate::cpu::reg_file::RegFile;
use crate::error::GBError;
use crate::mem::map::MemoryMap;

verus! {

/// All that an instruction works on: the registers, the memory map, the clock and the
/// interrupt latch.
pub struct CpuContext {
    pub registers: RegFile,
    pub memory: MemoryMap,
    pub clock: Clock,
    /// The interrupt-master-enable latch.
    pub ime: bool,
    /// Whether an `EI` waits for the next instruction to set the latch.
    pub ime_pending: bool,
}

impl View for CpuContext {
    type V = Machine;

    open spec fn view(&self) -> Machine {
        Machine {
            regs: self.registers,
            cells: self.memory@,
            external_ram: self.memory.has_eram,
            t_cycles: self.clock.t_cycles as int,
            ime: self.ime,
            ime_pending: self.ime_pending,
        }
    }
}

impl CpuContext {
    /// Whether the 64-bit cycle count can take `n` more machine cycles.
    pub open spec fn has_cycles(&self, n: int) -> bool {
        self.clock.t_cycles + 4 * n <= u64::MAX
    }

    /// Puts the three parts together, with interrupts disabled.
    pub fn init(registers: RegFile, memory: MemoryMap, clock: Clock) -> (context: Self)
        ensures
            context.registers == registers,
            context.memory == memory,
            context.clock == clock,
            !context.ime,
            !context.ime_pending,
    {
        Self { registers, memory, clock, ime: false, ime_pending: false }
    }

    /// An internal machine cycle, with no bus access.
    pub fn tick(&mut self)
        requires
            old(self).has_cycles(1),
        ensures
            final(self)@ == old(self)@.tick(),
    {
        self.clock.tick(&mut self.memory.io);
        assert(self.memory@ =~= old(self)@.tick().cells);
    }

    /// Reads a byte over the bus.
    pub fn read(&mut self, addr: u16) -> (r: Result<u8, GBError>)
        requires
            old(self).has_cycles(1),
        ensures
            (final(self)@, r) == old(self)@.read(addr),
    {
        self.memory.read(&mut self.clock, addr)
    }

    /// Writes a byte over the bus.
    pub fn write(&mut self, addr: u16, byte: u8) -> (r: Result<(), GBError>)
        requires
            old(self).has_cycles(1),
        ensures
            (final(self)@, r) == old(self)@.write(addr, byte),
    {
        self.memory.write(&mut self.clock, addr, byte)
    }

    /// Reads the byte at `PC` and moves `PC` past it.
    pub fn fetch(&mut self) -> (r: Result<u8, GBError>)
        requires
            old(self).has_cycles(1),
        ensures
            (final(self)@, r) == old(self)@.fetch(),
    {
        let byte: u8 = self.read(self.registers.pc)?;
        self.registers.pc = self.registers.pc.wrapping_add(1);
        Ok(byte)
    }

    /// Fetches a word, its lower byte first.
    pub fn fetch_word(&mut self) -> (r: Result<u16, GBError>)
        requires
            old(self).has_cycles(2),
        ensures
            (final(self)@, r) == old(self)@.fetch_word(),
    {
        let lo: u8 = self.fetch()?;
        let hi: u8 = self.fetch()?;
        Ok(read_u16(&lo, &hi))
    }

    /// Pushes a word onto the stack, its upper byte first.
    pub fn push_word(&mut self, value: u16) -> (r: Result<(), GBError>)
        requires
            old(self).has_cycles(2),
        ensures
            (final(self)@, r) == old(self)@.push_word(value),
    {
        let mut lo: u8 = 0;
        let mut hi: u8 = 0;
        write_u16(&mut lo, &mut hi, value);
        self.registers.sp = self.registers.sp.wrapping_sub(1);
        self.write(self.registers.sp, hi)?;
        self.registers.sp = self.registers.sp.wrapping_sub(1);
        self.write(self.registers.sp, lo)
    }

    /// Pops a word off the stack, its lower byte first.
    pub fn pop_word(&mut self) -> (r: Result<u16, GBError>)
        requires
            old(self).has_cycles(2),
        ensures
            (final(self)@, r) == old(self)@.pop_word(),
    {
        let lo: u8 = self.read(self.registers.sp)?;
        self.registers.sp = self.registers.sp.wrapping_add(1);
        let hi: u8 = self.read(self.registers.sp)?;
        self.registers.sp = self.registers.sp.wrapping_add(1);
        Ok(read_u16(&lo, &hi))
    }

    /// `RLCA`, `RLA`, `RRCA` or `RRA`: rotates `A`.
    fn rotate_a(&mut self, opcode: u8) -> (r: Result<(), GBError>)
        ensures
            (final(self)@, r) == rotate_a_spec(old(self)@, opcode),
    {
        let through_carry: bool = read_bits(opcode, 4, 1) == 1;
        let carry_in: bool = self.registers.read_flag(Flag::Carry);
        let (a, carry) = if read_bits(opcode, 3, 1) == 0 {
            rotate_left(self.registers.a, carry_in, through_carry)
        } else {
            rotate_right(self.registers.a, carry_in, through_carry)
        };
        self.registers.a = a;
        self.registers.set_all_flags(&[0, 0, 0, flag_entry(carry)])?;
        Ok(())
    }

    /// `LDH [n8],A`, `LDH A,[n8]`, `LDH [C],A` or `LDH A,[C]`: moves `A` to or from the
    /// last page of the address space.
    fn load_high(&mut self, opcode: u8) -> (r: Result<(), GBError>)
        requires
            old(self).has_cycles(2),
        ensures
            (final(self)@, r) == load_high_spec(old(self)@, opcode),
    {
        let offset: u8 = if read_bits(opcode, 1, 1) == 1 {
            self.registers.c
        } else {
            self.fetch()?
        };
        let addr: u16 = 0xFF00 + offset as u16;
        if read_bits(opcode, 4, 1) == 1 {
            self.registers.a = self.read(addr)?;
        } else {
            self.write(addr, self.registers.a)?;
        }
        Ok(())
    }

    /// Executes the instruction of the `0xCB` block whose second byte is at `PC`.
    pub fn prefixed_instr(&mut self) -> (r: Result<(), GBError>)
        requires
            old(self).has_cycles(3),
        ensures
            (final(self)@, r) == prefixed_instr_spec(old(self)@),
    {
        let opcode: u8 = self.fetch()?;
        match opcode {
            0x00..=0x1F => bitwise::rotate_to_carry(opcode, self),
            0x20..=0x2F | 0x38..=0x3F => bitwise::shift_to_carry(opcode, self),
            0x30..=0x37 => bitwise::swap(opcode, self),
            0x40..=0x7F => bitwise::test_bit(opcode, self),
            0x80..=0xBF => bitwise::reset_bit(opcode, self),
            0xC0..=0xFF => bitwise::set_bit(opcode, self),
        }
    }

    /// Executes an instruction of the first quarter of the opcode table.
    fn execute_low(&mut self, opcode: u8) -> (r: Result<(), GBError>)
        requires
            old(self).has_cycles(5),
            opcode < 0x40,
        ensures
            (final(self)@, r) == execute_low_spec(old(self)@, opcode),
    {
        match opcode {
            0x20 | 0x30 | 0x28 | 0x38 | 0x18 => jumps::jmp(self, opcode, true),
            0x08 => loads_16::ld_n16_sp(self),
            0x06 | 0x16 | 0x26 | 0x36 | 0x0E | 0x1E | 0x2E | 0x3E => loads::load8(self, opcode),
            0x01 | 0x11 | 0x21 | 0x31 => loads_16::load_r16_imm16(self, opcode),
            0x02 | 0x12 | 0x22 | 0x32 => loads_16::load_r16mem_a(opcode, self),
            0x0A | 0x1A | 0x2A | 0x3A => loads_16::load_a_r16mem(opcode, self),
            0x03 | 0x13 | 0x23 | 0x33 => arithmetic_16::inc_r16(opcode, self, 1),
            0x0B | 0x1B | 0x2B | 0x3B => arithmetic_16::inc_r16(opcode, self, -1),
            0x09 | 0x19 | 0x29 | 0x39 => arithmetic_16::add_hl(opcode, self),
            0x04 | 0x14 | 0x24 | 0x34 | 0x0C | 0x1C | 0x2C | 0x3C => arithmetic::inc_r8(
                opcode,
                self,
                1,
            ),
            0x05 | 0x15 | 0x25 | 0x35 | 0x0D | 0x1D | 0x2D | 0x3D => arithmetic::inc_r8(
                opcode,
                self,
                -1,
            ),
            0x27 => arithmetic::daa(self),
            0x07 | 0x17 | 0x0F | 0x1F => self.rotate_a(opcode),
            _ => Ok(()),
        }
    }

    /// Executes one of the eight operations of the ALU on `A` and an 8-bit operand.
    fn execute_alu(&mut self, opcode: u8) -> (r: Result<(), GBError>)
        requires
            old(self).has_cycles(5),
        ensures
            (final(self)@, r) == alu_spec(old(self)@, opcode),
    {
        match read_bits(opcode, 3, 3) {
            0 | 1 => arithmetic::add(opcode, self),
            2 | 3 => arithmetic::sub(opcode, self),
            4 => arithmetic::and(opcode, self),
            5 => arithmetic::xor(opcode, self),
            6 => arithmetic::or(opcode, self),
            _ => arithmetic::cp(opcode, self),
        }
    }

    /// Executes an instruction of the last quarter of the opcode table.
    fn execute_high(&mut self, opcode: u8) -> (r: Result<(), GBError>)
        requires
            old(self).has_cycles(5),
            opcode >= 0xC0,
        ensures
            (final(self)@, r) == execute_high_spec(old(self)@, opcode),
    {
        match opcode {
            0xF3 => {
                self.ime = false;
                self.ime_pending = false;
                Ok(())
            },
            0xFB => {
                self.ime_pending = true;
                Ok(())
            },
            0xC2 | 0xD2 | 0xCA | 0xDA | 0xC3 => jumps::jmp(self, opcode, false),
            0xC4 | 0xD4 | 0xCC | 0xDC | 0xCD => jumps::call(self, opcode),
            0xD9 | 0xC9 | 0xD8 | 0xC8 | 0xD0 | 0xC0 => jumps::ret(self, opcode),
            0xC7 | 0xD7 | 0xE7 | 0xF7 | 0xCF | 0xDF | 0xEF | 0xFF => jumps::rst(self, opcode),
            0xE9 => {
                self.registers.pc = read_u16(&self.registers.l, &self.registers.h);
                Ok(())
            },
            0xF8 => loads_16::ld_hl_sp_delta(self),
            0xF9 => {
                self.registers.sp = read_u16(&self.registers.l, &self.registers.h);
                self.tick();
                Ok(())
            },
            0xE0 | 0xF0 | 0xE2 | 0xF2 => self.load_high(opcode),
            0xEA => loads_16::ld_n16_a(self),
            0xFA => loads_16::ld_a_n16(self),
            0xC6 | 0xCE | 0xD6 | 0xDE | 0xE6 | 0xEE | 0xF6 | 0xFE => self.execute_alu(opcode),
            0xC1 | 0xD1 | 0xE1 | 0xF1 => loads_16::pop(opcode, self),
            0xC5 | 0xD5 | 0xE5 | 0xF5 => loads_16::push(opcode, self),
            0xE8 => arithmetic_16::add_sp_delta(self),
            0xCB => self.prefixed_instr(),
            _ => Err(GBError::IllegalInstruction(opcode)),
        }
    }

    /// Executes the instruction with the given opcode, which has just been fetched.
    pub fn execute(&mut self, opcode: u8) -> (r: Result<(), GBError>)
        requires
            old(self).has_cycles(5),
        ensures
            (final(self)@, r) == execute_spec(old(self)@, opcode),
    {
        match opcode {
            0x00..=0x3F => self.execute_low(opcode),
            0x76 => Ok(()),
            0x40..=0x7F => loads::load8(self, opcode),
            0x80..=0xBF => self.execute_alu(opcode),
            0xC0..=0xFF => self.execute_high(opcode),
        }
    }

    /// Runs the machine until an instruction fails, and returns its error. Only when the
    /// 64-bit cycle count has no room left for another instruction does the run end
    /// without one.
    pub fn start_exec_cycle(&mut self) -> (r: Result<(), GBError>)
        ensures
            (final(self)@, r) == run_spec(old(self)@),
    {
        while self.clock.t_cycles <= u64::MAX - 4 * STEP_CYCLES
            invariant
                run_spec(self@) == run_spec(old(self)@),
            decreases u64::MAX - self.clock.t_cycles,
        {
            proof {
                lemma_step_cycles(self@);
            }
            self.step()?;
        }
        Ok(())
    }

    /// One instruction: an `EI` of the instruction before takes effect, the opcode at `PC`
    /// is fetched, and the instruction is executed.
    pub fn step(&mut self) -> (r: Result<(), GBError>)
        requires
            old(self).has_cycles(6),
        ensures
            (final(self)@, r) == step_spec(old(self)@),
    {
        if self.ime_pending {
            self.ime = true;
            self.ime_pending = false;
        }
        let opcode: u8 = self.fetch()?;
        self.execute(opcode)
    }
}

/// The opcodes that the SM83 leaves undefined.
pub open spec fn is_illegal(opcode: u8) -> bool {
    opcode == 0xD3 || opcode == 0xDB || opcode == 0xDD || opcode == 0xE3 || opcode == 0xE4
        || opcode == 0xEB || opcode == 0xEC || opcode == 0xED || opcode == 0xF4 || opcode == 0xFC
        || opcode == 0xFD
}

/// `RLCA` (`0x07`), `RLA` (`0x17`), `RRCA` (`0x0F`) and `RRA` (`0x1F`): `A` is rotated, to
/// the right where bit 3 of the opcode is set and through the carry where bit 4 is. `Z`,
/// `N` and `H` are cleared.
pub open spec fn rotate_a_spec(m: Machine, opcode: u8) -> (Machine, Result<(), GBError>) {
    let (a, carry) = if bit_at(opcode, 3) {
        rotated_right(m.regs.a, m.regs.flag(Flag::Carry), bit_at(opcode, 4))
    } else {
        rotated_left(m.regs.a, m.regs.flag(Flag::Carry), bit_at(opcode, 4))
    };
    (m.with_regs(RegFile { a, ..m.regs.with_flags(false, false, false, carry) }), Ok(()))
}

/// `LDH [n8],A` (`0xE0`), `LDH A,[n8]` (`0xF0`), `LDH [C],A` (`0xE2`) and `LDH A,[C]`
/// (`0xF2`): the address is `0xFF00` plus the byte after the opcode or, where bit 1 of the
/// opcode is set, plus `C`. With bit 4 set `A` is loaded, and else stored.
pub open spec fn load_high_spec(m: Machine, opcode: u8) -> (Machine, Result<(), GBError>) {
    let (m1, offset) = if bit_at(opcode, 1) {
        (m, Ok::<u8, GBError>(m.regs.c))
    } else {
        m.fetch()
    };
    match offset {
        Err(e) => (m1, Err(e)),
        Ok(offset) => {
            let addr = (0xFF00 + offset) as u16;
            if bit_at(opcode, 4) {
                let (m2, value) = m1.read(addr);
                match value {
                    Err(e) => (m2, Err(e)),
                    Ok(value) => (m2.with_regs(RegFile { a: value, ..m2.regs }), Ok(())),
                }
            } else {
                m1.write(addr, m1.regs.a)
            }
        },
    }
}

/// The `0xCB` block: the byte after the prefix is fetched, and its top bits pick the
/// operation.
pub open spec fn prefixed_instr_spec(m: Machine) -> (Machine, Result<(), GBError>) {
    let (m1, opcode) = m.fetch();
    match opcode {
        Err(e) => (m1, Err(e)),
        Ok(opcode) => if opcode < 0x20 {
            bitwise::rotate_to_carry_spec(m1, opcode)
        } else if 0x30 <= opcode < 0x38 {
            bitwise::swap_spec(m1, opcode)
        } else if opcode < 0x40 {
            bitwise::shift_to_carry_spec(m1, opcode)
        } else if opcode < 0x80 {
            bitwise::test_bit_spec(m1, opcode)
        } else if opcode < 0xC0 {
            bitwise::reset_bit_spec(m1, opcode)
        } else {
            bitwise::set_bit_spec(m1, opcode)
        },
    }
}

/// The first quarter of the opcode table, `0x00..=0x3F`, where the low bits of the opcode
/// pick the operation and the bits above them the operand.
pub open spec fn execute_low_spec(m: Machine, opcode: u8) -> (Machine, Result<(), GBError>) {
    let column = opcode % 8;
    let wide = opcode % 16;
    if opcode == 0x08 {
        loads_16::ld_n16_sp_spec(m)
    } else if opcode == 0x18 || (opcode >= 0x20 && column == 0) {
        jumps::jmp_spec(m, opcode, true)
    } else if wide == 0x1 {
        loads_16::load_r16_imm16_spec(m, opcode)
    } else if wide == 0x2 {
        loads_16::load_r16mem_a_spec(m, opcode)
    } else if wide == 0x3 {
        arithmetic_16::inc_r16_spec(m, opcode, 1)
    } else if wide == 0x9 {
        arithmetic_16::add_hl_spec(m, opcode)
    } else if wide == 0xA {
        loads_16::load_a_r16mem_spec(m, opcode)
    } else if wide == 0xB {
        arithmetic_16::inc_r16_spec(m, opcode, -1i8)
    } else if column == 4 {
        arithmetic::inc_r8_spec(m, opcode, 1)
    } else if column == 5 {
        arithmetic::inc_r8_spec(m, opcode, -1i8)
    } else if column == 6 {
        loads::load8_spec(m, opcode)
    } else if opcode < 0x20 && column == 7 {
        rotate_a_spec(m, opcode)
    } else if opcode == 0x27 {
        arithmetic::daa_spec(m)
    } else {
        (m, Ok(()))
    }
}

/// The last quarter of the opcode table, `0xC0..=0xFF`.
pub open spec fn execute_high_spec(m: Machine, opcode: u8) -> (Machine, Result<(), GBError>) {
    let column = opcode % 8;
    let wide = opcode % 16;
    if is_illegal(opcode) {
        (m, Err(GBError::IllegalInstruction(opcode)))
    } else if opcode == 0xCB {
        prefixed_instr_spec(m)
    } else if opcode == 0xF3 {
        (m.with_latch(false, false), Ok(()))
    } else if opcode == 0xFB {
        (m.with_latch(m.ime, true), Ok(()))
    } else if opcode == 0xE9 {
        (jumps::at(m, word(m.regs.l, m.regs.h)), Ok(()))
    } else if opcode == 0xF9 {
        (m.with_regs(RegFile { sp: word(m.regs.l, m.regs.h), ..m.regs }).tick(), Ok(()))
    } else if opcode == 0xE8 {
        arithmetic_16::add_sp_delta_spec(m)
    } else if opcode == 0xF8 {
        loads_16::ld_hl_sp_delta_spec(m)
    } else if opcode == 0xEA {
        loads_16::ld_n16_a_spec(m)
    } else if opcode == 0xFA {
        loads_16::ld_a_n16_spec(m)
    } else if opcode == 0xE0 || opcode == 0xF0 || opcode == 0xE2 || opcode == 0xF2 {
        load_high_spec(m, opcode)
    } else if opcode == 0xC9 || opcode == 0xD9 || (opcode < 0xE0 && column == 0) {
        jumps::ret_spec(m, opcode)
    } else if opcode == 0xC3 || (opcode < 0xE0 && column == 2) {
        jumps::jmp_spec(m, opcode, false)
    } else if opcode == 0xCD || (opcode < 0xE0 && column == 4) {
        jumps::call_spec(m, opcode)
    } else if wide == 0x1 {
        loads_16::pop_spec(m, opcode)
    } else if wide == 0x5 {
        loads_16::push_spec(m, opcode)
    } else if column == 7 {
        jumps::rst_spec(m, opcode)
    } else {
        alu_spec(m, opcode)
    }
}

/// The eight operations of the ALU on `A` and an 8-bit operand; bits 3 to 5 of the opcode
/// pick the operation.
pub open spec fn alu_spec(m: Machine, opcode: u8) -> (Machine, Result<(), GBError>) {
    let operation = (opcode / 8) % 8;
    if operation < 2 {
        arithmetic::add_spec(m, opcode)
    } else if operation < 4 {
        arithmetic::sub_spec(m, opcode)
    } else if operation == 4 {
        arithmetic::and_spec(m, opcode)
    } else if operation == 5 {
        arithmetic::xor_spec(m, opcode)
    } else if operation == 6 {
        arithmetic::or_spec(m, opcode)
    } else {
        arithmetic::cp_spec(m, opcode)
    }
}

/// What the instruction with the given opcode does. An opcode that the table does not
/// hold does nothing (`STOP`, `HALT`, `CPL`, `SCF` and `CCF`); an undefined one fails with
/// `IllegalInstruction`.
pub open spec fn execute_spec(m: Machine, opcode: u8) -> (Machine, Result<(), GBError>) {
    if opcode < 0x40 {
        execute_low_spec(m, opcode)
    } else if opcode < 0x80 {
        if opcode == 0x76 {
            (m, Ok(()))
        } else {
            loads::load8_spec(m, opcode)
        }
    } else if opcode < 0xC0 {
        alu_spec(m, opcode)
    } else {
        execute_high_spec(m, opcode)
    }
}

/// One instruction: an `EI` of the instruction before takes effect, the opcode at `PC` is
/// fetched, and the instruction is executed.
pub open spec fn step_spec(m: Machine) -> (Machine, Result<(), GBError>) {
    let (m1, opcode) = m.latched().fetch();
    match opcode {
        Err(e) => (m1, Err(e)),
        Ok(opcode) => execute_spec(m1, opcode),
    }
}

/// The most machine cycles that one instruction takes, its fetch included.
pub const STEP_CYCLES: u64 = 6;

/// Once its opcode is fetched no instruction takes more than five machine cycles.
pub proof fn lemma_execute_cycles(m: Machine, opcode: u8)
    ensures
        m.within(execute_spec(m, opcode).0, 5),
{
    arithmetic::lemma_arithmetic_cycles(m, opcode, 1);
    arithmetic::lemma_arithmetic_cycles(m, opcode, -1i8);
    arithmetic_16::lemma_arithmetic_16_cycles(m, opcode, 1);
    arithmetic_16::lemma_arithmetic_16_cycles(m, opcode, -1i8);
    jumps::lemma_jumps_cycles(m, opcode, true);
    jumps::lemma_jumps_cycles(m, opcode, false);
    loads::lemma_loads_cycles(m, opcode);
    loads_16::lemma_loads_16_cycles(m, opcode);
    if opcode == 0xCB {
        let (m1, second) = m.fetch();
        if second is Ok {
            bitwise::lemma_bitwise_cycles(m1, second->Ok_0);
        }
    }
}

/// Every instruction takes at least one machine cycle, for the fetch of its opcode, and no
/// more than [`STEP_CYCLES`]: the clock never stands still and never runs backwards.
pub proof fn lemma_step_cycles(m: Machine)
    ensures
        m.t_cycles + 4 <= step_spec(m).0.t_cycles <= m.t_cycles + 4 * STEP_CYCLES,
{
    let (m1, opcode) = m.latched().fetch();
    if opcode is Ok {
        lemma_execute_cycles(m1, opcode->Ok_0);
    }
}

/// Running the machine: one instruction after the other until one fails, or until the
/// 64-bit cycle count has no room left for another instruction.
pub open spec fn run_spec(m: Machine) -> (Machine, Result<(), GBError>)
    decreases u64::MAX - m.t_cycles,
{
    if m.t_cycles + 4 * STEP_CYCLES > u64::MAX {
        (m, Ok(()))
    } else {
        let (m1, r) = step_spec(m);
        match r {
            Err(e) => (m1, Err(e)),
            Ok(_) => {
                proof {
                    lemma_step_cycles(m);
                }
                run_spec(m1)
            },
        }
    }
}

proof fn lemma_execute_own_steady(m: Machine, opcode: u8)
    requires
        m.steady(),
    ensures
        rotate_a_spec(m, opcode).0.steady(),
        load_high_spec(m, opcode).0.steady(),
{
    lemma_in_step_kept();
}

proof fn lemma_prefixed_steady(m: Machine)
    requires
        m.steady(),
    ensures
        prefixed_instr_spec(m).0.steady(),
{
    lemma_in_step_kept();
    let (m1, second) = m.fetch();
    if second is Ok {
        bitwise::lemma_bitwise_steady(m1, second->Ok_0);
    }
}

/// No instruction puts `LY` out of step with the clock or leaves a bit in the low nibble
/// of `F`.
pub proof fn lemma_execute_steady(m: Machine, opcode: u8)
    requires
        m.steady(),
    ensures
        execute_spec(m, opcode).0.steady(),
{
    arithmetic::lemma_arithmetic_steady(m, opcode, 1);
    arithmetic::lemma_arithmetic_steady(m, opcode, -1i8);
    arithmetic_16::lemma_arithmetic_16_steady(m, opcode, 1);
    arithmetic_16::lemma_arithmetic_16_steady(m, opcode, -1i8);
    jumps::lemma_jumps_steady(m, opcode, true);
    jumps::lemma_jumps_steady(m, opcode, false);
    loads::lemma_loads_steady(m, opcode);
    loads_16::lemma_loads_16_steady(m, opcode);
    lemma_execute_own_steady(m, opcode);
    lemma_prefixed_steady(m);
    lemma_in_step_kept();
}

/// A step takes a steady machine to a steady one: after every instruction, whether it has
/// failed or not, `LY` is in step with the clock and the low nibble of `F` is zero.
pub proof fn lemma_step_steady(m: Machine)
    requires
        m.steady(),
    ensures
        step_spec(m).0.steady(),
{
    lemma_in_step_kept();
    let (m1, opcode) = m.latched().fetch();
    if opcode is Ok {
        lemma_execute_steady(m1, opcode->Ok_0);
    }
}

/// A run takes a steady machine to a steady one.
pub proof fn lemma_run_steady(m: Machine)
    requires
        m.steady(),
    ensures
        run_spec(m).0.steady(),
    decreases u64::MAX - m.t_cycles,
{
    if m.t_cycles + 4 * STEP_CYCLES <= u64::MAX {
        let (m1, r) = step_spec(m);
        lemma_step_steady(m);
        lemma_step_cycles(m);
        if r is Ok {
            lemma_run_steady(m1);
        }
    }
}

} // verus!

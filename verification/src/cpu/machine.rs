//! The machine as the contracts speak of it: a value that holds the registers, the memory
//! image, the cycle count and the interrupt latch, with the bus and the stack as functions
//! from one such value to the next.

use vstd::prelude::*;
use crate::cpu::alu::with_bit;
use crate::cpu::alu::word;
use crate::cpu::alu::wrap16;
use crate::cpu::reg_file::RegFile;
use crate::error::GBError;
use crate::mem::map::IF_ADDR;
use crate::mem::map::LY_ADDR;
use crate::mem::map::read_fault;
use crate::mem::map::stored;
use crate::mem::map::ticked;
use crate::mem::map::write_fault;
use crate::ppu::ppu::FRAME_CYCLES;
use crate::ppu::ppu::lemma_tick_follows_clock;
use crate::ppu::ppu::line_at;
use crate::ppu::ppu::VBLANK_CYCLES;

verus! {

/// The state of the machine as the contracts of the core speak of it: the registers, the
/// memory image, the cycle count and the interrupt latch.
#[verifier::ext_equal]
pub struct Machine {
    /// The register file.
    pub regs: RegFile,
    /// For each of the 65,536 addresses the byte that it holds.
    pub cells: Seq<u8>,
    /// Whether the cartridge has RAM at `0xA000..=0xBFFF`.
    pub external_ram: bool,
    /// The T-cycles since power-on.
    pub t_cycles: int,
    /// The interrupt-master-enable latch.
    pub ime: bool,
    /// Whether an `EI` waits for the next instruction to set the latch.
    pub ime_pending: bool,
}

impl Machine {
    /// One machine cycle: four T-cycles pass and the picture unit follows.
    pub open spec fn tick(self) -> Machine {
        Machine { t_cycles: self.t_cycles + 4, cells: ticked(self.t_cycles + 4, self.cells), ..self }
    }

    /// Whether the scanline register is in step with the clock: the memory image is whole,
    /// the cycle count is a multiple of four, and `LY` holds the scanline that the count
    /// has reached.
    #[verifier::opaque]
    pub open spec fn in_step(self) -> bool {
        &&& self.cells.len() == 0x10000
        &&& self.t_cycles >= 0
        &&& self.t_cycles % 4 == 0
        &&& self.cells[LY_ADDR as int] == line_at(self.t_cycles)
    }

    /// What holds of every state that a run of the machine reaches: `LY` is in step with
    /// the clock, and the low nibble of `F` is zero.
    pub open spec fn steady(self) -> bool {
        self.in_step() && self.regs.f % 16 == 0
    }

    /// The machine with the interrupt latch as given, and with or without an `EI` that
    /// waits.
    pub open spec fn with_latch(self, ime: bool, ime_pending: bool) -> Machine {
        Machine { ime, ime_pending, ..self }
    }

    /// The machine once a waiting `EI` has set the interrupt latch.
    pub open spec fn latched(self) -> Machine {
        if self.ime_pending {
            self.with_latch(true, false)
        } else {
            self
        }
    }

    /// Whether going from this state to `after` took no more than `cycles` machine cycles,
    /// and no less than none.
    pub open spec fn within(self, after: Machine, cycles: int) -> bool {
        self.t_cycles <= after.t_cycles <= self.t_cycles + 4 * cycles
    }

    /// The machine with other registers.
    pub open spec fn with_regs(self, regs: RegFile) -> Machine {
        Machine { regs, ..self }
    }

    /// A bus read: one tick, then the byte at `addr` or the fault that the address meets.
    pub open spec fn read(self, addr: u16) -> (Machine, Result<u8, GBError>) {
        let m = self.tick();
        match read_fault(self.external_ram, addr) {
            Some(e) => (m, Err(e)),
            None => (m, Ok(m.cells[addr as int])),
        }
    }

    /// A bus write: one tick, then the store or the fault that the address meets.
    pub open spec fn write(self, addr: u16, byte: u8) -> (Machine, Result<(), GBError>) {
        let m = self.tick();
        match write_fault(self.external_ram, addr) {
            Some(e) => (m, Err(e)),
            None => (Machine { cells: stored(m.cells, addr, byte), ..m }, Ok(())),
        }
    }

    /// Reads the byte at `PC` and moves `PC` past it. `PC` stays where a read fails.
    pub open spec fn fetch(self) -> (Machine, Result<u8, GBError>) {
        let (m, r) = self.read(self.regs.pc);
        match r {
            Err(e) => (m, Err(e)),
            Ok(byte) => (m.with_regs(RegFile { pc: wrap16(m.regs.pc + 1), ..m.regs }), Ok(byte)),
        }
    }

    /// Fetches a word, its lower byte first.
    pub open spec fn fetch_word(self) -> (Machine, Result<u16, GBError>) {
        let (m1, lo) = self.fetch();
        match lo {
            Err(e) => (m1, Err(e)),
            Ok(lo) => {
                let (m2, hi) = m1.fetch();
                match hi {
                    Err(e) => (m2, Err(e)),
                    Ok(hi) => (m2, Ok(word(lo, hi))),
                }
            },
        }
    }

    /// Pushes a word: `SP` goes down by one before each of the two writes, and the upper
    /// byte is written first.
    pub open spec fn push_word(self, value: u16) -> (Machine, Result<(), GBError>) {
        let sp1 = wrap16(self.regs.sp - 1);
        let (m1, r1) = self.with_regs(RegFile { sp: sp1, ..self.regs }).write(sp1, (value / 256) as u8);
        match r1 {
            Err(e) => (m1, Err(e)),
            Ok(_) => {
                let sp2 = wrap16(sp1 - 1);
                m1.with_regs(RegFile { sp: sp2, ..m1.regs }).write(sp2, (value % 256) as u8)
            },
        }
    }

    /// Pops a word: the lower byte is read first, and `SP` goes up by one after each of the
    /// two reads.
    pub open spec fn pop_word(self) -> (Machine, Result<u16, GBError>) {
        let (m1, lo) = self.read(self.regs.sp);
        match lo {
            Err(e) => (m1, Err(e)),
            Ok(lo) => {
                let sp1 = wrap16(m1.regs.sp + 1);
                let (m2, hi) = m1.with_regs(RegFile { sp: sp1, ..m1.regs }).read(sp1);
                match hi {
                    Err(e) => (m2, Err(e)),
                    Ok(hi) => (m2.with_regs(RegFile { sp: wrap16(sp1 + 1), ..m2.regs }), Ok(word(lo, hi))),
                }
            },
        }
    }
}

/// Each bus access takes exactly four T-cycles, whether it succeeds or not, and so does an
/// internal machine cycle. A word goes over the bus as two bytes and takes eight.
pub proof fn lemma_access_cycles(m: Machine, addr: u16, byte: u8, value: u16)
    ensures
        m.tick().t_cycles == m.t_cycles + 4,
        m.read(addr).0.t_cycles == m.t_cycles + 4,
        m.write(addr, byte).0.t_cycles == m.t_cycles + 4,
        m.fetch().0.t_cycles == m.t_cycles + 4,
        m.fetch_word().1 is Ok ==> m.fetch_word().0.t_cycles == m.t_cycles + 8,
        m.push_word(value).1 is Ok ==> m.push_word(value).0.t_cycles == m.t_cycles + 8,
        m.pop_word().1 is Ok ==> m.pop_word().0.t_cycles == m.t_cycles + 8,
{
}

/// A tick of a machine whose `LY` is in step with the clock leaves it in step, and raises
/// the vertical-blank request in `IF` exactly when it brings the clock to 65,664 T-cycles
/// into a frame of 70,224.
pub proof fn lemma_tick_in_step(m: Machine)
    requires
        m.in_step(),
    ensures
        m.tick().in_step(),
        m.tick().cells[LY_ADDR as int] == line_at(m.t_cycles + 4),
        m.tick().cells[IF_ADDR as int] == if (m.t_cycles + 4) % (FRAME_CYCLES as int)
            == VBLANK_CYCLES {
            with_bit(m.cells[IF_ADDR as int], 0, true)
        } else {
            m.cells[IF_ADDR as int]
        },
{
    reveal(Machine::in_step);
    lemma_tick_follows_clock(m.t_cycles, m.cells[LY_ADDR as int], m.cells[IF_ADDR as int]);
}

/// Nothing that an instruction is made of puts `LY` out of step with the clock: not a
/// tick, not a bus access (a write to `LY` is dropped), and not a change of registers.
pub proof fn lemma_in_step_kept()
    ensures
        forall|m: Machine| m.in_step() ==> (#[trigger] m.tick()).in_step(),
        forall|m: Machine, regs: RegFile| m.in_step() ==> (#[trigger] m.with_regs(regs)).in_step(),
        forall|m: Machine, ime: bool, ime_pending: bool|
            m.in_step() ==> (#[trigger] m.with_latch(ime, ime_pending)).in_step(),
        forall|m: Machine, addr: u16| m.in_step() ==> (#[trigger] m.read(addr)).0.in_step(),
        forall|m: Machine, addr: u16, byte: u8|
            m.in_step() ==> (#[trigger] m.write(addr, byte)).0.in_step(),
{
    assert forall|m: Machine| m.in_step() implies (#[trigger] m.tick()).in_step() by {
        lemma_tick_in_step(m);
    }
    assert forall|m: Machine, regs: RegFile| m.in_step() implies (#[trigger] m.with_regs(
        regs,
    )).in_step() by {
        reveal(Machine::in_step);
    }
    assert forall|m: Machine, ime: bool, ime_pending: bool| m.in_step() implies (
    #[trigger] m.with_latch(ime, ime_pending)).in_step() by {
        reveal(Machine::in_step);
    }
    assert forall|m: Machine, addr: u16| m.in_step() implies (#[trigger] m.read(
        addr,
    )).0.in_step() by {
        lemma_tick_in_step(m);
    }
    assert forall|m: Machine, addr: u16, byte: u8| m.in_step() implies (#[trigger] m.write(
        addr,
        byte,
    )).0.in_step() by {
        lemma_tick_in_step(m);
        reveal(Machine::in_step);
    }
}

/// `PC` and `SP` wrap modulo 2^16: a fetch at `0xFFFF` leaves `PC` at zero, and the stack
/// runs round the ends of the address space.
pub proof fn lemma_pointers_wrap(m: Machine, value: u16)
    ensures
        m.fetch().1 is Ok ==> m.fetch().0.regs.pc == (m.regs.pc + 1) % 0x10000,
        m.push_word(value).1 is Ok ==> m.push_word(value).0.regs.sp == (m.regs.sp - 2) % 0x10000,
        m.pop_word().1 is Ok ==> m.pop_word().0.regs.sp == (m.regs.sp + 2) % 0x10000,
{
}

} // verus!

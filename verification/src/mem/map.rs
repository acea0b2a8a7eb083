//! The memory map: which region an address decodes to, and what a read and a write do there.

use vstd::prelude::*;
use crate::cpu::clock::Clock;
use crate::error::GBError;
use crate::ppu::ppu::after_tick;
use crate::rom::rom_info::ROMInfo;

verus! {

/// The address of the interrupt-request register `IF`.
pub const IF_ADDR: u16 = 0xFF0F;

/// The address of the scanline register `LY`.
pub const LY_ADDR: u16 = 0xFF44;

/// The address of the interrupt-enable register `IE`.
pub const IE_ADDR: u16 = 0xFFFF;

/// Cartridge ROM, `0x0000..=0x7FFF`: read-only.
pub open spec fn in_rom(addr: u16) -> bool {
    addr < 0x8000
}

/// External RAM, `0xA000..=0xBFFF`: there only if the cartridge has it.
pub open spec fn in_external_ram(addr: u16) -> bool {
    0xA000 <= addr < 0xC000
}

/// The part of work RAM that echo RAM mirrors, `0xC000..=0xDDFF`.
pub open spec fn in_mirrored_ram(addr: u16) -> bool {
    0xC000 <= addr < 0xDE00
}

/// Echo RAM, `0xE000..=0xFDFF`: another name for `0xC000..=0xDDFF`.
pub open spec fn in_echo_ram(addr: u16) -> bool {
    0xE000 <= addr < 0xFE00
}

/// The prohibited window, `0xFEA0..=0xFEFF`: reads as `0xFF`, and writes are dropped.
pub open spec fn in_prohibited(addr: u16) -> bool {
    0xFEA0 <= addr < 0xFF00
}

/// The error that a read of `addr` meets, if any: only external RAM that the cartridge does
/// not have decodes to no region.
pub open spec fn read_fault(external_ram: bool, addr: u16) -> Option<GBError> {
    if in_external_ram(addr) && !external_ram {
        Some(GBError::BadAddress(addr))
    } else {
        None
    }
}

/// The error that a write to `addr` meets, if any.
pub open spec fn write_fault(external_ram: bool, addr: u16) -> Option<GBError> {
    if in_rom(addr) {
        Some(GBError::ReadOnlyAddress(addr))
    } else if in_external_ram(addr) && !external_ram {
        Some(GBError::BadAddress(addr))
    } else {
        None
    }
}

/// Whether `addr` holds what was last written to it until the next write: it is RAM or a
/// register that a write reaches and that the clock leaves alone.
pub open spec fn keeps_writes(external_ram: bool, addr: u16) -> bool {
    write_fault(external_ram, addr) is None && !in_prohibited(addr) && addr != LY_ADDR && addr
        != IF_ADDR
}

/// The memory image after a write of `byte` to `addr` that meets no fault. The prohibited window and
/// `LY` keep what they hold; work RAM and its echo change together.
pub open spec fn stored(cells: Seq<u8>, addr: u16, byte: u8) -> Seq<u8> {
    if in_prohibited(addr) || addr == LY_ADDR {
        cells
    } else if in_mirrored_ram(addr) {
        cells.update(addr as int, byte).update(addr + 0x2000, byte)
    } else if in_echo_ram(addr) {
        cells.update(addr as int, byte).update(addr - 0x2000, byte)
    } else {
        cells.update(addr as int, byte)
    }
}

/// The memory image after a tick that brings the clock to `t_cycles`: the picture unit has
/// looked after `LY` and `IF`.
pub open spec fn ticked(t_cycles: int, cells: Seq<u8>) -> Seq<u8> {
    let (line, requests) = after_tick(t_cycles, cells[LY_ADDR as int], cells[IF_ADDR as int]);
    cells.update(LY_ADDR as int, line).update(IF_ADDR as int, requests)
}

/// Everything that the 16-bit address space decodes to.
pub struct MemoryMap {
    /// The cartridge image; it lies at `0x0000..=0x7FFF`.
    pub rom: Vec<u8>,
    /// Video RAM, at `0x8000`.
    pub vram: [u8; 0x2000],
    /// Whether the cartridge has RAM.
    pub has_eram: bool,
    /// External RAM, at `0xA000`.
    pub eram: [u8; 0x2000],
    /// Work RAM, at `0xC000` and again at `0xE000`.
    pub wram: [u8; 0x2000],
    /// Object attribute memory, at `0xFE00`.
    pub oam: [u8; 0xA0],
    /// The I/O registers, at `0xFF00`.
    pub io: [u8; 0x80],
    /// High RAM, at `0xFF80`.
    pub hram: [u8; 0x7F],
    /// The interrupt-enable register, at `0xFFFF`.
    pub ie: u8,
}

impl MemoryMap {
    /// The byte that `addr` holds, as a read sees it. Past the end of the cartridge image
    /// and in the prohibited window that is `0xFF`.
    pub open spec fn peek(&self, addr: u16) -> u8 {
        if addr < 0x8000 {
            if addr < self.rom.len() {
                self.rom[addr as int]
            } else {
                0xFF
            }
        } else if addr < 0xA000 {
            self.vram[addr - 0x8000]
        } else if addr < 0xC000 {
            self.eram[addr - 0xA000]
        } else if addr < 0xE000 {
            self.wram[addr - 0xC000]
        } else if addr < 0xFE00 {
            self.wram[addr - 0xE000]
        } else if addr < 0xFEA0 {
            self.oam[addr - 0xFE00]
        } else if addr < 0xFF00 {
            0xFF
        } else if addr < 0xFF80 {
            self.io[addr - 0xFF00]
        } else if addr < 0xFFFF {
            self.hram[addr - 0xFF80]
        } else {
            self.ie
        }
    }
}

impl View for MemoryMap {
    type V = Seq<u8>;

    /// The memory image: for each of the 65,536 addresses the byte that it holds.
    open spec fn view(&self) -> Seq<u8> {
        Seq::new(0x10000, |addr: int| self.peek(addr as u16))
    }
}

impl MemoryMap {
    /// The memory image of a machine that has just been given the cartridge image `rom`:
    /// the image itself where it reaches, `0xFF` in the rest of the ROM area and in the
    /// prohibited window, and zero elsewhere.
    pub open spec fn fresh(rom: Seq<u8>) -> Seq<u8> {
        Seq::new(
            0x10000,
            |addr: int|
                if addr < 0x8000 {
                    if addr < rom.len() {
                        rom[addr]
                    } else {
                        0xFFu8
                    }
                } else if 0xFEA0 <= addr < 0xFF00 {
                    0xFFu8
                } else {
                    0u8
                },
        )
    }

    /// The memory map around the cartridge image `rom`. All RAM and every register is
    /// zero; external RAM is there if the header gives it a size.
    pub fn init_rom(rom: Vec<u8>, header_data: ROMInfo) -> (map: Self)
        ensures
            map.rom == rom,
            map.has_eram == (header_data.ram_size > 0),
            map@ == Self::fresh(rom@),
    {
        let map = MemoryMap {
            rom,
            vram: [0u8;0x2000],
            has_eram: header_data.ram_size > 0,
            eram: [0u8;0x2000],
            wram: [0u8;0x2000],
            oam: [0u8;0xA0],
            io: [0u8;0x80],
            hram: [0u8;0x7F],
            ie: 0,
        };
        assert(map@ =~= Self::fresh(rom@)) by {
            broadcast use vstd::array::group_array_axioms;

        }
        map
    }

    /// Reads the byte at `addr`. The clock ticks once before the address is decoded, so a
    /// read of `LY` or `IF` sees what that tick made of them.
    pub fn read(&mut self, clock: &mut Clock, addr: u16) -> (r: Result<u8, GBError>)
        requires
            old(clock).t_cycles + 4 <= u64::MAX,
        ensures
            final(clock).t_cycles == old(clock).t_cycles + 4,
            final(self)@ == ticked(old(clock).t_cycles + 4, old(self)@),
            final(self).has_eram == old(self).has_eram,
            match read_fault(old(self).has_eram, addr) {
                Some(e) => r == Err::<u8, GBError>(e),
                None => r == Ok::<u8, GBError>(final(self)@[addr as int]),
            },
    {
        clock.tick(&mut self.io);
        assert(self@ =~= ticked(old(clock).t_cycles + 4, old(self)@));
        let a: usize = addr as usize;
        if a < 0x8000 {
            if a < self.rom.len() {
                Ok(self.rom[a])
            } else {
                Ok(0xFF)
            }
        } else if a < 0xA000 {
            Ok(self.vram[a - 0x8000])
        } else if a < 0xC000 {
            if self.has_eram {
                Ok(self.eram[a - 0xA000])
            } else {
                Err(GBError::BadAddress(addr))
            }
        } else if a < 0xE000 {
            Ok(self.wram[a - 0xC000])
        } else if a < 0xFE00 {
            Ok(self.wram[a - 0xE000])
        } else if a < 0xFEA0 {
            Ok(self.oam[a - 0xFE00])
        } else if a < 0xFF00 {
            Ok(0xFF)
        } else if a < 0xFF80 {
            Ok(self.io[a - 0xFF00])
        } else if a < 0xFFFF {
            Ok(self.hram[a - 0xFF80])
        } else {
            Ok(self.ie)
        }
    }

    /// Writes `byte` to `addr`. The clock ticks once before the address is decoded. A write
    /// into ROM, or into external RAM that is not there, is refused and changes nothing
    /// more; a write into the prohibited window or to `LY` is dropped.
    pub fn write(&mut self, clock: &mut Clock, addr: u16, byte: u8) -> (r: Result<(), GBError>)
        requires
            old(clock).t_cycles + 4 <= u64::MAX,
        ensures
            final(clock).t_cycles == old(clock).t_cycles + 4,
            final(self).has_eram == old(self).has_eram,
            match write_fault(old(self).has_eram, addr) {
                Some(e) => r == Err::<(), GBError>(e) && final(self)@ == ticked(
                    old(clock).t_cycles + 4,
                    old(self)@,
                ),
                None => r == Ok::<(), GBError>(()) && final(self)@ == stored(
                    ticked(old(clock).t_cycles + 4, old(self)@),
                    addr,
                    byte,
                ),
            },
    {
        clock.tick(&mut self.io);
        let ghost after = self@;
        assert(after =~= ticked(old(clock).t_cycles + 4, old(self)@));
        let a: usize = addr as usize;
        if a < 0x8000 {
            return Err(GBError::ReadOnlyAddress(addr));
        } else if a < 0xA000 {
            self.vram[a - 0x8000] = byte;
        } else if a < 0xC000 {
            if self.has_eram {
                self.eram[a - 0xA000] = byte;
            } else {
                return Err(GBError::BadAddress(addr));
            }
        } else if a < 0xE000 {
            self.wram[a - 0xC000] = byte;
        } else if a < 0xFE00 {
            self.wram[a - 0xE000] = byte;
        } else if a < 0xFEA0 {
            self.oam[a - 0xFE00] = byte;
        } else if a < 0xFF00 {
        } else if a < 0xFF80 {
            if addr != LY_ADDR {
                self.io[a - 0xFF00] = byte;
            }
        } else if a < 0xFFFF {
            self.hram[a - 0xFF80] = byte;
        } else {
            self.ie = byte;
        }
        assert(self@ =~= stored(after, addr, byte));
        Ok(())
    }
}

/// What every memory image has: all 65,536 addresses, `0xFF` in the prohibited window and
/// past the end of the cartridge image, and echo RAM equal to the work RAM that it
/// mirrors.
pub proof fn lemma_memory_image(map: MemoryMap, addr: u16)
    ensures
        map@.len() == 0x10000,
        in_prohibited(addr) ==> map@[addr as int] == 0xFF,
        in_rom(addr) && addr >= map.rom@.len() ==> map@[addr as int] == 0xFF,
        in_echo_ram(addr) ==> map@[addr as int] == map@[addr - 0x2000],
{
}

/// What a write that meets no fault does to the memory image: the byte is at the address
/// and, in work RAM and its echo, at the other name of the address too; nothing else
/// changes, and a write to the prohibited window or to `LY` changes nothing at all.
pub proof fn lemma_stored(cells: Seq<u8>, addr: u16, byte: u8, other: u16)
    requires
        cells.len() == 0x10000,
    ensures
        stored(cells, addr, byte).len() == 0x10000,
        in_prohibited(addr) || addr == LY_ADDR ==> stored(cells, addr, byte) == cells,
        !in_prohibited(addr) && addr != LY_ADDR ==> stored(cells, addr, byte)[addr as int] == byte,
        in_mirrored_ram(addr) ==> stored(cells, addr, byte)[addr + 0x2000] == byte,
        in_echo_ram(addr) ==> stored(cells, addr, byte)[addr - 0x2000] == byte,
        other != addr && other != addr + 0x2000 && other != addr - 0x2000 ==> stored(
            cells,
            addr,
            byte,
        )[other as int] == cells[other as int],
{
}

} // verus!

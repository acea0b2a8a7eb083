//! The entry point: a machine is set up around a cartridge image and run.

use vstd::prelude::*;
use crate::cpu::clock::Clock;
use crate::cpu::cpu_context::CpuContext;
use crate::cpu::cpu_context::run_spec;
use crate::cpu::machine::Machine;
use crate::cpu::reg_file::Modes;
use crate::cpu::reg_file::RegFile;
use crate::error::GBError;
use crate::mem::map::MemoryMap;
use crate::rom::rom_info::ROMInfo;

verus! {

/// The machine as it stands when the boot ROM hands over to the cartridge `rom`: the
/// registers of the DMG, all RAM zero, the clock at zero and interrupts disabled.
pub open spec fn booted(rom: Seq<u8>, external_ram: bool) -> Machine {
    Machine {
        regs: RegFile::power_on(Modes::DMG),
        cells: MemoryMap::fresh(rom),
        external_ram,
        t_cycles: 0,
        ime: false,
        ime_pending: false,
    }
}

/// Sets up a DMG around the cartridge image and runs it until an instruction fails;
/// returns that failure.
pub fn init_emulation(rom: Vec<u8>, header_data: ROMInfo) -> (r: Result<(), GBError>)
    ensures
        r == run_spec(booted(rom@, header_data.ram_size > 0)).1,
{
    let registers = RegFile::new(Modes::DMG);
    let memory = MemoryMap::init_rom(rom, header_data);
    let mut context = CpuContext::init(registers, memory, Clock::default());
    context.start_exec_cycle()
}

/// The machine is steady when it starts: `LY` is zero with the clock, and the low nibble
/// of `F` is zero. With the steps keeping it so, every state of a run is steady.
pub proof fn lemma_booted_steady(rom: Seq<u8>, external_ram: bool)
    ensures
        booted(rom, external_ram).steady(),
{
    reveal(Machine::in_step);
}

} // verus!

//! A Game Boy (DMG) emulator core: the SM83 interpreter, its register file,
//! the memory-mapped bus and the clock that every bus access advances.

pub mod cpu;
pub mod emulator;
pub mod error;
pub mod mem;
pub mod ppu;
pub mod rom;

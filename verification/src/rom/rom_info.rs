//! What the core needs to know of a cartridge.

use vstd::prelude::*;

verus! {

/// What the header of a cartridge image says of the cartridge.
pub struct ROMInfo {
    /// The title, as the bytes of the header give it.
    pub title: Vec<u8>,
    /// The code of the cartridge's controller; 0 is a plain ROM.
    pub cartridge_type: u8,
    /// The size of the ROM in bytes.
    pub rom_size: u32,
    /// The size of the cartridge's RAM in bytes; 0 where it has none.
    pub ram_size: u32,
}

} // verus!

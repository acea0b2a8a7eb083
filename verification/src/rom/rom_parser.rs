//! The header of a cartridge image.

use vstd::prelude::*;
use crate::rom::rom_info::ROMInfo;

verus! {

/// Where the title begins in the header of a cartridge image.
pub const TITLE_START: usize = 0x134;

/// Where the title ends.
pub const TITLE_END: usize = 0x144;

/// Where the header holds the code of the cartridge's controller.
pub const CARTRIDGE_TYPE: usize = 0x147;

/// Where the header holds the code of the ROM's size.
pub const ROM_SIZE: usize = 0x148;

/// Where the header holds the code of the RAM's size.
pub const RAM_SIZE: usize = 0x149;

/// The byte of the image at `index`, and zero past its end.
pub open spec fn header_byte(rom: Seq<u8>, index: int) -> u8 {
    if 0 <= index < rom.len() {
        rom[index]
    } else {
        0
    }
}

/// The bytes of the ROM whose size the header gives with `code`: 32 KiB, doubled `code`
/// times; zero for a code above 8, which no cartridge has.
pub open spec fn rom_bytes(code: u8) -> u32 {
    if code == 0 {
        0x8000
    } else if code == 1 {
        0x1_0000
    } else if code == 2 {
        0x2_0000
    } else if code == 3 {
        0x4_0000
    } else if code == 4 {
        0x8_0000
    } else if code == 5 {
        0x10_0000
    } else if code == 6 {
        0x20_0000
    } else if code == 7 {
        0x40_0000
    } else if code == 8 {
        0x80_0000
    } else {
        0
    }
}

/// The bytes of the cartridge RAM whose size the header gives with `code`; zero for no RAM
/// and for a code that no cartridge has.
pub open spec fn ram_bytes(code: u8) -> u32 {
    if code == 1 {
        0x800
    } else if code == 2 {
        0x2000
    } else if code == 3 {
        0x8000
    } else if code == 4 {
        0x2_0000
    } else if code == 5 {
        0x1_0000
    } else {
        0
    }
}

fn byte_at(rom: &Vec<u8>, index: usize) -> (byte: u8)
    ensures
        byte == header_byte(rom@, index as int),
{
    if index < rom.len() {
        rom[index]
    } else {
        0
    }
}

/// Reads the header of a cartridge image. What an image is too short to hold reads as
/// zero.
pub fn parse_rom_header(rom: &Vec<u8>) -> (info: ROMInfo)
    ensures
        info.title@ == Seq::new(
            (TITLE_END - TITLE_START) as nat,
            |i: int| header_byte(rom@, TITLE_START + i),
        ),
        info.cartridge_type == header_byte(rom@, CARTRIDGE_TYPE as int),
        info.rom_size == rom_bytes(header_byte(rom@, ROM_SIZE as int)),
        info.ram_size == ram_bytes(header_byte(rom@, RAM_SIZE as int)),
{
    let mut title: Vec<u8> = Vec::new();
    let mut index: usize = TITLE_START;
    while index < TITLE_END
        invariant
            TITLE_START <= index <= TITLE_END,
            title@.len() == index - TITLE_START,
            forall|i: int| 0 <= i < title@.len() ==> title@[i] == header_byte(rom@, TITLE_START + i),
        decreases TITLE_END - index,
    {
        title.push(byte_at(rom, index));
        index += 1;
    }
    let rom_code: u8 = byte_at(rom, ROM_SIZE);
    let rom_size: u32 = if rom_code <= 8 {
        proof {
            lemma_rom_bytes(rom_code);
        }
        0x8000u32 << rom_code
    } else {
        0
    };
    let ram_size: u32 = match byte_at(rom, RAM_SIZE) {
        1 => 0x800,
        2 => 0x2000,
        3 => 0x8000,
        4 => 0x2_0000,
        5 => 0x1_0000,
        _ => 0,
    };
    ROMInfo { title, cartridge_type: byte_at(rom, CARTRIDGE_TYPE), rom_size, ram_size }
}

proof fn lemma_rom_bytes(code: u8)
    by (bit_vector)
    requires
        code <= 8,
    ensures
        0x8000u32 << code == rom_bytes(code),
{
}

} // verus!

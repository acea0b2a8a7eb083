pub mod ppu;

//! The clock, which every bus access and every internal machine cycle advances.

use vstd::prelude::*;
use crate::ppu::ppu::after_tick;
use crate::ppu::ppu::IF;
use crate::ppu::ppu::LY;
use crate::ppu::ppu::PPU;

verus! {

/// The running count of T-cycles since power-on.
#[derive(Debug)]
pub struct Clock {
    pub t_cycles: u64,
}

impl Default for Clock {
    fn default() -> (clock: Self)
        ensures
            clock.t_cycles == 0,
    {
        Clock { t_cycles: 0 }
    }
}

impl Clock {
    /// One machine cycle: the count advances by four T-cycles and the picture unit
    /// follows.
    pub fn tick(&mut self, io: &mut [u8; 0x80])
        requires
            old(self).t_cycles + 4 <= u64::MAX,
        ensures
            final(self).t_cycles == old(self).t_cycles + 4,
            final(io)@ == old(io)@.update(LY as int, after_tick(old(self).t_cycles + 4, old(io)[LY as int], old(io)[IF as int]).0).update(
                IF as int,
                after_tick(old(self).t_cycles + 4, old(io)[LY as int], old(io)[IF as int]).1,
            ),
    {
        self.t_cycles += 4_u64;
        PPU::tick(self.t_cycles, io);
    }
}

} // verus!

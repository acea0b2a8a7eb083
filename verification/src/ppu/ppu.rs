//! The picture unit as far as the core drives it: with every tick of the clock it keeps the
//! scanline register and requests the vertical-blank interrupt.

use vstd::prelude::*;
use crate::cpu::alu::set_bit;
use crate::cpu::alu::with_bit;

verus! {

/// Where the interrupt-request register `IF` lies in the I/O block.
pub const IF: usize = 0x0F;

/// Where the scanline register `LY` lies in the I/O block.
pub const LY: usize = 0x44;

/// The T-cycles that one scanline takes.
pub const LINE_CYCLES: u64 = 456;

/// The last scanline of a frame.
pub const LAST_LINE: u8 = 153;

/// The first scanline of the vertical blank.
pub const VBLANK_LINE: u8 = 144;

/// The scanlines of one frame.
pub const FRAME_LINES: u64 = 154;

/// The T-cycles that one frame takes.
pub const FRAME_CYCLES: u64 = 70224;

/// The T-cycles into a frame at which the vertical blank begins.
pub const VBLANK_CYCLES: u64 = 65664;

/// The scanline that a picture unit started with the clock is at after `t_cycles`.
pub open spec fn line_at(t_cycles: int) -> int {
    (t_cycles / (LINE_CYCLES as int)) % (FRAME_LINES as int)
}

/// The scanline that follows `ly`.
pub open spec fn next_line(ly: u8) -> u8 {
    if ly >= LAST_LINE {
        0
    } else {
        (ly + 1) as u8
    }
}

/// What a tick that brings the clock to `t_cycles` makes of the scanline register `ly` and
/// the interrupt requests `requests`: at the end of a scanline `LY` moves on, and on entry
/// to the vertical blank bit 0 of `IF` is raised.
pub open spec fn after_tick(t_cycles: int, ly: u8, requests: u8) -> (u8, u8) {
    if t_cycles % (LINE_CYCLES as int) == 0 {
        let line = next_line(ly);
        (
            line,
            if line == VBLANK_LINE {
                with_bit(requests, 0, true)
            } else {
                requests
            },
        )
    } else {
        (ly, requests)
    }
}

/// The picture unit as far as the core drives it: the frame it draws into.
pub struct PPU {
    /// 160 columns of 144 pixels, each `0xRRGGBBAA`.
    pub framebuffer: Vec<Vec<u32>>,
}

/// The columns of the frame.
pub const FRAME_WIDTH: usize = 160;

/// The pixels of one column.
pub const FRAME_HEIGHT: usize = 144;

/// The colour of a blank screen, `0xRRGGBBAA`.
pub const BLANK: u32 = 0x95AB12FF;

impl PPU {
    /// Whether the frame has its 160 columns of 144 pixels.
    pub open spec fn wf(&self) -> bool {
        &&& self.framebuffer@.len() == FRAME_WIDTH
        &&& forall|x: int| 0 <= x < FRAME_WIDTH ==> (#[trigger] self.framebuffer@[x])@.len() == FRAME_HEIGHT
    }

    /// The picture unit with a blank frame.
    pub fn new() -> (ppu: Self)
        ensures
            ppu.wf(),
            forall|x: int, y: int|
                0 <= x < FRAME_WIDTH && 0 <= y < FRAME_HEIGHT ==> #[trigger] ppu.framebuffer@[x]@[y] == BLANK,
    {
        let mut framebuffer: Vec<Vec<u32>> = Vec::new();
        let mut x: usize = 0;
        while x < FRAME_WIDTH
            invariant
                x <= FRAME_WIDTH,
                framebuffer@.len() == x,
                forall|i: int| 0 <= i < x ==> (#[trigger] framebuffer@[i])@.len() == FRAME_HEIGHT,
                forall|i: int, j: int|
                    0 <= i < x && 0 <= j < FRAME_HEIGHT ==> #[trigger] framebuffer@[i]@[j] == BLANK,
            decreases FRAME_WIDTH - x,
        {
            let mut column: Vec<u32> = Vec::new();
            let mut y: usize = 0;
            while y < FRAME_HEIGHT
                invariant
                    y <= FRAME_HEIGHT,
                    column@.len() == y,
                    forall|j: int| 0 <= j < y ==> column@[j] == BLANK,
                decreases FRAME_HEIGHT - y,
            {
                column.push(BLANK);
                y += 1;
            }
            framebuffer.push(column);
            x += 1;
        }
        PPU { framebuffer }
    }

    /// Follows the clock: called after every tick with the new cycle count and the I/O
    /// block, it keeps `LY` and the vertical-blank request.
    pub fn tick(t_cycles: u64, io: &mut [u8; 0x80])
        ensures
            final(io)@ == old(io)@.update(LY as int, after_tick(t_cycles as int, old(io)[LY as int], old(io)[IF as int]).0).update(
                IF as int,
                after_tick(t_cycles as int, old(io)[LY as int], old(io)[IF as int]).1,
            ),
    {
        if t_cycles % LINE_CYCLES == 0 {
            let line: u8 = if io[LY] >= LAST_LINE {
                0
            } else {
                io[LY] + 1
            };
            io[LY] = line;
            if line == VBLANK_LINE {
                io[IF] = set_bit(io[IF], 0, true);
            }
        }
    }
}

/// The scanline runs through `0..=153` and comes round again every 70,224 T-cycles.
pub proof fn lemma_line_period(t_cycles: int)
    requires
        t_cycles >= 0,
    ensures
        0 <= line_at(t_cycles) <= LAST_LINE,
        line_at(t_cycles + FRAME_CYCLES) == line_at(t_cycles),
        t_cycles % (FRAME_CYCLES as int) < VBLANK_CYCLES <==> line_at(t_cycles) < VBLANK_LINE,
{
    let frame = t_cycles / 70224;
    let rest = t_cycles % 70224;
    let line = t_cycles / 456;
    assert(line == frame * 154 + rest / 456);
    assert((t_cycles + 70224) / 456 == line + 154);
}

/// A tick takes `LY` from the scanline of the old cycle count to that of the new one, and
/// raises the vertical-blank request exactly when the new count is 65,664 T-cycles into a
/// frame: once in every frame, on the step from scanline 143 to 144.
pub proof fn lemma_tick_follows_clock(t_cycles: int, ly: u8, requests: u8)
    requires
        t_cycles >= 0,
        t_cycles % 4 == 0,
        ly == line_at(t_cycles),
    ensures
        after_tick(t_cycles + 4, ly, requests).0 == line_at(t_cycles + 4),
        after_tick(t_cycles + 4, ly, requests).1 == if (t_cycles + 4) % (FRAME_CYCLES as int)
            == VBLANK_CYCLES {
            with_bit(requests, 0, true)
        } else {
            requests
        },
        (t_cycles + 4) % (FRAME_CYCLES as int) == VBLANK_CYCLES ==> ly == VBLANK_LINE - 1
            && line_at(t_cycles + 4) == VBLANK_LINE,
{
    let t = t_cycles + 4;
    let line = t_cycles / 456;
    let rest = t_cycles % 456;
    assert(rest % 4 == 0);
    if rest + 4 == 456 {
        assert(t / 456 == line + 1);
        assert(t % 456 == 0);
    } else {
        assert(t / 456 == line);
        assert(t % 456 == rest + 4);
    }
    let frame = t / 70224;
    let into = t % 70224;
    assert(t / 456 == frame * 154 + into / 456);
    assert(t % 456 == into % 456);
}

} // verus!

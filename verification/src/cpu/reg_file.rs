//! The register file, its flags and the condition codes.

use vstd::prelude::*;
use crate::cpu::alu::read_bits;
use crate::cpu::alu::set_bit;
use crate::error::GBError;

verus! {

/// The hardware models whose power-on state the register file knows.
#[derive(Debug, Clone, Copy, PartialEq, Eq, Structural)]
pub enum Modes {
    /// The first Game Boy, with its monochrome screen.
    DMG,
}

/// The four condition flags, held in bits 7 to 4 of `F`.
#[derive(Debug, Clone, Copy, PartialEq, Eq, Structural)]
pub enum Flag {
    Zero,
    Subtract,
    HalfCarry,
    Carry,
}

/// What [`RegFile::set_all_flags`] takes for "leave this flag as it is".
pub const PRESERVE: u8 = 2;

/// The eight byte registers and the two word registers of the SM83.
#[derive(Debug, Clone, Copy, PartialEq, Eq, Structural)]
pub struct RegFile {
    pub a: u8,
    pub f: u8,
    pub b: u8,
    pub c: u8,
    pub d: u8,
    pub e: u8,
    pub h: u8,
    pub l: u8,
    pub sp: u16,
    pub pc: u16,
}

impl Flag {
    /// The bit of `F` that holds the flag.
    pub open spec fn bit(self) -> u8 {
        match self {
            Flag::Zero => 7,
            Flag::Subtract => 6,
            Flag::HalfCarry => 5,
            Flag::Carry => 4,
        }
    }

    /// The value of that bit.
    pub open spec fn mask(self) -> int {
        match self {
            Flag::Zero => 128,
            Flag::Subtract => 64,
            Flag::HalfCarry => 32,
            Flag::Carry => 16,
        }
    }

    fn index(self) -> (i: u8)
        ensures
            i == self.bit(),
    {
        match self {
            Flag::Zero => 7,
            Flag::Subtract => 6,
            Flag::HalfCarry => 5,
            Flag::Carry => 4,
        }
    }
}

/// Whether `flag` is set in the flag byte `f`.
pub open spec fn flag_in(f: u8, flag: Flag) -> bool {
    (f as int / flag.mask()) % 2 == 1
}

/// The flag byte that holds exactly the four given flags; its low nibble is zero.
pub open spec fn flags_byte(zero: bool, subtract: bool, half_carry: bool, carry: bool) -> u8 {
    ((if zero { 128int } else { 0 }) + (if subtract { 64int } else { 0 }) + (if half_carry {
        32int
    } else {
        0
    }) + (if carry { 16int } else { 0 })) as u8
}

/// What one entry of [`RegFile::set_all_flags`] makes of a flag: 0 clears it, 1 sets it, and
/// every other value keeps it.
pub open spec fn chosen(old_flag: bool, entry: u8) -> bool {
    if entry == 0 {
        false
    } else if entry == 1 {
        true
    } else {
        old_flag
    }
}

impl RegFile {
    /// Whether `flag` is set.
    pub open spec fn flag(self, flag: Flag) -> bool {
        flag_in(self.f, flag)
    }

    /// The register file with its four flags replaced and the low nibble of `F` cleared.
    pub open spec fn with_flags(self, zero: bool, subtract: bool, half_carry: bool, carry: bool) -> RegFile {
        RegFile { f: flags_byte(zero, subtract, half_carry, carry), ..self }
    }

    /// Whether `i` names one of the seven byte registers that an opcode can address:
    /// `B C D E H L` are 0 to 5, `A` is 7, and 6 stands for the byte at `HL`.
    pub open spec fn is_r8(i: u8) -> bool {
        i < 8 && i != 6
    }

    /// The register that `i` names.
    pub open spec fn r8(self, i: u8) -> u8 {
        if i == 0 {
            self.b
        } else if i == 1 {
            self.c
        } else if i == 2 {
            self.d
        } else if i == 3 {
            self.e
        } else if i == 4 {
            self.h
        } else if i == 5 {
            self.l
        } else {
            self.a
        }
    }

    /// The register file with `value` in the register that `i` names.
    pub open spec fn with_r8(self, i: u8, value: u8) -> RegFile {
        if i == 0 {
            RegFile { b: value, ..self }
        } else if i == 1 {
            RegFile { c: value, ..self }
        } else if i == 2 {
            RegFile { d: value, ..self }
        } else if i == 3 {
            RegFile { e: value, ..self }
        } else if i == 4 {
            RegFile { h: value, ..self }
        } else if i == 5 {
            RegFile { l: value, ..self }
        } else {
            RegFile { a: value, ..self }
        }
    }

    /// The state in which the boot ROM of the given model leaves the registers.
    pub open spec fn power_on(mode: Modes) -> RegFile {
        RegFile {
            a: 0x01,
            f: 0xB0,
            b: 0x00,
            c: 0x13,
            d: 0x00,
            e: 0xD8,
            h: 0x01,
            l: 0x4D,
            sp: 0xFFFE,
            pc: 0x0100,
        }
    }

    /// The registers as the boot ROM leaves them.
    pub fn new(mode: Modes) -> (regs: Self)
        ensures
            regs == Self::power_on(mode),
    {
        match mode {
            Modes::DMG => RegFile {
                a: 0x01,
                f: 0xB0,
                b: 0x00,
                c: 0x13,
                d: 0x00,
                e: 0xD8,
                h: 0x01,
                l: 0x4D,
                sp: 0xFFFE,
                pc: 0x0100,
            },
        }
    }

    /// A handle on the register that `i` names, or `InvalidR8Operand(i)` where `i` names
    /// none: 6 is the byte at `HL`, which only the bus can reach.
    pub fn match_r8(&mut self, i: u8) -> (r: Result<&mut u8, GBError>)
        ensures
            !Self::is_r8(i) ==> r == Err::<&mut u8, GBError>(GBError::InvalidR8Operand(i))
                && *final(self) == *old(self),
            Self::is_r8(i) ==> r is Ok && *r->Ok_0 == old(self).r8(i) && *final(self) == old(
                self,
            ).with_r8(i, *final(r->Ok_0)),
    {
        match i {
            0 => Ok(&mut self.b),
            1 => Ok(&mut self.c),
            2 => Ok(&mut self.d),
            3 => Ok(&mut self.e),
            4 => Ok(&mut self.h),
            5 => Ok(&mut self.l),
            7 => Ok(&mut self.a),
            _ => Err(GBError::InvalidR8Operand(i)),
        }
    }

    /// Whether `flag` is set.
    pub fn read_flag(&self, flag: Flag) -> (set: bool)
        ensures
            set == self.flag(flag),
    {
        read_bits(self.f, flag.index(), 1) == 1
    }

    /// The register file after a write of `value` to `flag`; `None` writes nothing, yet the
    /// low nibble of `F` is cleared as on every flag write.
    pub open spec fn with_flag(self, flag: Flag, value: Option<bool>) -> RegFile {
        let written = |which: Flag|
            if which == flag && value is Some {
                value->Some_0
            } else {
                self.flag(which)
            };
        self.with_flags(
            written(Flag::Zero),
            written(Flag::Subtract),
            written(Flag::HalfCarry),
            written(Flag::Carry),
        )
    }

    /// Writes one flag and clears the low nibble of `F`. Always succeeds.
    pub fn set_flag(&mut self, flag: Flag, value: Option<bool>) -> (r: Result<(), GBError>)
        ensures
            r is Ok,
            *final(self) == old(self).with_flag(flag, value),
            final(self).f % 16 == 0,
    {
        let mut entries: [u8; 4] = [PRESERVE, PRESERVE, PRESERVE, PRESERVE];
        match value {
            Some(v) => {
                let entry: u8 = if v {
                    1
                } else {
                    0
                };
                match flag {
                    Flag::Zero => {
                        entries[0] = entry;
                    },
                    Flag::Subtract => {
                        entries[1] = entry;
                    },
                    Flag::HalfCarry => {
                        entries[2] = entry;
                    },
                    Flag::Carry => {
                        entries[3] = entry;
                    },
                }
            },
            None => {},
        }
        self.set_all_flags(&entries)
    }

    /// Replaces the four flags at once, in the order `[Z, N, H, C]`: an entry of 0 clears its
    /// flag, 1 sets it, and any other value (by convention [`PRESERVE`]) keeps it. The low
    /// nibble of `F` is cleared. Always succeeds.
    pub fn set_all_flags(&mut self, flags: &[u8; 4]) -> (r: Result<(), GBError>)
        ensures
            r is Ok,
            *final(self) == old(self).with_flags(
                chosen(old(self).flag(Flag::Zero), flags[0]),
                chosen(old(self).flag(Flag::Subtract), flags[1]),
                chosen(old(self).flag(Flag::HalfCarry), flags[2]),
                chosen(old(self).flag(Flag::Carry), flags[3]),
            ),
            final(self).f % 16 == 0,
    {
        let zero: bool = Self::choose_flag(self.read_flag(Flag::Zero), flags[0]);
        let subtract: bool = Self::choose_flag(self.read_flag(Flag::Subtract), flags[1]);
        let half_carry: bool = Self::choose_flag(self.read_flag(Flag::HalfCarry), flags[2]);
        let carry: bool = Self::choose_flag(self.read_flag(Flag::Carry), flags[3]);
        let mut f: u8 = 0;
        f = set_bit(f, 7, zero);
        f = set_bit(f, 6, subtract);
        f = set_bit(f, 5, half_carry);
        f = set_bit(f, 4, carry);
        self.f = f;
        Ok(())
    }

    fn choose_flag(old_flag: bool, entry: u8) -> (flag: bool)
        ensures
            flag == chosen(old_flag, entry),
    {
        if entry == 0 {
            false
        } else if entry == 1 {
            true
        } else {
            old_flag
        }
    }

    /// What the condition code `code` asks of the flags: 0 is `NZ`, 1 is `Z`, 2 is `NC` and
    /// 3 is `C`.
    pub open spec fn condition(self, code: u8) -> bool {
        if code == 0 {
            !self.flag(Flag::Zero)
        } else if code == 1 {
            self.flag(Flag::Zero)
        } else if code == 2 {
            !self.flag(Flag::Carry)
        } else {
            self.flag(Flag::Carry)
        }
    }

    /// Evaluates a condition code, or refuses one above 3 with `InvalidCondition(code)`.
    pub fn match_condition(&self, code: u8) -> (r: Result<bool, GBError>)
        ensures
            code <= 3 ==> r == Ok::<bool, GBError>(self.condition(code)),
            code > 3 ==> r == Err::<bool, GBError>(GBError::InvalidCondition(code)),
    {
        match code {
            0 => Ok(!self.read_flag(Flag::Zero)),
            1 => Ok(self.read_flag(Flag::Zero)),
            2 => Ok(!self.read_flag(Flag::Carry)),
            3 => Ok(self.read_flag(Flag::Carry)),
            _ => Err(GBError::InvalidCondition(code)),
        }
    }
}

} // verus!

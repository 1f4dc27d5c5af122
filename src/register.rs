use vstd::prelude::*;

verus! {

/// The 6502 register file.
#[derive(Clone, Copy, Debug, PartialEq, Eq, Structural)]
pub struct Registers {
    pub a: u8,
    pub x: u8,
    pub y: u8,
    pub pc: u16,
    /// Stack pointer; the stack lives at 0x0100..=0x01FF.
    pub s: u8,
    /// Status: N V 1 B D I Z C from bit 7 down.
    pub p: u8,
}

/// A bit of the status register.
#[derive(Clone, Copy, Debug, PartialEq, Eq, Structural)]
pub enum Flag {
    N,
    V,
    B,
    D,
    I,
    Z,
    C,
}

/// The bit of the status register that `flag` occupies.
pub open spec fn flag_mask(flag: Flag) -> u8 {
    match flag {
        Flag::N => 0x80,
        Flag::V => 0x40,
        Flag::B => 0x10,
        Flag::D => 0x08,
        Flag::I => 0x04,
        Flag::Z => 0x02,
        Flag::C => 0x01,
    }
}

/// `p` with the bit of `flag` set to `val`.
pub open spec fn with_flag(p: u8, flag: Flag, val: bool) -> u8 {
    if val { p | flag_mask(flag) } else { p & !flag_mask(flag) }
}

/// Whether the bit of `flag` is set in `p`.
pub open spec fn has_flag(p: u8, flag: Flag) -> bool {
    p & flag_mask(flag) != 0
}

impl Default for Registers {
    fn default() -> (r: Registers)
        ensures
            r == (Registers { a: 0, x: 0, y: 0, pc: 0, s: 0xFD, p: 0x24 }),
    {
        Registers { a: 0, x: 0, y: 0, pc: 0, s: 0xFD, p: 0x24 }
    }
}

impl Registers {
    pub fn set_flag(&mut self, flag: Flag, val: bool)
        ensures
            *final(self) == (Registers { p: with_flag(old(self).p, flag, val), ..*old(self) }),
    {
        let mask: u8 = match flag {
            Flag::N => 0b1000_0000,
            Flag::V => 0b0100_0000,
            Flag::B => 0b0001_0000,
            Flag::D => 0b0000_1000,
            Flag::I => 0b0000_0100,
            Flag::Z => 0b0000_0010,
            Flag::C => 0b0000_0001,
        };
        if val {
            self.p = self.p | mask;
        } else {
            self.p = self.p & !mask;
        }
    }

    pub fn get_flag(&self, flag: Flag) -> (r: bool)
        ensures
            r == has_flag(self.p, flag),
    {
        let mask: u8 = match flag {
            Flag::N => 0b1000_0000,
            Flag::V => 0b0100_0000,
            Flag::B => 0b0001_0000,
            Flag::D => 0b0000_1000,
            Flag::I => 0b0000_0100,
            Flag::Z => 0b0000_0010,
            Flag::C => 0b0000_0001,
        };
        self.p & mask != 0
    }
}

/// The status register decoded into its flags.
#[derive(Clone, Copy, Debug, PartialEq, Eq, Structural)]
pub struct Flags {
    pub n: bool,
    pub v: bool,
    pub d: bool,
    pub i: bool,
    pub z: bool,
    pub c: bool,
}

impl Flags {
    /// Decodes the status byte `p`.
    pub fn from_status(p: u8) -> (f: Flags)
        ensures
            f.n == has_flag(p, Flag::N),
            f.v == has_flag(p, Flag::V),
            f.d == has_flag(p, Flag::D),
            f.i == has_flag(p, Flag::I),
            f.z == has_flag(p, Flag::Z),
            f.c == has_flag(p, Flag::C),
    {
        Flags {
            n: p & 0x80 != 0,
            v: p & 0x40 != 0,
            d: p & 0x08 != 0,
            i: p & 0x04 != 0,
            z: p & 0x02 != 0,
            c: p & 0x01 != 0,
        }
    }
}

} // verus!

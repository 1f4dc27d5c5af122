use vstd::prelude::*;
use crate::mapper::{split_body, Header, CHR_UNIT, PRG_UNIT};

verus! {

/// NROM (mapper 0): 16 or 32 KiB of PRG mirrored over 0x8000..=0xFFFF, one 8 KiB
/// pattern bank, no bank switching.
pub struct Mapper {
    pub header: Header,
    pub prg_rom: Vec<u8>,
    /// The 8 KiB pattern bank: CHR ROM, or CHR RAM when the header lists none.
    pub chr: Vec<u8>,
    pub chr_is_ram: bool,
}

/// Size of the PRG window that 0x8000..=0xFFFF mirrors: one unit is seen twice,
/// two or more units fill the window.
pub open spec fn prg_window(prg_len: int) -> int {
    if prg_len <= PRG_UNIT { PRG_UNIT as int } else { 0x8000 }
}

impl Mapper {
    pub fn new(header: Header, data: Vec<u8>) -> (m: Mapper)
        requires
            data@.len() >= header.body_len(),
        ensures
            m.header == header,
            m.prg_rom@ == data@.subrange(0, header.prg_rom_size * PRG_UNIT),
            m.chr_is_ram == (header.chr_rom_size == 0),
            !m.chr_is_ram ==> m.chr@ == data@.subrange(header.prg_rom_size * PRG_UNIT, header.body_len()),
            m.chr_is_ram ==> m.chr@ == Seq::new(CHR_UNIT as nat, |i: int| 0u8),
            crate::mapper::Mapper::wf(&m),
    {
        let (prg_rom, chr, chr_is_ram) = split_body(&header, data);
        Mapper { header, prg_rom, chr, chr_is_ram }
    }
}

impl crate::mapper::Mapper for Mapper {
    open spec fn wf(&self) -> bool {
        &&& self.prg_rom@.len() == self.header.prg_rom_size * PRG_UNIT
        &&& self.chr@.len() >= CHR_UNIT
    }

    open spec fn peek(&self, addr: u16) -> u8 {
        if addr < 0x2000 {
            self.chr@[addr as int]
        } else if addr < 0x8000 || self.prg_rom@.len() == 0 {
            0
        } else {
            self.prg_rom@[(addr - 0x8000) % prg_window(self.prg_rom@.len() as int)]
        }
    }

    open spec fn wrote(&self, before: Self, addr: u16, val: u8) -> bool {
        &&& self.header == before.header
        &&& self.prg_rom@ == before.prg_rom@
        &&& self.chr_is_ram == before.chr_is_ram
        &&& self.chr@ == if before.chr_is_ram && addr < 0x2000 {
            before.chr@.update(addr as int, val)
        } else {
            before.chr@
        }
    }

    fn readb(&self, addr: u16) -> (r: u8) {
        if addr < 0x2000 {
            self.chr[addr as usize]
        } else if addr < 0x8000 || self.prg_rom.len() == 0 {
            0
        } else {
            let window: usize = if self.prg_rom.len() <= PRG_UNIT { PRG_UNIT } else { 0x8000 };
            self.prg_rom[(addr - 0x8000) as usize % window]
        }
    }

    fn writeb(&mut self, addr: u16, val: u8) {
        if self.chr_is_ram && addr < 0x2000 {
            self.chr.set(addr as usize, val);
        }
    }
}

} // verus!

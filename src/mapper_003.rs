use vstd::prelude::*;
use crate::mapper::{split_body, Header, CHR_UNIT, PRG_UNIT};
use crate::mapper_000::prg_window;
use crate::mapper_001::bank_offset;

verus! {

/// CNROM (mapper 3): NROM-like PRG, with the 8 KiB pattern bank chosen by the low two
/// bits of any write to 0x8000..=0xFFFF.
pub struct Mapper {
    pub header: Header,
    pub prg_rom: Vec<u8>,
    /// CHR ROM, or 8 KiB of CHR RAM when the header lists none.
    pub chr: Vec<u8>,
    pub chr_is_ram: bool,
    pub selected_bank: u8,
}

impl Mapper {
    /// Byte offset in CHR that the pattern address `addr` (below 0x2000) reaches.
    pub open spec fn chr_index(&self, addr: u16) -> int {
        bank_offset(self.selected_bank as int, self.chr@.len() as int, CHR_UNIT as int) + addr as int
    }

    pub fn new(header: Header, data: Vec<u8>) -> (m: Mapper)
        requires
            data@.len() >= header.body_len(),
        ensures
            m.header == header,
            m.prg_rom@ == data@.subrange(0, header.prg_rom_size * PRG_UNIT),
            m.chr_is_ram == (header.chr_rom_size == 0),
            !m.chr_is_ram ==> m.chr@ == data@.subrange(header.prg_rom_size * PRG_UNIT, header.body_len()),
            m.chr_is_ram ==> m.chr@ == Seq::new(CHR_UNIT as nat, |i: int| 0u8),
            m.selected_bank == 0,
            crate::mapper::Mapper::wf(&m),
    {
        let (prg_rom, chr, chr_is_ram) = split_body(&header, data);
        Mapper { header, prg_rom, chr, chr_is_ram, selected_bank: 0 }
    }

    /// Start in CHR of the selected bank.
    fn chr_base(&self) -> (r: usize)
        requires
            crate::mapper::Mapper::wf(self),
        ensures
            r == bank_offset(self.selected_bank as int, self.chr@.len() as int, CHR_UNIT as int),
            r + CHR_UNIT <= self.chr@.len(),
    {
        let len = self.chr.len();
        let k = len / CHR_UNIT;
        proof {
            crate::mapper_001::lemma_bank_offset_fits(self.selected_bank as int, len as int, CHR_UNIT as int);
        }
        (self.selected_bank as usize % k) * CHR_UNIT
    }
}

impl crate::mapper::Mapper for Mapper {
    open spec fn wf(&self) -> bool {
        &&& self.prg_rom@.len() == self.header.prg_rom_size * PRG_UNIT
        &&& self.chr@.len() >= CHR_UNIT
        &&& self.chr.len() % CHR_UNIT == 0
    }

    open spec fn peek(&self, addr: u16) -> u8 {
        if addr < 0x2000 {
            self.chr@[self.chr_index(addr)]
        } else if addr < 0x8000 || self.prg_rom@.len() == 0 {
            0
        } else {
            self.prg_rom@[(addr - 0x8000) % prg_window(self.prg_rom@.len() as int)]
        }
    }

    open spec fn wrote(&self, before: Self, addr: u16, val: u8) -> bool {
        &&& self.header == before.header
        &&& self.prg_rom@ == before.prg_rom@
        &&& self.chr_is_ram == before.chr_is_ram
        &&& self.chr@ == if before.chr_is_ram && addr < 0x2000 {
            before.chr@.update(before.chr_index(addr), val)
        } else {
            before.chr@
        }
        &&& self.selected_bank == if addr >= 0x8000 { val & 3u8 } else { before.selected_bank }
    }

    fn readb(&self, addr: u16) -> (r: u8) {
        if addr < 0x2000 {
            let base = self.chr_base();
            self.chr[base + addr as usize]
        } else if addr < 0x8000 || self.prg_rom.len() == 0 {
            0
        } else {
            let window: usize = if self.prg_rom.len() <= PRG_UNIT { PRG_UNIT } else { 0x8000 };
            self.prg_rom[(addr - 0x8000) as usize % window]
        }
    }

    fn writeb(&mut self, addr: u16, val: u8) {
        if addr < 0x2000 {
            if self.chr_is_ram {
                let base = self.chr_base();
                self.chr.set(base + addr as usize, val);
            }
        } else if addr >= 0x8000 {
            self.selected_bank = val & 3;
        }
    }
}

} // verus!

use vstd::prelude::*;
use crate::mapper::{split_body, Header, CHR_UNIT, PRG_UNIT};

verus! {

/// Size of one switchable PRG bank.
pub const PRG_BANK: usize = 0x4000;

/// Size of one switchable CHR bank.
pub const CHR_BANK: usize = 0x1000;

/// The serial-port state of an MMC1: the shift register and the four registers that
/// it commits into.
#[derive(Clone, Copy, Debug, PartialEq, Eq)]
pub struct Mmc1Regs {
    pub shift: u8,
    pub control: u8,
    pub chr_bank_0: u8,
    pub chr_bank_1: u8,
    pub prg_bank: u8,
}

/// The shift register after `val` is fed in: bit 0 of `val` enters at bit 4.
pub open spec fn shifted(shift: u8, val: u8) -> u8 {
    (shift >> 1u8) | ((val & 1u8) << 4u8)
}

/// The register that a committing write at `addr` selects: bits 14 and 13.
pub open spec fn register_select(addr: u16) -> u16 {
    (addr >> 13u16) & 3u16
}

/// The serial-port state after a CPU write of `val` at `addr` in 0x8000..=0xFFFF.
pub open spec fn mmc1_next(r: Mmc1Regs, addr: u16, val: u8) -> Mmc1Regs {
    if val & 0x80u8 != 0 {
        Mmc1Regs { shift: 0x10, control: r.control | 0x0Cu8, ..r }
    } else if r.shift & 1u8 == 1 {
        let v = shifted(r.shift, val);
        let sel = register_select(addr);
        if sel == 0 {
            Mmc1Regs { shift: 0x10, control: v, ..r }
        } else if sel == 1 {
            Mmc1Regs { shift: 0x10, chr_bank_0: v, ..r }
        } else if sel == 2 {
            Mmc1Regs { shift: 0x10, chr_bank_1: v, ..r }
        } else {
            Mmc1Regs { shift: 0x10, prg_bank: v, ..r }
        }
    } else {
        Mmc1Regs { shift: shifted(r.shift, val), ..r }
    }
}

/// The five-bit value that five serial writes carry, the first write giving bit 0.
pub open spec fn assembled(v0: u8, v1: u8, v2: u8, v3: u8, v4: u8) -> u8 {
    (v0 & 1u8) | ((v1 & 1u8) << 1u8) | ((v2 & 1u8) << 2u8) | ((v3 & 1u8) << 3u8) | ((v4 & 1u8) << 4u8)
}

/// The register among control, CHR bank 0, CHR bank 1 and PRG bank that `sel` names.
pub open spec fn selected(r: Mmc1Regs, sel: u16) -> u8 {
    if sel == 0 {
        r.control
    } else if sel == 1 {
        r.chr_bank_0
    } else if sel == 2 {
        r.chr_bank_1
    } else {
        r.prg_bank
    }
}

/// Five writes with bit 7 clear, fed into an empty shift register, commit the five
/// bits they carry (the first write giving bit 0) into the register that the fifth
/// write's address selects, and leave the shift register empty again; the first
/// four writes commit nothing.
pub proof fn lemma_five_writes_commit(
    r0: Mmc1Regs,
    a0: u16, v0: u8, a1: u16, v1: u8, a2: u16, v2: u8, a3: u16, v3: u8, a4: u16, v4: u8,
)
    requires
        r0.shift == 0x10,
        v0 & 0x80u8 == 0,
        v1 & 0x80u8 == 0,
        v2 & 0x80u8 == 0,
        v3 & 0x80u8 == 0,
        v4 & 0x80u8 == 0,
    ensures
        ({
            let r4 = mmc1_next(mmc1_next(mmc1_next(mmc1_next(r0, a0, v0), a1, v1), a2, v2), a3, v3);
            let r5 = mmc1_next(r4, a4, v4);
            &&& r4.control == r0.control && r4.chr_bank_0 == r0.chr_bank_0
            &&& r4.chr_bank_1 == r0.chr_bank_1 && r4.prg_bank == r0.prg_bank
            &&& selected(r5, register_select(a4)) == assembled(v0, v1, v2, v3, v4)
            &&& r5.shift == 0x10
        }),
{
    let s0 = r0.shift;
    let s1 = shifted(s0, v0);
    let s2 = shifted(s1, v1);
    let s3 = shifted(s2, v2);
    let s4 = shifted(s3, v3);
    let s5 = shifted(s4, v4);
    assert(s0 & 1u8 == 0 && s1 & 1u8 == 0 && s2 & 1u8 == 0 && s3 & 1u8 == 0 && s4 & 1u8 == 1
        && s5 == assembled(v0, v1, v2, v3, v4)) by (bit_vector)
        requires
            s0 == 0x10u8,
            s1 == (s0 >> 1u8) | ((v0 & 1u8) << 4u8),
            s2 == (s1 >> 1u8) | ((v1 & 1u8) << 4u8),
            s3 == (s2 >> 1u8) | ((v2 & 1u8) << 4u8),
            s4 == (s3 >> 1u8) | ((v3 & 1u8) << 4u8),
            s5 == (s4 >> 1u8) | ((v4 & 1u8) << 4u8),
    ;
}

/// A write with bit 7 set empties the shift register, whatever it held, and sets
/// the PRG mode bits of the control register.
pub proof fn lemma_reset_write(r: Mmc1Regs, addr: u16, val: u8)
    requires
        val & 0x80u8 != 0,
    ensures
        mmc1_next(r, addr, val).shift == 0x10,
        mmc1_next(r, addr, val).control == r.control | 0x0Cu8,
        mmc1_next(r, addr, val).prg_bank == r.prg_bank,
{
}

/// Offset in a memory of `len` bytes of bank `index`, banks being `size` bytes and
/// the index wrapping around the number of banks present.
pub open spec fn bank_offset(index: int, len: int, size: int) -> int {
    if len < size {
        0
    } else {
        (index % (len / size)) * size
    }
}

/// Offsets of the PRG banks seen at 0x8000 and at 0xC000, by PRG mode (control bits 3-2).
pub open spec fn prg_offsets_for(r: Mmc1Regs, prg_len: int) -> (int, int) {
    let mode = (r.control >> 2u8) & 3u8;
    let bank = (r.prg_bank & 0x0Fu8) as int;
    if mode <= 1 {
        (
            bank_offset((r.prg_bank & 0x0Eu8) as int, prg_len, PRG_BANK as int),
            bank_offset(((r.prg_bank & 0x0Eu8) | 1u8) as int, prg_len, PRG_BANK as int),
        )
    } else if mode == 2 {
        (0, bank_offset(bank, prg_len, PRG_BANK as int))
    } else {
        (bank_offset(bank, prg_len, PRG_BANK as int), bank_offset(prg_len / PRG_BANK as int - 1, prg_len, PRG_BANK as int))
    }
}

/// Offsets of the CHR banks seen at 0x0000 and at 0x1000, by CHR mode (control bit 4).
pub open spec fn chr_offsets_for(r: Mmc1Regs, chr_len: int) -> (int, int) {
    if r.control & 0x10u8 == 0 {
        (
            bank_offset((r.chr_bank_0 & 0x1Eu8) as int, chr_len, CHR_BANK as int),
            bank_offset(((r.chr_bank_0 & 0x1Eu8) | 1u8) as int, chr_len, CHR_BANK as int),
        )
    } else {
        (
            bank_offset(r.chr_bank_0 as int, chr_len, CHR_BANK as int),
            bank_offset(r.chr_bank_1 as int, chr_len, CHR_BANK as int),
        )
    }
}

/// A bank offset, in a memory that holds a whole number of banks, leaves room for a
/// whole bank.
pub proof fn lemma_bank_offset_fits(index: int, len: int, size: int)
    requires
        0 <= index,
        0 < size,
        size <= len,
        len % size == 0,
    ensures
        0 <= bank_offset(index, len, size),
        bank_offset(index, len, size) + size <= len,
{
    let k = len / size;
    assert(k >= 1) by (nonlinear_arith)
        requires size <= len, 0 < size, k == len / size;
    assert(0 <= index % k < k);
    assert(0 <= (index % k) * size <= (k - 1) * size) by (nonlinear_arith)
        requires 0 <= index % k < k, 0 < size;
    assert(k * size == len) by (nonlinear_arith)
        requires k == len / size, len % size == 0, 0 < size;
    assert((k - 1) * size + size == k * size) by (nonlinear_arith);
}

/// MMC1 (mapper 1): PRG and CHR banks chosen through a five-write serial port.
pub struct Mapper {
    pub header: Header,
    pub prg_rom: Vec<u8>,
    /// CHR ROM, or 8 KiB of CHR RAM when the header lists none.
    pub chr: Vec<u8>,
    pub chr_is_ram: bool,
    pub shift_register: u8,
    pub control: u8,
    pub chr_bank_0: u8,
    pub chr_bank_1: u8,
    pub prg_bank: u8,
    /// Start in PRG ROM of the banks at 0x8000 and 0xC000.
    pub prg_offsets: [usize; 2],
    /// Start in CHR of the banks at 0x0000 and 0x1000.
    pub chr_offsets: [usize; 2],
}

impl Mapper {
    /// The serial-port state.
    pub open spec fn regs(&self) -> Mmc1Regs {
        Mmc1Regs {
            shift: self.shift_register,
            control: self.control,
            chr_bank_0: self.chr_bank_0,
            chr_bank_1: self.chr_bank_1,
            prg_bank: self.prg_bank,
        }
    }

    /// Byte offset in CHR that the pattern address `addr` (below 0x2000) reaches.
    pub open spec fn chr_index(&self, addr: u16) -> int {
        let offs = chr_offsets_for(self.regs(), self.chr@.len() as int);
        (if addr < 0x1000 { offs.0 } else { offs.1 }) + (addr % 0x1000) as int
    }

    /// Byte offset in PRG that the CPU address `addr` (from 0x8000) reaches.
    pub open spec fn prg_index(&self, addr: u16) -> int {
        let offs = prg_offsets_for(self.regs(), self.prg_rom@.len() as int);
        (if addr < 0xC000 { offs.0 } else { offs.1 }) + (addr % 0x4000) as int
    }

    pub fn new(header: Header, data: Vec<u8>) -> (m: Mapper)
        requires
            data@.len() >= header.body_len(),
        ensures
            m.header == header,
            m.prg_rom@ == data@.subrange(0, header.prg_rom_size * PRG_UNIT),
            m.chr_is_ram == (header.chr_rom_size == 0),
            !m.chr_is_ram ==> m.chr@ == data@.subrange(header.prg_rom_size * PRG_UNIT, header.body_len()),
            m.chr_is_ram ==> m.chr@ == Seq::new(CHR_UNIT as nat, |i: int| 0u8),
            m.regs() == (Mmc1Regs { shift: 0x10, control: 0x0C, chr_bank_0: 0, chr_bank_1: 0, prg_bank: 0 }),
            crate::mapper::Mapper::wf(&m),
    {
        let (prg_rom, chr, chr_is_ram) = split_body(&header, data);
        let mut m = Mapper {
            header,
            prg_rom,
            chr,
            chr_is_ram,
            shift_register: 0x10,
            control: 0x0C,
            chr_bank_0: 0,
            chr_bank_1: 0,
            prg_bank: 0,
            prg_offsets: [0, 0],
            chr_offsets: [0, 0],
        };
        m.update_offsets();
        m
    }

    /// Offset of PRG bank `index`, wrapping around the banks present.
    fn prg_offset(&self, index: usize) -> (r: usize)
        requires
            self.prg_rom.len() % PRG_BANK == 0,
        ensures
            r == bank_offset(index as int, self.prg_rom@.len() as int, PRG_BANK as int),
            self.prg_rom@.len() >= PRG_BANK ==> r + PRG_BANK <= self.prg_rom@.len(),
    {
        let len = self.prg_rom.len();
        if len < PRG_BANK {
            0
        } else {
            proof {
                lemma_bank_offset_fits(index as int, len as int, PRG_BANK as int);
            }
            (index % (len / PRG_BANK)) * PRG_BANK
        }
    }

    /// Offset of CHR bank `index`, wrapping around the banks present.
    fn chr_offset(&self, index: usize) -> (r: usize)
        requires
            self.chr.len() % CHR_BANK == 0,
        ensures
            r == bank_offset(index as int, self.chr@.len() as int, CHR_BANK as int),
            self.chr@.len() >= CHR_BANK ==> r + CHR_BANK <= self.chr@.len(),
    {
        let len = self.chr.len();
        if len < CHR_BANK {
            0
        } else {
            proof {
                lemma_bank_offset_fits(index as int, len as int, CHR_BANK as int);
            }
            (index % (len / CHR_BANK)) * CHR_BANK
        }
    }

    /// Recomputes the bank offsets from the control, CHR and PRG registers.
    fn update_offsets(&mut self)
        requires
            old(self).prg_rom.len() % PRG_BANK == 0,
            old(self).chr.len() % CHR_BANK == 0,
        ensures
            final(self).header == old(self).header,
            final(self).prg_rom == old(self).prg_rom,
            final(self).chr == old(self).chr,
            final(self).chr_is_ram == old(self).chr_is_ram,
            final(self).regs() == old(self).regs(),
            final(self).prg_offsets@[0] == prg_offsets_for(old(self).regs(), old(self).prg_rom@.len() as int).0,
            final(self).prg_offsets@[1] == prg_offsets_for(old(self).regs(), old(self).prg_rom@.len() as int).1,
            final(self).chr_offsets@[0] == chr_offsets_for(old(self).regs(), old(self).chr@.len() as int).0,
            final(self).chr_offsets@[1] == chr_offsets_for(old(self).regs(), old(self).chr@.len() as int).1,
    {
        let bank = self.prg_bank as usize;
        let mode = (self.control >> 2) & 3;
        let (p0, p1) = if mode <= 1 {
            (self.prg_offset((self.prg_bank & 0x0E) as usize), self.prg_offset(((self.prg_bank & 0x0E) | 1) as usize))
        } else if mode == 2 {
            (0, self.prg_offset((self.prg_bank & 0x0F) as usize))
        } else {
            let last = if self.prg_rom.len() < PRG_BANK { 0 } else { self.prg_rom.len() / PRG_BANK - 1 };
            (self.prg_offset((self.prg_bank & 0x0F) as usize), self.prg_offset(last))
        };
        let (c0, c1) = if self.control & 0x10 == 0 {
            (self.chr_offset((self.chr_bank_0 & 0x1E) as usize), self.chr_offset(((self.chr_bank_0 & 0x1E) | 1) as usize))
        } else {
            (self.chr_offset(self.chr_bank_0 as usize), self.chr_offset(self.chr_bank_1 as usize))
        };
        self.prg_offsets = [p0, p1];
        self.chr_offsets = [c0, c1];
    }

    /// Feeds a write at `addr` (0x8000..=0xFFFF) into the serial port.
    fn write_shift_register(&mut self, addr: u16, val: u8)
        requires
            crate::mapper::Mapper::wf(old(self)),
        ensures
            crate::mapper::Mapper::wf(final(self)),
            final(self).header == old(self).header,
            final(self).prg_rom == old(self).prg_rom,
            final(self).chr == old(self).chr,
            final(self).chr_is_ram == old(self).chr_is_ram,
            final(self).regs() == mmc1_next(old(self).regs(), addr, val),
    {
        if val & 0x80 != 0 {
            self.shift_register = 0x10;
            self.control = self.control | 0x0C;
            self.update_offsets();
        } else {
            let s = self.shift_register;
            let done = s & 0x01 == 0x01;
            let v = (s >> 1) | ((val & 0x01) << 4);
            assert(v < 0x20) by (bit_vector)
                requires s < 0x20u8, v == (s >> 1u8) | ((val & 1u8) << 4u8);
            if done {
                let sel = (addr >> 13) & 3;
                if sel == 0 {
                    self.control = v;
                } else if sel == 1 {
                    self.chr_bank_0 = v;
                } else if sel == 2 {
                    self.chr_bank_1 = v;
                } else {
                    self.prg_bank = v;
                }
                self.shift_register = 0x10;
                self.update_offsets();
            } else {
                self.shift_register = v;
            }
        }
    }
}

impl crate::mapper::Mapper for Mapper {
    open spec fn wf(&self) -> bool {
        &&& self.prg_rom@.len() == self.header.prg_rom_size * PRG_UNIT
        &&& self.chr@.len() >= CHR_UNIT
        &&& self.chr.len() % CHR_BANK == 0
        &&& self.shift_register < 0x20
        &&& self.prg_offsets@[0] == prg_offsets_for(self.regs(), self.prg_rom@.len() as int).0
        &&& self.prg_offsets@[1] == prg_offsets_for(self.regs(), self.prg_rom@.len() as int).1
        &&& self.chr_offsets@[0] == chr_offsets_for(self.regs(), self.chr@.len() as int).0
        &&& self.chr_offsets@[1] == chr_offsets_for(self.regs(), self.chr@.len() as int).1
    }

    open spec fn peek(&self, addr: u16) -> u8 {
        if addr < 0x2000 {
            self.chr@[self.chr_index(addr)]
        } else if addr < 0x8000 || self.prg_rom@.len() == 0 {
            0
        } else {
            self.prg_rom@[self.prg_index(addr)]
        }
    }

    open spec fn wrote(&self, before: Self, addr: u16, val: u8) -> bool {
        &&& self.header == before.header
        &&& self.prg_rom@ == before.prg_rom@
        &&& self.chr_is_ram == before.chr_is_ram
        &&& self.chr@ == if before.chr_is_ram && addr < 0x2000 {
            before.chr@.update(before.chr_index(addr), val)
        } else {
            before.chr@
        }
        &&& self.regs() == if addr >= 0x8000 {
            mmc1_next(before.regs(), addr, val)
        } else {
            before.regs()
        }
    }

    fn readb(&self, addr: u16) -> (r: u8) {
        if addr < 0x2000 {
            let bank = if addr < 0x1000 { self.chr_offsets[0] } else { self.chr_offsets[1] };
            proof {
                lemma_offsets_fit(self);
            }
            self.chr[bank + (addr % 0x1000) as usize]
        } else if addr < 0x8000 || self.prg_rom.len() == 0 {
            0
        } else {
            let bank = if addr < 0xC000 { self.prg_offsets[0] } else { self.prg_offsets[1] };
            proof {
                lemma_offsets_fit(self);
            }
            self.prg_rom[bank + (addr % 0x4000) as usize]
        }
    }

    fn writeb(&mut self, addr: u16, val: u8) {
        if addr < 0x2000 {
            if self.chr_is_ram {
                let bank = if addr < 0x1000 { self.chr_offsets[0] } else { self.chr_offsets[1] };
                proof {
                    lemma_offsets_fit(self);
                }
                self.chr.set(bank + (addr % 0x1000) as usize, val);
            }
        } else if addr >= 0x8000 {
            self.write_shift_register(addr, val);
        }
    }
}

/// Every bank offset of a well-formed MMC1 leaves room for a whole bank.
proof fn lemma_offsets_fit(m: &Mapper)
    requires
        crate::mapper::Mapper::wf(m),
    ensures
        m.chr_offsets@[0] + CHR_BANK <= m.chr@.len(),
        m.chr_offsets@[1] + CHR_BANK <= m.chr@.len(),
        m.prg_rom@.len() > 0 ==> m.prg_offsets@[0] + PRG_BANK <= m.prg_rom@.len(),
        m.prg_rom@.len() > 0 ==> m.prg_offsets@[1] + PRG_BANK <= m.prg_rom@.len(),
{
    let r = m.regs();
    let pl = m.prg_rom@.len() as int;
    let cl = m.chr@.len() as int;
    assert forall|i: int| 0 <= i implies bank_offset(i, cl, CHR_BANK as int) + CHR_BANK <= cl by {
        lemma_bank_offset_fits(i, cl, CHR_BANK as int);
    }
    if pl > 0 {
        assert(pl % PRG_BANK as int == 0 && pl >= PRG_BANK);
        assert forall|i: int| 0 <= i implies bank_offset(i, pl, PRG_BANK as int) + PRG_BANK <= pl by {
            lemma_bank_offset_fits(i, pl, PRG_BANK as int);
        }
        assert(pl / PRG_BANK as int - 1 >= 0);
    }
}

} // verus!

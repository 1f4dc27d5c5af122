use vstd::prelude::*;
use crate::cpu::CPU;
use crate::instructions::stack_slot;
use crate::ppu::{mapped, PPU};
use crate::ppu_register::{AddressLatch, Register};

verus! {

/// A byte written to internal RAM at `addr` (below 0x0800) reads back at `addr` and at
/// each of its three mirrors `addr + 0x0800 * k`.
pub proof fn lemma_ram_mirror(before: CPU, after: CPU, addr: u16, val: u8, k: int)
    requires
        before.wf(),
        addr < 0x0800,
        0 <= k <= 3,
        after.wrote(before, addr, val),
    ensures
        after.peek((addr + 0x0800 * k) as u16) == val,
{
}

/// After a write to PPUCTRL, PPUMASK, OAMADDR, PPUSCROLL or PPUADDR, a read of the same
/// register returns the byte written.
pub proof fn lemma_register_reads_back(before: PPU, after: PPU, reg: Register, val: u8)
    requires
        reg == Register::PPUCTRL || reg == Register::PPUMASK || reg == Register::OAMADDR
            || reg == Register::PPUSCROLL || reg == Register::PPUADDR,
        after.wrote(before, reg, val),
    ensures
        after.peek(reg) == val,
{
    if reg == Register::PPUSCROLL {
        let s = before.ppuscroll;
        assert((((s & 0x00FFu16) | ((val as u16) << 8u16)) >> 8u16) as u8 == val) by (bit_vector);
        assert(((s & 0xFF00u16) | (val as u16)) as u8 == val) by (bit_vector);
    } else if reg == Register::PPUADDR {
        let a = before.ppuaddr;
        assert(((a << 8u16) | (val as u16)) as u8 == val) by (bit_vector);
    }
}

/// A byte written through OAMDATA reads back through OAMDATA once OAMADDR is set to
/// the same slot again.
pub proof fn lemma_oam_reads_back(p0: PPU, p1: PPU, p2: PPU, p3: PPU, slot: u8, val: u8)
    requires
        p0.wf(),
        p1.wrote(p0, Register::OAMADDR, slot),
        p2.wrote(p1, Register::OAMDATA, val),
        p3.wrote(p2, Register::OAMADDR, slot),
    ensures
        p3.peek(Register::OAMDATA) == val,
{
}

/// A CPU write at 0x2000 + k and one at 0x2008 + k (k below 8) allow exactly the same
/// outcomes.
pub proof fn lemma_register_mirror(before: CPU, after: CPU, k: u16, val: u8)
    requires
        k < 8,
    ensures
        after.wrote(before, (0x2000 + k) as u16, val) == after.wrote(before, (0x2008 + k) as u16, val),
{
    assert(((0x2000 + k) as u16) % 8 == ((0x2008 + k) as u16) % 8);
}

/// Reading PPUSTATUS clears its VBlank bit, so that the next read shows it clear, and
/// puts the write latch back on the high byte.
pub proof fn lemma_status_read(p: PPU)
    ensures
        p.after_read(Register::PPUSTATUS).peek(Register::PPUSTATUS) & 0x80u8 == 0,
        p.after_read(Register::PPUSTATUS).address_latch == AddressLatch::HI,
{
    let s = p.ppustatus;
    assert((s & 0x7Fu8) & 0x80u8 == 0) by (bit_vector);
}

/// Two PPUADDR writes, `hi` then `lo`, set the address to `hi << 8 | lo`; a PPUDATA write
/// that follows stores its byte at that address (for a nametable or palette address),
/// and a PPUDATA read that follows fetches from it.
pub proof fn lemma_address_assembly(p0: PPU, p1: PPU, p2: PPU, p3: PPU, hi: u8, lo: u8, val: u8)
    requires
        p0.wf(),
        p1.wrote(p0, Register::PPUADDR, hi),
        p2.wrote(p1, Register::PPUADDR, lo),
        p3.wrote(p2, Register::PPUDATA, val),
    ensures
        p2.ppuaddr == ((hi as u16) << 8u16) | (lo as u16),
        mapped(p2.ppuaddr) >= 0x2000 ==> p3.vram(p2.ppuaddr) == val,
        p2.ppuaddr % 0x4000 < 0x3F00 ==> p2.after_read(Register::PPUDATA).ppudata_buffer == p2.vram(p2.ppuaddr),
        p2.ppuaddr % 0x4000 >= 0x3F00 ==> p2.peek(Register::PPUDATA) == p2.vram(p2.ppuaddr),
{
    let a = p0.ppuaddr;
    assert((((((a << 8u16) | (hi as u16)) as u16) << 8u16) | (lo as u16)) as u16 == ((hi as u16) << 8u16) | (lo as u16)) by (bit_vector);
    let m = mapped(p2.ppuaddr);
    if m >= 0x2000 {
        if m < 0x3000 {
            assert(p3.nametables@[m - 0x2000] == val);
        } else {
            assert(p3.palette_ram_idx@[(m % 0x20) as int] == val);
        }
    }
}

/// A byte written through PPUDATA at a nametable or palette address comes back
/// through PPUDATA once the same address is set again: from the palette at once, from
/// a nametable through the read buffer (the read fills it with the byte).
pub proof fn lemma_data_round_trip(
    p0: PPU, p1: PPU, p2: PPU, p3: PPU, p4: PPU, p5: PPU, hi: u8, lo: u8, val: u8,
)
    requires
        p0.wf(),
        p1.wrote(p0, Register::PPUADDR, hi),
        p2.wrote(p1, Register::PPUADDR, lo),
        p3.wrote(p2, Register::PPUDATA, val),
        p4.wrote(p3, Register::PPUADDR, hi),
        p5.wrote(p4, Register::PPUADDR, lo),
        mapped(((hi as u16) << 8u16) | (lo as u16)) >= 0x2000,
    ensures
        p5.ppuaddr == ((hi as u16) << 8u16) | (lo as u16),
        p5.ppuaddr % 0x4000 >= 0x3F00 ==> p5.peek(Register::PPUDATA) == val,
        p5.ppuaddr % 0x4000 < 0x3F00 ==> p5.after_read(Register::PPUDATA).ppudata_buffer == val,
{
    lemma_address_assembly(p0, p1, p2, p3, hi, lo, val);
    let a = p3.ppuaddr;
    assert((((((a << 8u16) | (hi as u16)) as u16) << 8u16) | (lo as u16)) as u16 == ((hi as u16) << 8u16) | (lo as u16)) by (bit_vector);
    assert(p5.nametables == p3.nametables && p5.palette_ram_idx == p3.palette_ram_idx);
    assert(p5.vram(p5.ppuaddr) == p3.vram(p2.ppuaddr));
}

/// A byte pushed is the byte the next pull returns, and the pull brings the stack
/// pointer back.
pub proof fn lemma_push_pop(c0: CPU, c1: CPU, val: u8)
    requires
        c0.wf(),
        c1.pushed(c0, val),
    ensures
        c1.stack_top() == val,
        c1.reg.s.wrapping_add(1) == c0.reg.s,
{
}

/// A word pushed is the word the next two pulls return; the push lowers the stack
/// pointer by two and the pulls bring it back.
pub proof fn lemma_push_pop_word(c0: CPU, c1: CPU, val: u16)
    requires
        c0.wf(),
        c1.pushed_word(c0, val, c0.reg.pc),
    ensures
        c1.stack_word() == val,
        c1.reg.s == c0.reg.s.wrapping_sub(2),
        c1.reg.s.wrapping_add(2) == c0.reg.s,
{
    let s = c0.reg.s;
    assert(stack_slot(s) != stack_slot(s.wrapping_sub(1)));
    assert(s.wrapping_sub(2).wrapping_add(1) == s.wrapping_sub(1));
    assert(s.wrapping_sub(2).wrapping_add(2) == s);
    assert(((((val >> 8u16) as u8) as u16) << 8u16) | ((val as u8) as u16) == val) by (bit_vector);
}

} // verus!

use vstd::prelude::*;

verus! {

/// Bytes in one unit of PRG ROM, as counted by the header.
pub const PRG_UNIT: usize = 0x4000;

/// Bytes in one unit of CHR ROM, as counted by the header.
pub const CHR_UNIT: usize = 0x2000;

/// The fields of an iNES header that select and size a mapper.
#[derive(Clone, Copy, Debug, PartialEq, Eq)]
pub struct Header {
    /// PRG ROM size in 16 KiB units.
    pub prg_rom_size: usize,
    /// CHR ROM size in 8 KiB units (0 means the board carries CHR RAM).
    pub chr_rom_size: usize,
    /// The iNES mapper number.
    pub mapper: u8,
}

/// The mapper number that an iNES header names.
pub open spec fn mapper_number(flags6: u8, flags7: u8) -> u8 {
    (flags7 & 0x80u8) | (flags6 >> 4u8)
}

impl Header {
    /// Total body length (PRG then CHR) that this header asks for.
    pub open spec fn body_len(&self) -> int {
        self.prg_rom_size * PRG_UNIT + self.chr_rom_size * CHR_UNIT
    }

    pub fn from_bytes(data: [u8; 16]) -> (h: Header)
        ensures
            h.prg_rom_size == data@[4] as usize,
            h.chr_rom_size == data@[5] as usize,
            h.mapper == mapper_number(data@[6], data@[7]),
    {
        Header {
            prg_rom_size: data[4] as usize,
            chr_rom_size: data[5] as usize,
            mapper: (data[7] & 0x80) | (data[6] >> 4),
        }
    }
}

/// Splits an iNES body into its PRG ROM and its pattern memory. A header that lists no
/// CHR ROM gets 8 KiB of zeroed CHR RAM instead, flagged by the returned `bool`.
pub fn split_body(header: &Header, data: Vec<u8>) -> (r: (Vec<u8>, Vec<u8>, bool))
    requires
        data@.len() >= header.body_len(),
    ensures
        r.0@ == data@.subrange(0, header.prg_rom_size * PRG_UNIT),
        r.2 == (header.chr_rom_size == 0),
        !r.2 ==> r.1@ == data@.subrange(header.prg_rom_size * PRG_UNIT, header.body_len()),
        r.2 ==> r.1@ == Seq::new(CHR_UNIT as nat, |i: int| 0u8),
{
    let n = data.len();
    assert(header.prg_rom_size * PRG_UNIT <= n && header.chr_rom_size * CHR_UNIT <= n);
    let mut prg = data;
    let prg_len = header.prg_rom_size * PRG_UNIT;
    let chr_len = header.chr_rom_size * CHR_UNIT;
    let mut chr = prg.split_off(prg_len);
    chr.truncate(chr_len);
    if chr_len == 0 {
        let ram = zeroed(CHR_UNIT);
        (prg, ram, true)
    } else {
        (prg, chr, false)
    }
}

/// A vector of `n` zero bytes.
pub fn zeroed(n: usize) -> (v: Vec<u8>)
    ensures
        v@ == Seq::new(n as nat, |i: int| 0u8),
{
    let mut v: Vec<u8> = Vec::new();
    let mut i: usize = 0;
    while i < n
        invariant
            i <= n,
            v@ == Seq::new(i as nat, |j: int| 0u8),
        decreases n - i,
    {
        v.push(0);
        i = i + 1;
        assert(v@ =~= Seq::new(i as nat, |j: int| 0u8));
    }
    v
}

/// The capabilities a cartridge board offers to the CPU and PPU buses: a read and a
/// write of one byte at a 16-bit address. Addresses below 0x2000 reach the pattern
/// tables (CHR), addresses from 0x8000 reach the program (PRG).
pub trait Mapper: Sized {
    /// Well-formedness of the board's state.
    spec fn wf(&self) -> bool;

    /// The byte that a read at `addr` returns.
    spec fn peek(&self, addr: u16) -> u8;

    /// `self` is the board after writing `val` at `addr` on `before`.
    spec fn wrote(&self, before: Self, addr: u16, val: u8) -> bool;

    fn readb(&self, addr: u16) -> (r: u8)
        requires
            self.wf(),
        ensures
            r == self.peek(addr),
    ;

    fn writeb(&mut self, addr: u16, val: u8)
        requires
            old(self).wf(),
        ensures
            final(self).wf(),
            final(self).wrote(*old(self), addr, val),
    ;
}

} // verus!

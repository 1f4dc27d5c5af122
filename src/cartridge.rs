use vstd::prelude::*;
use crate::mapper::{mapper_number, Header, Mapper, CHR_UNIT, PRG_UNIT};
use crate::{mapper_000, mapper_001, mapper_003};

verus! {

/// Length of the iNES header.
pub const HEADER_LEN: usize = 16;

/// Why a ROM image cannot be loaded.
#[derive(Clone, Copy, Debug, PartialEq, Eq)]
pub enum RomError {
    /// The image is shorter than the 16-byte header.
    TooShort,
    /// The header names a mapper other than 0, 1 and 3.
    UnsupportedMapper(u8),
    /// The body is shorter than the PRG and CHR sizes that the header gives.
    Truncated,
}

/// The board inside a cartridge, one variant per supported mapper.
pub enum Board {
    Nrom(mapper_000::Mapper),
    Mmc1(mapper_001::Mapper),
    Cnrom(mapper_003::Mapper),
}

/// A loaded cartridge, shared by the CPU (PRG side) and the PPU (CHR side).
pub struct Cartridge {
    pub board: Board,
}

/// Whether this library implements mapper `n`.
pub open spec fn supported_mapper(n: u8) -> bool {
    n == 0 || n == 1 || n == 3
}

/// The header that the first 16 bytes of `data` hold.
pub open spec fn header_of(data: Seq<u8>) -> Header {
    Header {
        prg_rom_size: data[4] as usize,
        chr_rom_size: data[5] as usize,
        mapper: mapper_number(data[6], data[7]),
    }
}

impl Cartridge {
    pub open spec fn wf(&self) -> bool {
        match self.board {
            Board::Nrom(m) => m.wf(),
            Board::Mmc1(m) => m.wf(),
            Board::Cnrom(m) => m.wf(),
        }
    }

    /// The byte that a read at `addr` returns.
    pub open spec fn peek(&self, addr: u16) -> u8 {
        match self.board {
            Board::Nrom(m) => m.peek(addr),
            Board::Mmc1(m) => m.peek(addr),
            Board::Cnrom(m) => m.peek(addr),
        }
    }

    /// `self` is the cartridge after writing `val` at `addr` on `before`.
    pub open spec fn wrote(&self, before: Cartridge, addr: u16, val: u8) -> bool {
        match (self.board, before.board) {
            (Board::Nrom(m), Board::Nrom(b)) => m.wrote(b, addr, val),
            (Board::Mmc1(m), Board::Mmc1(b)) => m.wrote(b, addr, val),
            (Board::Cnrom(m), Board::Cnrom(b)) => m.wrote(b, addr, val),
            _ => false,
        }
    }

    /// The iNES mapper number of the board.
    pub open spec fn mapper_id(&self) -> u8 {
        match self.board {
            Board::Nrom(_) => 0,
            Board::Mmc1(_) => 1,
            Board::Cnrom(_) => 3,
        }
    }

    /// The PRG ROM of the board.
    pub open spec fn prg(&self) -> Seq<u8> {
        match self.board {
            Board::Nrom(m) => m.prg_rom@,
            Board::Mmc1(m) => m.prg_rom@,
            Board::Cnrom(m) => m.prg_rom@,
        }
    }

    /// The pattern memory of the board (CHR ROM, or CHR RAM).
    pub open spec fn chr(&self) -> Seq<u8> {
        match self.board {
            Board::Nrom(m) => m.chr@,
            Board::Mmc1(m) => m.chr@,
            Board::Cnrom(m) => m.chr@,
        }
    }

    pub fn read(&self, addr: u16) -> (r: u8)
        requires
            self.wf(),
        ensures
            r == self.peek(addr),
    {
        match &self.board {
            Board::Nrom(m) => m.readb(addr),
            Board::Mmc1(m) => m.readb(addr),
            Board::Cnrom(m) => m.readb(addr),
        }
    }

    pub fn write(&mut self, addr: u16, val: u8)
        requires
            old(self).wf(),
        ensures
            final(self).wf(),
            final(self).wrote(*old(self), addr, val),
            final(self).mapper_id() == old(self).mapper_id(),
    {
        match &mut self.board {
            Board::Nrom(m) => m.writeb(addr, val),
            Board::Mmc1(m) => m.writeb(addr, val),
            Board::Cnrom(m) => m.writeb(addr, val),
        }
    }

    /// Loads an iNES image: a 16-byte header, then the PRG ROM, then the CHR ROM.
    pub fn from_data(data: Vec<u8>) -> (r: Result<Cartridge, RomError>)
        ensures
            data@.len() < HEADER_LEN ==> r == Err::<Cartridge, RomError>(RomError::TooShort),
            data@.len() >= HEADER_LEN && !supported_mapper(header_of(data@).mapper) ==> r == Err::<
                Cartridge,
                RomError,
            >(RomError::UnsupportedMapper(header_of(data@).mapper)),
            data@.len() >= HEADER_LEN && supported_mapper(header_of(data@).mapper) && data@.len()
                - HEADER_LEN < header_of(data@).body_len() ==> r == Err::<Cartridge, RomError>(
                RomError::Truncated,
            ),
            data@.len() >= HEADER_LEN && supported_mapper(header_of(data@).mapper) && data@.len()
                - HEADER_LEN >= header_of(data@).body_len() ==> ({
                let h = header_of(data@);
                let prg_end = HEADER_LEN + h.prg_rom_size * PRG_UNIT;
                &&& r is Ok
                &&& r->Ok_0.wf()
                &&& r->Ok_0.mapper_id() == h.mapper
                &&& r->Ok_0.prg() == data@.subrange(HEADER_LEN as int, prg_end)
                &&& h.chr_rom_size > 0 ==> r->Ok_0.chr() == data@.subrange(prg_end, prg_end + h.chr_rom_size * CHR_UNIT)
                &&& h.chr_rom_size == 0 ==> r->Ok_0.chr() == Seq::new(CHR_UNIT as nat, |i: int| 0u8)
            }),
    {
        if data.len() < HEADER_LEN {
            return Err(RomError::TooShort);
        }
        let raw: [u8; 16] = [
            data[0], data[1], data[2], data[3], data[4], data[5], data[6], data[7],
            data[8], data[9], data[10], data[11], data[12], data[13], data[14], data[15],
        ];
        let header = Header::from_bytes(raw);
        if header.mapper != 0 && header.mapper != 1 && header.mapper != 3 {
            return Err(RomError::UnsupportedMapper(header.mapper));
        }
        let n = data.len() - HEADER_LEN;
        let body_len = header.prg_rom_size * PRG_UNIT + header.chr_rom_size * CHR_UNIT;
        if n < body_len {
            return Err(RomError::Truncated);
        }
        let mut head = data;
        let body = head.split_off(HEADER_LEN);
        assert(body@ =~= data@.subrange(HEADER_LEN as int, data@.len() as int));
        let board = if header.mapper == 0 {
            Board::Nrom(mapper_000::Mapper::new(header, body))
        } else if header.mapper == 1 {
            Board::Mmc1(mapper_001::Mapper::new(header, body))
        } else {
            Board::Cnrom(mapper_003::Mapper::new(header, body))
        };
        let c = Cartridge { board };
        assert(c.prg() =~= data@.subrange(HEADER_LEN as int, HEADER_LEN + header.prg_rom_size * PRG_UNIT));
        assert(header.chr_rom_size > 0 ==> c.chr() =~= data@.subrange(HEADER_LEN + header.prg_rom_size * PRG_UNIT, HEADER_LEN + header.body_len()));
        Ok(c)
    }
}

} // verus!

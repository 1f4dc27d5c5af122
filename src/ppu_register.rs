use vstd::prelude::*;

verus! {

/// The shared write latch of PPUSCROLL and PPUADDR: which byte the next write is.
#[derive(Clone, Copy, Debug, PartialEq, Eq, Structural)]
pub enum AddressLatch {
    LO,
    HI,
}

impl AddressLatch {
    pub fn next(&mut self)
        ensures
            *final(self) == (if *old(self) == AddressLatch::HI { AddressLatch::LO } else { AddressLatch::HI }),
    {
        match self {
            AddressLatch::LO => *self = AddressLatch::HI,
            AddressLatch::HI => *self = AddressLatch::LO,
        }
    }
}

/// The eight memory-mapped PPU registers, in address order from 0x2000.
#[derive(Clone, Copy, Debug, PartialEq, Eq, Structural)]
pub enum Register {
    PPUCTRL,
    PPUMASK,
    PPUSTATUS,
    OAMADDR,
    OAMDATA,
    PPUSCROLL,
    PPUADDR,
    PPUDATA,
}

/// The register that index `n` (taken modulo 8) names.
pub open spec fn register_of(n: int) -> Register {
    let k = n % 8;
    if k == 0 {
        Register::PPUCTRL
    } else if k == 1 {
        Register::PPUMASK
    } else if k == 2 {
        Register::PPUSTATUS
    } else if k == 3 {
        Register::OAMADDR
    } else if k == 4 {
        Register::OAMDATA
    } else if k == 5 {
        Register::PPUSCROLL
    } else if k == 6 {
        Register::PPUADDR
    } else {
        Register::PPUDATA
    }
}

impl From<usize> for Register {
    /// The register at index `n`, taken modulo 8 (so a CPU address in 0x2000..=0x3FFF
    /// may be passed as it is).
    fn from(n: usize) -> (r: Register) {
        let k = n % 8;
        if k == 0 {
            Register::PPUCTRL
        } else if k == 1 {
            Register::PPUMASK
        } else if k == 2 {
            Register::PPUSTATUS
        } else if k == 3 {
            Register::OAMADDR
        } else if k == 4 {
            Register::OAMDATA
        } else if k == 5 {
            Register::PPUSCROLL
        } else if k == 6 {
            Register::PPUADDR
        } else {
            Register::PPUDATA
        }
    }
}

impl vstd::std_specs::convert::FromSpecImpl<usize> for Register {
    open spec fn obeys_from_spec() -> bool {
        true
    }

    open spec fn from_spec(n: usize) -> Register {
        register_of(n as int)
    }
}

} // verus!

use vstd::prelude::*;
use crate::cartridge::Cartridge;
use crate::joypad::Joypad;
use crate::ppu::PPU;
use crate::ppu_register::register_of;
use crate::register::Registers;

verus! {

pub const NMI_VECTOR: u16 = 0xFFFA;
pub const RESET_VECTOR: u16 = 0xFFFC;
pub const BRK_VECTOR: u16 = 0xFFFE;
/// Bytes of internal RAM, mirrored through 0x0000..=0x1FFF.
pub const RAM_SIZE: usize = 0x0800;
/// Registers of the audio unit and I/O ports at 0x4000..=0x4017.
pub const APU_SIZE: usize = 0x0018;
/// CPU cycles that an OAM DMA holds the CPU.
pub const DMA_CYCLES: u16 = 513;

/// Why the CPU stopped.
#[derive(Clone, Copy, Debug, PartialEq, Eq)]
pub enum CpuError {
    /// The byte at the program counter is not an opcode this CPU implements.
    UnknownOpcode(u8),
}

/// The 6502 core and its bus: RAM, the PPU (which holds the cartridge), the audio
/// registers and two controllers.
pub struct CPU {
    pub reg: Registers,
    pub ram: Vec<u8>,
    pub apu: Vec<u8>,
    pub ppu: PPU,
    pub joypad_1: Joypad,
    pub joypad_2: Joypad,
    /// CPU cycles run since power-up.
    pub cycles: u64,
    /// Cycles that an OAM DMA in the current instruction added.
    pub stall: u16,
}

/// The byte that OAM DMA copies from `addr`: RAM and the cartridge are read, the
/// register pages give 0.
pub open spec fn dma_source(c: CPU, addr: u16) -> u8 {
    if addr < 0x2000 {
        c.ram@[(addr % 0x800) as int]
    } else if addr >= 0x4020 {
        c.ppu.cartridge.peek(addr)
    } else {
        0
    }
}

impl CPU {
    pub open spec fn wf(&self) -> bool {
        &&& self.ram@.len() == RAM_SIZE
        &&& self.apu@.len() == APU_SIZE
        &&& self.ppu.wf()
    }

    /// The byte that a bus read at `addr` returns.
    pub open spec fn peek(&self, addr: u16) -> u8 {
        if addr < 0x2000 {
            self.ram@[(addr % 0x800) as int]
        } else if addr < 0x4000 {
            self.ppu.peek(register_of((addr % 8) as int))
        } else if addr == 0x4016 {
            if self.joypad_1.peek() { 1 } else { 0 }
        } else if addr == 0x4017 {
            if self.joypad_2.peek() { 1 } else { 0 }
        } else if addr < 0x4018 {
            self.apu@[addr - 0x4000]
        } else if addr < 0x4020 {
            0
        } else {
            self.ppu.cartridge.peek(addr)
        }
    }

    /// The machine after a bus read at `addr`: PPU registers and controllers change
    /// when read, the rest does not.
    pub open spec fn after_read(&self, addr: u16) -> CPU {
        if 0x2000 <= addr < 0x4000 {
            CPU { ppu: self.ppu.after_read(register_of((addr % 8) as int)), ..*self }
        } else if addr == 0x4016 {
            CPU { joypad_1: self.joypad_1.after_read(), ..*self }
        } else if addr == 0x4017 {
            CPU { joypad_2: self.joypad_2.after_read(), ..*self }
        } else {
            *self
        }
    }

    /// `self` is `before` after a bus write of `val` at `addr`.
    pub open spec fn wrote(&self, before: CPU, addr: u16, val: u8) -> bool {
        if addr < 0x2000 {
            &&& self.ram@ == before.ram@.update((addr % 0x800) as int, val)
            &&& *self == CPU { ram: self.ram, ..before }
        } else if addr < 0x4000 {
            &&& self.ppu.wrote(before.ppu, register_of((addr % 8) as int), val)
            &&& self.ppu.wf()
            &&& *self == CPU { ppu: self.ppu, ..before }
        } else if addr == 0x4014 {
            &&& self.ppu.oam@ == Seq::new(256, |i: int| dma_source(before, (val as int * 256 + i) as u16))
            &&& self.ppu.wf()
            &&& self.apu@ == before.apu@.update(0x14, val)
            &&& *self == CPU {
                ppu: PPU { oam: self.ppu.oam, ..before.ppu },
                apu: self.apu,
                stall: DMA_CYCLES,
                ..before
            }
        } else if addr == 0x4016 {
            *self == CPU {
                joypad_1: Joypad { strobe: 0, strobe_high: val & 1u8 == 1, ..before.joypad_1 },
                joypad_2: Joypad { strobe: 0, strobe_high: val & 1u8 == 1, ..before.joypad_2 },
                ..before
            }
        } else if addr < 0x4018 {
            &&& self.apu@ == before.apu@.update(addr - 0x4000, val)
            &&& *self == CPU { apu: self.apu, ..before }
        } else if addr < 0x4020 {
            *self == before
        } else {
            &&& self.ppu.cartridge.wrote(before.ppu.cartridge, addr, val)
            &&& self.ppu.cartridge.wf()
            &&& *self == CPU { ppu: PPU { cartridge: self.ppu.cartridge, ..before.ppu }, ..before }
        }
    }

    /// Builds the machine around a cartridge and resets it.
    pub fn new(cartridge: Cartridge) -> (c: CPU)
        requires
            cartridge.wf(),
        ensures
            c.wf(),
            c.ppu.cartridge == cartridge,
            c.ram@ == Seq::new(RAM_SIZE as nat, |i: int| 0u8),
            c.reg.pc == ((cartridge.peek(0xFFFD) as u16) << 8u16) | (cartridge.peek(0xFFFC) as u16),
            c.reg.s == 0xFD,
            c.reg.p == 0x24,
            c.cycles == 0,
    {
        let mut cpu = CPU {
            reg: Registers::default(),
            ram: crate::mapper::zeroed(RAM_SIZE),
            apu: crate::mapper::zeroed(APU_SIZE),
            ppu: PPU::new(cartridge),
            joypad_1: Joypad::new(),
            joypad_2: Joypad::new(),
            cycles: 0,
            stall: 0,
        };
        cpu.reset();
        cpu
    }

    /// Loads the program counter from the reset vector and puts S and P in their
    /// power-up state.
    pub fn reset(&mut self)
        requires
            old(self).wf(),
        ensures
            final(self).wf(),
            final(self).reg.pc == old(self).read_word(RESET_VECTOR).0,
            final(self).reg.s == 0xFD,
            final(self).reg.p == 0x24,
            *final(self) == (CPU { reg: final(self).reg, ..old(self).read_word(RESET_VECTOR).1 }),
    {
        self.reg.pc = self.readw(RESET_VECTOR);
        self.reg.s = 0xFD;
        self.reg.p = 0x24;
    }

    /// Reads a byte on the bus.
    pub fn readb(&mut self, addr: u16) -> (r: u8)
        requires
            old(self).wf(),
        ensures
            final(self).wf(),
            r == old(self).peek(addr),
            *final(self) == old(self).after_read(addr),
    {
        if addr < 0x2000 {
            self.ram[(addr % 0x800) as usize]
        } else if addr < 0x4000 {
            self.ppu.read(addr % 8)
        } else if addr == 0x4016 {
            if self.joypad_1.state() { 1 } else { 0 }
        } else if addr == 0x4017 {
            if self.joypad_2.state() { 1 } else { 0 }
        } else if addr < 0x4018 {
            self.apu[(addr - 0x4000) as usize]
        } else if addr < 0x4020 {
            0
        } else {
            self.ppu.cartridge.read(addr)
        }
    }

    /// Reads a little-endian word whose low byte is at `lo` and high byte at `hi`.
    pub(crate) fn read_pair(&mut self, lo: u16, hi: u16) -> (r: u16)
        requires
            old(self).wf(),
        ensures
            final(self).wf(),
            (r, *final(self)) == old(self).read_pair_spec(lo, hi),
    {
        let l = self.readb(lo) as u16;
        let h = self.readb(hi) as u16;
        (h << 8) | l
    }

    /// Reads a little-endian word at `addr` and `addr + 1`.
    pub fn readw(&mut self, addr: u16) -> (r: u16)
        requires
            old(self).wf(),
        ensures
            final(self).wf(),
            (r, *final(self)) == old(self).read_word(addr),
    {
        self.read_pair(addr, addr.wrapping_add(1))
    }

    /// Reads a little-endian word from the zero page; the high byte comes from
    /// `addr + 1` taken within the zero page.
    pub(crate) fn readw_zp(&mut self, addr: u8) -> (r: u16)
        requires
            old(self).wf(),
        ensures
            final(self).wf(),
            (r, *final(self)) == old(self).read_pair_spec(addr as u16, addr.wrapping_add(1) as u16),
    {
        self.read_pair(addr as u16, addr.wrapping_add(1) as u16)
    }

    /// The word whose low byte is at `lo` and high byte at `hi`, and the machine after
    /// reading both.
    pub open spec fn read_pair_spec(&self, lo: u16, hi: u16) -> (u16, CPU) {
        let l = self.peek(lo);
        let s1 = self.after_read(lo);
        let h = s1.peek(hi);
        (((h as u16) << 8u16) | (l as u16), s1.after_read(hi))
    }

    /// The word at `addr` and `addr + 1`, and the machine after reading it.
    pub open spec fn read_word(&self, addr: u16) -> (u16, CPU) {
        self.read_pair_spec(addr, addr.wrapping_add(1))
    }

    /// The byte that OAM DMA copies from `addr`.
    fn dma_byte(&self, addr: u16) -> (r: u8)
        requires
            self.wf(),
        ensures
            r == dma_source(*self, addr),
    {
        if addr < 0x2000 {
            self.ram[(addr % 0x800) as usize]
        } else if addr >= 0x4020 {
            self.ppu.cartridge.read(addr)
        } else {
            0
        }
    }

    /// Copies page `page` into OAM.
    fn oam_dma(&mut self, page: u8)
        requires
            old(self).wf(),
        ensures
            final(self).wf(),
            final(self).ppu.oam@ == Seq::new(256, |i: int| dma_source(*old(self), (page as int * 256 + i) as u16)),
            *final(self) == (CPU { ppu: PPU { oam: final(self).ppu.oam, ..old(self).ppu }, ..*old(self) }),
    {
        let mut data = [0u8; 256];
        let base = (page as u16) * 256;
        let mut i: usize = 0;
        while i < 256
            invariant
                self.wf(),
                base == page as int * 256,
                i <= 256,
                forall|j: int| 0 <= j < i ==> data@[j] == dma_source(*self, (page as int * 256 + j) as u16),
            decreases 256 - i,
        {
            data[i] = self.dma_byte(base + i as u16);
            i = i + 1;
        }
        self.ppu.set_oam(&data);
        assert(self.ppu.oam@ =~= Seq::new(256, |i: int| dma_source(*old(self), (page as int * 256 + i) as u16)));
    }

    /// Writes a byte on the bus.
    pub fn writeb(&mut self, addr: u16, val: u8)
        requires
            old(self).wf(),
        ensures
            final(self).wf(),
            final(self).wrote(*old(self), addr, val),
    {
        if addr < 0x2000 {
            self.ram.set((addr % 0x800) as usize, val);
        } else if addr < 0x4000 {
            self.ppu.write(addr % 8, val);
        } else if addr == 0x4014 {
            self.oam_dma(val);
            self.apu.set(0x14, val);
            self.stall = DMA_CYCLES;
        } else if addr == 0x4016 {
            self.joypad_1.write(val);
            self.joypad_2.write(val);
        } else if addr < 0x4018 {
            self.apu.set((addr - 0x4000) as usize, val);
        } else if addr < 0x4020 {
        } else {
            self.ppu.cartridge.write(addr, val);
        }
    }
}

} // verus!

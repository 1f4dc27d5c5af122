use vstd::prelude::*;
use crate::cartridge::Cartridge;
use crate::ppu_register::{register_of, AddressLatch, Register};

verus! {

pub const SCREEN_WIDTH: usize = 256;
pub const SCREEN_HEIGHT: usize = 240;
/// Bytes in a frame: three (blue, green, red) per pixel.
pub const PIXEL_COUNT: usize = 184320;
/// PPU cycles in one scanline.
pub const CYCLES_PER_SCANLINE: u64 = 341;
/// The scanline on which VBlank starts.
pub const VBLANK_SCANLINE: u16 = 241;
/// The scanline on which VBlank ends and a frame is complete.
pub const LAST_SCANLINE: u16 = 261;
pub const PALETTE_BASE: u16 = 0x3F00;
pub const SPRITE_PALETTE_OFFSET: u16 = 0x10;

pub const STATUS_VBLANK: u8 = 0x80;
pub const STATUS_SPRITE_ZERO_HIT: u8 = 0x40;
pub const STATUS_SPRITE_OVERFLOW: u8 = 0x20;

/// The 64-colour master palette, three bytes (red, green, blue) per colour.
pub const PALETTE: [u8; 192] = [
    124, 124, 124, 0, 0, 252, 0, 0, 188, 68, 40, 188, 148, 0, 132, 168, 0, 32, 168, 16, 0, 136, 20,
    0, 80, 48, 0, 0, 120, 0, 0, 104, 0, 0, 88, 0, 0, 64, 88, 0, 0, 0, 0, 0, 0, 0, 0, 0, 188, 188,
    188, 0, 120, 248, 0, 88, 248, 104, 68, 252, 216, 0, 204, 228, 0, 88, 248, 56, 0, 228, 92, 16,
    172, 124, 0, 0, 184, 0, 0, 168, 0, 0, 168, 68, 0, 136, 136, 0, 0, 0, 0, 0, 0, 0, 0, 0, 248,
    248, 248, 60, 188, 252, 104, 136, 252, 152, 120, 248, 248, 120, 248, 248, 88, 152, 248, 120,
    88, 252, 160, 68, 248, 184, 0, 184, 248, 24, 88, 216, 84, 88, 248, 152, 0, 232, 216, 120, 120,
    120, 0, 0, 0, 0, 0, 0, 252, 252, 252, 164, 228, 252, 184, 184, 248, 216, 184, 248, 248, 184,
    248, 248, 164, 192, 240, 208, 176, 252, 224, 168, 248, 216, 120, 216, 248, 120, 184, 248, 184,
    184, 248, 216, 0, 252, 252, 248, 216, 248, 0, 0, 0, 0, 0, 0,
];

/// Folds a PPU-bus address onto the memory that serves it: 0x4000 and up mirror
/// 0x0000..=0x3FFF, 0x3000..=0x3EFF mirror the nametables, 0x3F20..=0x3FFF mirror the
/// palette.
pub open spec fn mapped(addr: u16) -> u16 {
    let a = addr % 0x4000;
    if 0x3000 <= a && a < 0x3F00 {
        (a - 0x1000) as u16
    } else if a >= 0x3F20 {
        ((a - 0x3F00) % 0x20 + 0x3F00) as u16
    } else {
        a
    }
}

/// PPUSTATUS with its VBlank bit cleared.
pub open spec fn status_cleared(status: u8) -> u8 {
    status & 0x7Fu8
}

pub struct PPU {
    pub ppuctrl: u8,
    pub ppumask: u8,
    pub ppustatus: u8,
    pub oamaddr: u8,
    pub ppuscroll: u16,
    pub ppuaddr: u16,
    /// PPU cycles received and not yet spent on a scanline.
    pub cycles: u64,
    /// Four 1 KiB nametables, each 960 tile indices and a 64-byte attribute table;
    /// 0x2000..=0x2FFF reaches them all, nametable `(addr >> 10) & 3`.
    pub nametables: Vec<u8>,
    /// 32 indices into the master palette: 16 for the background, 16 for sprites.
    pub palette_ram_idx: Vec<u8>,
    /// 64 sprites of four bytes: y, tile index, attributes, x.
    pub oam: Vec<u8>,
    pub address_latch: AddressLatch,
    pub scanline: u16,
    pub cartridge: Cartridge,
    /// The frame, 256 x 240 pixels of three bytes in blue, green, red order.
    pub screen: Vec<u8>,
    pub frame_complete: bool,
    pub ppudata_buffer: u8,
}

impl PPU {
    pub open spec fn wf(&self) -> bool {
        &&& self.nametables@.len() == 0x1000
        &&& self.palette_ram_idx@.len() == 0x20
        &&& self.oam@.len() == 0x100
        &&& self.screen@.len() == PIXEL_COUNT
        &&& self.cartridge.wf()
        &&& self.scanline < LAST_SCANLINE
        &&& self.cycles < CYCLES_PER_SCANLINE
    }

    /// The byte at `addr` on the PPU bus.
    pub open spec fn vram(&self, addr: u16) -> u8 {
        let a = mapped(addr);
        if a < 0x2000 {
            self.cartridge.peek(a)
        } else if a < 0x3000 {
            self.nametables@[a - 0x2000]
        } else {
            self.palette_ram_idx@[(a % 0x20) as int]
        }
    }

    /// `self` is `before` after writing `val` at `addr` on the PPU bus.
    pub open spec fn vram_wrote(&self, before: PPU, addr: u16, val: u8) -> bool {
        let a = mapped(addr);
        if a < 0x2000 {
            &&& self.cartridge.wrote(before.cartridge, a, val)
            &&& self.cartridge.wf()
            &&& *self == PPU { cartridge: self.cartridge, ..before }
        } else if a < 0x3000 {
            &&& self.nametables@ == before.nametables@.update(a - 0x2000, val)
            &&& *self == PPU { nametables: self.nametables, ..before }
        } else {
            &&& self.palette_ram_idx@ == before.palette_ram_idx@.update((a % 0x20) as int, val)
            &&& *self == PPU { palette_ram_idx: self.palette_ram_idx, ..before }
        }
    }

    /// The address step after a PPUDATA access: 1, or 32 when PPUCTRL bit 2 is set.
    pub open spec fn increment(&self) -> u16 {
        if self.ppuctrl & 0x04u8 == 0 { 1 } else { 32 }
    }

    /// The byte that a read of register `reg` returns. Write-only registers give back
    /// what they last latched: PPUCTRL, PPUMASK and OAMADDR their value, PPUSCROLL the
    /// byte last written, PPUADDR its low byte.
    pub open spec fn peek(&self, reg: Register) -> u8 {
        match reg {
            Register::PPUCTRL => self.ppuctrl,
            Register::PPUMASK => self.ppumask,
            Register::PPUSTATUS => self.ppustatus,
            Register::OAMADDR => self.oamaddr,
            Register::OAMDATA => self.oam@[self.oamaddr as int],
            Register::PPUSCROLL => if self.address_latch == AddressLatch::LO {
                (self.ppuscroll >> 8u16) as u8
            } else {
                self.ppuscroll as u8
            },
            Register::PPUADDR => self.ppuaddr as u8,
            Register::PPUDATA => if self.ppuaddr % 0x4000 < 0x3F00 {
                self.ppudata_buffer
            } else {
                self.vram(self.ppuaddr)
            },
        }
    }

    /// The PPU after a read of register `reg`.
    pub open spec fn after_read(&self, reg: Register) -> PPU {
        match reg {
            Register::PPUSTATUS => PPU {
                ppustatus: status_cleared(self.ppustatus),
                address_latch: AddressLatch::HI,
                ..*self
            },
            Register::PPUDATA => PPU {
                ppuaddr: self.ppuaddr.wrapping_add(self.increment()),
                ppudata_buffer: if self.ppuaddr % 0x4000 < 0x3F00 {
                    self.vram(self.ppuaddr)
                } else {
                    self.ppudata_buffer
                },
                ..*self
            },
            _ => *self,
        }
    }

    /// `self` is `before` after writing `val` into register `reg`. PPUSCROLL takes its
    /// high byte or low byte as the shared latch says, and toggles it. PPUADDR shifts
    /// the byte in (`addr << 8 | val`) and toggles the latch: two writes, high byte
    /// then low byte, assemble the address whatever the latch held, and after a
    /// PPUSTATUS read a single write shows in the low byte.
    pub open spec fn wrote(&self, before: PPU, reg: Register, val: u8) -> bool {
        match reg {
            Register::PPUCTRL => *self == PPU { ppuctrl: val, ..before },
            Register::PPUMASK => *self == PPU { ppumask: val, ..before },
            Register::PPUSTATUS => *self == before,
            Register::OAMADDR => *self == PPU { oamaddr: val, ..before },
            Register::OAMDATA => {
                &&& self.oam@ == before.oam@.update(before.oamaddr as int, val)
                &&& *self == PPU { oam: self.oam, oamaddr: before.oamaddr.wrapping_add(1), ..before }
            },
            Register::PPUSCROLL => *self == PPU {
                ppuscroll: if before.address_latch == AddressLatch::HI {
                    (before.ppuscroll & 0x00FFu16) | ((val as u16) << 8u16)
                } else {
                    (before.ppuscroll & 0xFF00u16) | (val as u16)
                },
                address_latch: if before.address_latch == AddressLatch::HI {
                    AddressLatch::LO
                } else {
                    AddressLatch::HI
                },
                ..before
            },
            Register::PPUADDR => *self == PPU {
                ppuaddr: ((before.ppuaddr << 8u16) | (val as u16)) as u16,
                address_latch: if before.address_latch == AddressLatch::HI {
                    AddressLatch::LO
                } else {
                    AddressLatch::HI
                },
                ..before
            },
            Register::PPUDATA => {
                let mid = PPU { ppuaddr: before.ppuaddr, ..*self };
                &&& self.ppuaddr == before.ppuaddr.wrapping_add(before.increment())
                &&& mid.vram_wrote(before, before.ppuaddr, val)
            },
        }
    }

    pub fn new(cartridge: Cartridge) -> (p: PPU)
        requires
            cartridge.wf(),
        ensures
            p.wf(),
            p.cartridge == cartridge,
            p.ppuctrl == 0 && p.ppumask == 0 && p.ppustatus == 0 && p.oamaddr == 0,
            p.ppuscroll == 0 && p.ppuaddr == 0 && p.ppudata_buffer == 0,
            p.address_latch == AddressLatch::HI,
            p.scanline == 0 && p.cycles == 0 && !p.frame_complete,
            p.nametables@ == Seq::new(0x1000, |i: int| 0u8),
            p.palette_ram_idx@ == Seq::new(0x20, |i: int| 0u8),
            p.oam@ == Seq::new(0x100, |i: int| 0u8),
            p.screen@ == Seq::new(PIXEL_COUNT as nat, |i: int| 0u8),
    {
        PPU {
            ppuctrl: 0,
            ppumask: 0,
            ppustatus: 0,
            oamaddr: 0,
            ppuscroll: 0,
            ppuaddr: 0,
            cycles: 0,
            nametables: crate::mapper::zeroed(0x1000),
            palette_ram_idx: crate::mapper::zeroed(0x20),
            oam: crate::mapper::zeroed(0x100),
            address_latch: AddressLatch::HI,
            scanline: 0,
            cartridge,
            screen: crate::mapper::zeroed(PIXEL_COUNT),
            frame_complete: false,
            ppudata_buffer: 0,
        }
    }

    /// Whether entering VBlank raises an NMI (PPUCTRL bit 7).
    pub fn vblank_nmi(&self) -> (r: bool)
        ensures
            r == (self.ppuctrl & 0x80u8 != 0),
    {
        self.ppuctrl & 0x80 != 0
    }

    /// Replaces the whole sprite table, as an OAM DMA does.
    pub fn set_oam(&mut self, data: &[u8; 256])
        requires
            old(self).wf(),
        ensures
            final(self).wf(),
            final(self).oam@ == data@,
            *final(self) == (PPU { oam: final(self).oam, ..*old(self) }),
    {
        let mut i: usize = 0;
        while i < 256
            invariant
                i <= 256,
                self.wf(),
                *self == (PPU { oam: self.oam, ..*old(self) }),
                forall|j: int| 0 <= j < i ==> self.oam@[j] == data@[j],
            decreases 256 - i,
        {
            self.oam.set(i, data[i]);
            i = i + 1;
        }
        assert(self.oam@ =~= data@);
    }

    pub fn set_vblank(&mut self, val: bool)
        ensures
            *final(self) == (PPU {
                ppustatus: if val {
                    old(self).ppustatus | STATUS_VBLANK
                } else {
                    old(self).ppustatus & !STATUS_VBLANK
                },
                ..*old(self)
            }),
    {
        if val {
            self.ppustatus = self.ppustatus | STATUS_VBLANK;
        } else {
            self.ppustatus = self.ppustatus & !STATUS_VBLANK;
        }
    }

    fn map_addr(addr: u16) -> (r: u16)
        ensures
            r == mapped(addr),
    {
        let a = addr % 0x4000;
        if 0x3000 <= a && a < 0x3F00 {
            a - 0x1000
        } else if a >= 0x3F20 {
            (a - 0x3F00) % 0x20 + 0x3F00
        } else {
            a
        }
    }

    /// Reads the byte at `addr` on the PPU bus.
    pub(crate) fn readb(&self, addr: u16) -> (r: u8)
        requires
            self.wf(),
        ensures
            r == self.vram(addr),
    {
        let a = PPU::map_addr(addr);
        if a < 0x2000 {
            self.cartridge.read(a)
        } else if a < 0x3000 {
            self.nametables[(a - 0x2000) as usize]
        } else {
            self.palette_ram_idx[(a % 0x20) as usize]
        }
    }

    /// Writes `val` at `addr` on the PPU bus.
    pub(crate) fn writeb(&mut self, addr: u16, val: u8)
        requires
            old(self).wf(),
        ensures
            final(self).wf(),
            final(self).vram_wrote(*old(self), addr, val),
    {
        let a = PPU::map_addr(addr);
        if a < 0x2000 {
            self.cartridge.write(a, val);
        } else if a < 0x3000 {
            self.nametables.set((a - 0x2000) as usize, val);
        } else {
            self.palette_ram_idx.set((a % 0x20) as usize, val);
        }
    }

    fn incr_ppuaddr(&mut self)
        ensures
            *final(self) == (PPU { ppuaddr: old(self).ppuaddr.wrapping_add(old(self).increment()), ..*old(self) }),
    {
        let inc: u16 = if (self.ppuctrl & 0x04) == 0 { 1 } else { 32 };
        self.ppuaddr = self.ppuaddr.wrapping_add(inc);
    }

    /// Reads register `addr` (0..=7).
    pub fn read(&mut self, addr: u16) -> (r: u8)
        requires
            old(self).wf(),
            addr <= 7,
        ensures
            r == old(self).peek(register_of(addr as int)),
            *final(self) == old(self).after_read(register_of(addr as int)),
            final(self).wf(),
    {
        let reg = Register::from(addr as usize);
        match reg {
            Register::PPUCTRL => self.ppuctrl,
            Register::PPUMASK => self.ppumask,
            Register::PPUSTATUS => {
                let val = self.ppustatus;
                self.ppustatus = self.ppustatus & 0x7F;
                self.address_latch = AddressLatch::HI;
                val
            },
            Register::OAMADDR => self.oamaddr,
            Register::OAMDATA => self.oam[self.oamaddr as usize],
            Register::PPUSCROLL => {
                if self.address_latch == AddressLatch::LO {
                    (self.ppuscroll >> 8) as u8
                } else {
                    self.ppuscroll as u8
                }
            },
            Register::PPUADDR => self.ppuaddr as u8,
            Register::PPUDATA => {
                let addr = self.ppuaddr;
                let val = self.readb(addr);
                self.incr_ppuaddr();
                if addr % 0x4000 < 0x3F00 {
                    let buffered = self.ppudata_buffer;
                    self.ppudata_buffer = val;
                    buffered
                } else {
                    val
                }
            },
        }
    }

    /// Writes `val` into register `addr` (0..=7).
    pub fn write(&mut self, addr: u16, val: u8)
        requires
            old(self).wf(),
            addr <= 7,
        ensures
            final(self).wf(),
            final(self).wrote(*old(self), register_of(addr as int), val),
    {
        let reg = Register::from(addr as usize);
        match reg {
            Register::PPUCTRL => self.ppuctrl = val,
            Register::PPUMASK => self.ppumask = val,
            Register::PPUSTATUS => {},
            Register::OAMADDR => self.oamaddr = val,
            Register::OAMDATA => {
                self.oam.set(self.oamaddr as usize, val);
                self.oamaddr = self.oamaddr.wrapping_add(1);
            },
            Register::PPUSCROLL => {
                let v = val as u16;
                match self.address_latch {
                    AddressLatch::HI => self.ppuscroll = (self.ppuscroll & 0x00FF) | (v << 8),
                    AddressLatch::LO => self.ppuscroll = (self.ppuscroll & 0xFF00) | v,
                }
                self.address_latch.next();
            },
            Register::PPUADDR => {
                self.ppuaddr = (self.ppuaddr << 8) | (val as u16);
                self.address_latch.next();
            },
            Register::PPUDATA => {
                let a = self.ppuaddr;
                self.writeb(a, val);
                self.incr_ppuaddr();
            },
        }
    }
}


/// The scanline that follows `s`: the counter runs through 0..=260.
pub open spec fn next_scanline(s: u16) -> u16 {
    if s + 1 >= LAST_SCANLINE { 0 } else { (s + 1) as u16 }
}

/// Whether one of the next `n` scanlines after `s` is `target`.
pub open spec fn reaches(s: int, n: int, target: int) -> bool {
    exists|j: int| 1 <= j <= n && #[trigger] ((s + j) % 261) == target
}

impl PPU {
    /// PPUSTATUS once the current scanline is drawn.
    pub open spec fn line_status(&self) -> u8 {
        if self.scanline < 240 {
            self.ppustatus
                | (if crate::render::sprites_on_line(self.oam@, self.scanline as int, 64) > 8 { STATUS_SPRITE_OVERFLOW } else { 0u8 })
                | (if self.line_zero_hit() { STATUS_SPRITE_ZERO_HIT } else { 0u8 })
        } else {
            self.ppustatus
        }
    }

    /// `self` is `before` after one scanline: the line drawn when visible, the
    /// counter moved on, VBlank set on entering 241, the status flags cleared and the
    /// frame completed on reaching 261.
    pub open spec fn line_stepped(&self, before: PPU) -> bool {
        &&& self.scanline == next_scanline(before.scanline)
        &&& self.frame_complete == (before.frame_complete || before.scanline + 1 == LAST_SCANLINE)
        &&& self.ppustatus == if before.scanline + 1 == VBLANK_SCANLINE {
            before.line_status() | STATUS_VBLANK
        } else if before.scanline + 1 == LAST_SCANLINE {
            before.line_status() & 0x1Fu8
        } else {
            before.line_status()
        }
        &&& before.scanline < 240 ==> self.row_rendered(before)
        &&& before.scanline >= 240 ==> self.screen == before.screen
        &&& *self == PPU {
            screen: self.screen,
            ppustatus: self.ppustatus,
            scanline: self.scanline,
            frame_complete: self.frame_complete,
            ..before
        }
    }

    /// `trace` lists the PPU before each scanline run by a tick that started from
    /// `before`, and `self` is the last of them with the leftover cycles.
    pub open spec fn ran(&self, before: PPU, trace: Seq<PPU>) -> bool {
        &&& trace.len() >= 1
        &&& trace[0] == PPU { frame_complete: false, ..before }
        &&& forall|i: int| 0 <= i < trace.len() - 1 ==> #[trigger] trace[i + 1].line_stepped(trace[i])
        &&& *self == PPU { cycles: self.cycles, ..trace.last() }
    }

    /// `self` is `before` after a tick of `cpu_cycles` CPU cycles that returned `nmi`:
    /// `n` scanlines run, one after the other as `line_stepped` says, where `n` is what
    /// the cycles pay for at 341 PPU cycles a line, three per CPU cycle.
    pub open spec fn ticked(&self, before: PPU, cpu_cycles: u64, nmi: bool) -> bool {
        let total = before.cycles + 3 * cpu_cycles;
        let n = total / 341;
        &&& self.wf()
        &&& self.cycles == total % 341
        &&& self.scanline == (before.scanline + n) % 261
        &&& self.frame_complete == reaches(before.scanline as int, n, 0)
        &&& nmi == (before.ppuctrl & 0x80u8 != 0 && reaches(before.scanline as int, n, 241))
        &&& exists|trace: Seq<PPU>| trace.len() == n + 1 && #[trigger] self.ran(before, trace)
    }

    /// Runs one scanline: draws it when visible, then moves the counter on; entering
    /// scanline 241 sets VBlank (and asks for an NMI when PPUCTRL bit 7 is set),
    /// reaching 261 clears the status flags, wraps to 0 and completes the frame.
    fn step_scanline(&mut self) -> (nmi: bool)
        requires
            old(self).wf(),
        ensures
            final(self).wf(),
            final(self).line_stepped(*old(self)),
            nmi == (old(self).scanline + 1 == VBLANK_SCANLINE && old(self).ppuctrl & 0x80u8 != 0),
    {
        if self.scanline < (SCREEN_HEIGHT as u16) {
            self.render_scanline();
        }
        self.scanline = self.scanline + 1;
        let mut nmi = false;
        if self.scanline == VBLANK_SCANLINE {
            self.set_vblank(true);
            nmi = self.vblank_nmi();
        } else if self.scanline == LAST_SCANLINE {
            self.ppustatus = self.ppustatus & 0x1F;
            self.frame_complete = true;
            self.scanline = 0;
        }
        nmi
    }

    /// Advances the PPU by three PPU cycles for each of `cpu_cycles` CPU cycles,
    /// running every scanline that the cycles pay for. Returns whether an NMI is to
    /// be raised on the CPU.
    pub fn tick(&mut self, cpu_cycles: u64) -> (nmi: bool)
        requires
            old(self).wf(),
            cpu_cycles <= 0xFFFF_FFFF,
        ensures
            final(self).ticked(*old(self), cpu_cycles, nmi),
    {
        let ghost s0 = self.scanline as int;
        let ghost total = self.cycles + 3 * cpu_cycles;
        self.frame_complete = false;
        let ghost mut trace: Seq<PPU> = seq![*self];
        let mut budget: u64 = self.cycles + 3 * cpu_cycles;
        let mut nmi = false;
        let ghost mut k: int = 0;
        while budget >= CYCLES_PER_SCANLINE
            invariant
                self.wf(),
                self.ppuctrl == old(self).ppuctrl,
                self.ppumask == old(self).ppumask,
                self.oam == old(self).oam,
                self.nametables == old(self).nametables,
                self.palette_ram_idx == old(self).palette_ram_idx,
                self.cycles == old(self).cycles,
                0 <= s0 < 261,
                s0 == old(self).scanline,
                total == old(self).cycles + 3 * cpu_cycles,
                k >= 0,
                budget + 341 * k == total,
                self.scanline == (s0 + k) % 261,
                self.frame_complete == reaches(s0, k, 0),
                nmi == (self.ppuctrl & 0x80u8 != 0 && reaches(s0, k, 241)),
                trace.len() == k + 1,
                trace[0] == (PPU { frame_complete: false, ..*old(self) }),
                forall|i: int| 0 <= i < trace.len() - 1 ==> #[trigger] trace[i + 1].line_stepped(trace[i]),
                trace.last() == *self,
            decreases budget,
        {
            let ghost before = self.scanline as int;
            let raised = self.step_scanline();
            proof {
                assert(self.scanline == (s0 + k + 1) % 261);
                if reaches(s0, k, 0) {
                    let j = choose|j: int| 1 <= j <= k && #[trigger] ((s0 + j) % 261) == 0;
                    assert(1 <= j <= k + 1 && (s0 + j) % 261 == 0);
                }
                if reaches(s0, k + 1, 0) && !reaches(s0, k, 0) {
                    let j = choose|j: int| 1 <= j <= k + 1 && #[trigger] ((s0 + j) % 261) == 0;
                    assert(j == k + 1);
                }
                if before + 1 == 261 {
                    assert((s0 + (k + 1)) % 261 == 0);
                }
                if reaches(s0, k, 241) {
                    let j = choose|j: int| 1 <= j <= k && #[trigger] ((s0 + j) % 261) == 241;
                    assert(1 <= j <= k + 1 && (s0 + j) % 261 == 241);
                }
                if reaches(s0, k + 1, 241) && !reaches(s0, k, 241) {
                    let j = choose|j: int| 1 <= j <= k + 1 && #[trigger] ((s0 + j) % 261) == 241;
                    assert(j == k + 1);
                }
                if before + 1 == 241 {
                    assert((s0 + (k + 1)) % 261 == 241);
                }
                k = k + 1;
                let t2 = trace.push(*self);
                assert forall|i: int| 0 <= i < t2.len() - 1 implies #[trigger] t2[i + 1].line_stepped(t2[i]) by {
                    if i < trace.len() - 1 {
                        assert(t2[i + 1] == trace[i + 1] && t2[i] == trace[i]);
                    }
                }
                trace = t2;
            }
            nmi = nmi || raised;
            budget = budget - CYCLES_PER_SCANLINE;
        }
        self.cycles = budget;
        proof {
            assert(total / 341 == k && total % 341 == budget) by (nonlinear_arith)
                requires budget + 341 * k == total, 0 <= budget < 341, k >= 0;
            assert(self.ran(*old(self), trace));
        }
        nmi
    }
}

} // verus!

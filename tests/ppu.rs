use shrimp::cartridge::Cartridge;
use shrimp::joypad::Joypad;
use shrimp::ppu::{PALETTE, PPU};
use shrimp::ppu_register::{AddressLatch, Register};
use shrimp::render::{Sprite, SpritePriority};

/// A PPU over an NROM cartridge with CHR RAM.
fn ppu() -> PPU {
    let mut data = vec![0u8; 16 + 0x4000];
    data[4] = 1;
    PPU::new(Cartridge::from_data(data).unwrap())
}

fn set_address(p: &mut PPU, addr: u16) {
    p.read(2);
    p.write(6, (addr >> 8) as u8);
    p.write(6, addr as u8);
}

#[test]
fn latch_reset_by_status_read() {
    let mut p = ppu();
    p.write(6, 0x3F);
    p.read(2);
    p.write(6, 0x00);
    p.write(6, 0x00);
    p.read(2);
    p.write(6, 0x21);
    assert_eq!(p.ppuaddr, 0x0021);
}

#[test]
fn status_read_clears_vblank_and_latch() {
    let mut p = ppu();
    p.set_vblank(true);
    p.write(6, 0x12);
    assert_eq!(p.address_latch, AddressLatch::LO);
    assert_eq!(p.read(2) & 0x80, 0x80);
    assert_eq!(p.address_latch, AddressLatch::HI);
    assert_eq!(p.read(2) & 0x80, 0);
}

#[test]
fn address_then_data_access() {
    let mut p = ppu();
    set_address(&mut p, 0x2105);
    p.write(7, 0x42);
    assert_eq!(p.ppuaddr, 0x2106);
    set_address(&mut p, 0x2105);
    // the first read returns the stale buffer, the second the byte
    p.read(7);
    set_address(&mut p, 0x2105);
    assert_eq!(p.read(7), 0x42);
    // mirror at 0x3105
    set_address(&mut p, 0x3105);
    p.read(7);
    assert_eq!(p.read(7), 0x42);
}

#[test]
fn data_increment_of_thirty_two() {
    let mut p = ppu();
    p.write(0, 0x04);
    set_address(&mut p, 0x2000);
    p.write(7, 1);
    assert_eq!(p.ppuaddr, 0x2020);
}

#[test]
fn palette_reads_are_direct() {
    let mut p = ppu();
    set_address(&mut p, 0x3F01);
    p.write(7, 0x2A);
    set_address(&mut p, 0x3F21);
    assert_eq!(p.read(7), 0x2A);
}

#[test]
fn registers_read_back() {
    let mut p = ppu();
    p.write(0, 0x90);
    assert_eq!(p.read(0), 0x90);
    p.write(1, 0x1E);
    assert_eq!(p.read(1), 0x1E);
    p.write(3, 0x40);
    assert_eq!(p.read(3), 0x40);
    p.write(5, 0x12);
    assert_eq!(p.read(5), 0x12);
    p.write(5, 0x34);
    assert_eq!(p.read(5), 0x34);
    assert_eq!(p.ppuscroll, 0x1234);
    p.write(6, 0x56);
    assert_eq!(p.read(6), 0x56);
    p.write(3, 0x40);
    p.write(4, 0x99);
    assert_eq!(p.oamaddr, 0x41);
    p.write(3, 0x40);
    assert_eq!(p.read(4), 0x99);
}

#[test]
fn register_from_index() {
    assert_eq!(Register::from(2usize), Register::PPUSTATUS);
    assert_eq!(Register::from(0x2007usize), Register::PPUDATA);
    assert_eq!(Register::from(0x200Ausize), Register::PPUSTATUS);
}

#[test]
fn set_oam_replaces_table() {
    let mut p = ppu();
    let mut data = [0u8; 256];
    for (i, b) in data.iter_mut().enumerate() {
        *b = 255 - i as u8;
    }
    p.set_oam(&data);
    assert_eq!(p.oam[0], 255);
    assert_eq!(p.oam[255], 0);
}

fn color(i: usize) -> [u8; 3] {
    [PALETTE[i * 3 + 2], PALETTE[i * 3 + 1], PALETTE[i * 3]]
}

#[test]
fn renders_background_pixel() {
    let mut p = ppu();
    // tile 0, row 0: leftmost pixel has colour index 1
    set_address(&mut p, 0x0000);
    p.write(7, 0x80);
    set_address(&mut p, 0x3F00);
    p.write(7, 0x0F);
    p.write(7, 0x01);
    p.write(1, 0x0A);
    p.scanline = 0;
    p.render_scanline();
    assert_eq!(&p.screen[0..3], &color(0x01));
    assert_eq!(&p.screen[3..6], &color(0x0F));
}

#[test]
fn renders_sprite_in_front_and_zero_hit() {
    let mut p = ppu();
    // tile 1 row 0 (the sprite's first row) and tile 0 row 1 (the background on
    // scanline 1): all eight pixels colour index 1
    set_address(&mut p, 0x0010);
    p.write(7, 0xFF);
    set_address(&mut p, 0x0001);
    p.write(7, 0xFF);
    set_address(&mut p, 0x3F01);
    p.write(7, 0x05);
    set_address(&mut p, 0x3F11);
    p.write(7, 0x06);
    // sprite 0 at x = 16, on scanline 1 (OAM y is one less), tile 1, in front
    let mut oam = [0xF0u8; 256];
    oam[0] = 0;
    oam[1] = 1;
    oam[2] = 0;
    oam[3] = 16;
    p.set_oam(&oam);
    p.write(1, 0x1E);
    p.scanline = 1;
    p.render_scanline();
    let px = |x: usize| [p.screen[(256 + x) * 3], p.screen[(256 + x) * 3 + 1], p.screen[(256 + x) * 3 + 2]];
    assert_eq!(px(15), color(0x05));
    assert_eq!(px(16), color(0x06));
    assert_eq!(px(23), color(0x06));
    assert_eq!(px(24), color(0x05));
    assert!(p.ppustatus & 0x40 != 0);
}

#[test]
fn sprite_overflow_after_eight() {
    let mut p = ppu();
    let mut oam = [0xF0u8; 256];
    for i in 0..9 {
        oam[i * 4] = 9;
    }
    p.set_oam(&oam);
    p.scanline = 12;
    p.render_scanline();
    assert!(p.ppustatus & 0x20 != 0);
}

#[test]
fn tick_reaches_vblank_and_frame_end() {
    let mut p = ppu();
    p.write(0, 0x80);
    // 241 scanlines of 341 PPU cycles, three per CPU cycle
    let nmi = p.tick(241 * 341 / 3 + 1);
    assert!(nmi);
    assert_eq!(p.scanline, 241);
    assert!(p.ppustatus & 0x80 != 0);
    assert!(!p.frame_complete);
    let nmi = p.tick(20 * 341 / 3 + 1);
    assert!(!nmi);
    assert_eq!(p.scanline, 0);
    assert!(p.frame_complete);
    assert_eq!(p.ppustatus & 0x80, 0);
}

#[test]
fn vblank_nmi_follows_control_bit() {
    let mut p = ppu();
    assert!(!p.vblank_nmi());
    p.write(0, 0x80);
    assert!(p.vblank_nmi());
}

#[test]
fn joypad_after_eight_reads_reports_one() {
    let mut j = Joypad::new();
    j.right = true;
    j.reset();
    let bits: Vec<bool> = (0..9).map(|_| j.state()).collect();
    assert_eq!(bits, vec![false, false, false, false, false, false, false, true, true]);
}

#[test]
fn sprite_attributes() {
    let s = Sprite { index: 3, x: 0, y: 0, attributes: 0b1110_0010, tile_index: 0 };
    assert_eq!(s.palette(), 8);
    assert_eq!(s.priority(), SpritePriority::Back);
    assert_eq!(s.flip(), (true, true));
    let t = Sprite { index: 3, x: 0, y: 0, attributes: 0b0100_0001, tile_index: 0 };
    assert_eq!(t.palette(), 4);
    assert_eq!(t.priority(), SpritePriority::Front);
    assert_eq!(t.flip(), (false, true));
}

#[test]
fn sprite_with_oam_y_ff_is_hidden() {
    let mut p = ppu();
    set_address(&mut p, 0x0000);
    p.write(7, 0xFF);
    set_address(&mut p, 0x3F11);
    p.write(7, 0x06);
    let mut oam = [0xF0u8; 256];
    for i in 0..9 {
        oam[i * 4] = 0xFF;
    }
    p.set_oam(&oam);
    p.write(1, 0x14);
    p.scanline = 0;
    p.render_scanline();
    assert_eq!(p.ppustatus & 0x20, 0);
    assert_eq!(&p.screen[0..3], &color(0x00));
}

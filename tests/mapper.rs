use shrimp::cartridge::{Cartridge, RomError};
use shrimp::mapper::{Header, Mapper};
use shrimp::mapper_001;

#[test]
fn test_write_shift_register() {
    let header = Header {
        prg_rom_size: 1,
        chr_rom_size: 0,
        mapper: 1,
    };
    let data = [0; 0x16000].to_vec();
    let mut m = mapper_001::Mapper::new(header, data);

    m.writeb(0xE000, 0x01); // 0b0001_1000;
    assert_eq!(m.shift_register, 0b0001_1000);

    m.writeb(0xE000, 0x00); // 0b0000_1100;
    assert_eq!(m.shift_register, 0b0000_1100);

    m.writeb(0xE000, 0x01); // 0b0001_0110;
    assert_eq!(m.shift_register, 0b0001_0110);

    m.writeb(0xE000, 0x00); // 0b0000_1011;
    assert_eq!(m.shift_register, 0b0000_1011);

    m.writeb(0xE000, 0x01); // shift register is reset to 0x10
    assert_eq!(m.shift_register, 0b0001_0000);
}

fn mmc1(prg_units: u8) -> mapper_001::Mapper {
    let header = Header {
        prg_rom_size: prg_units as usize,
        chr_rom_size: 0,
        mapper: 1,
    };
    let mut data = vec![0u8; prg_units as usize * 0x4000];
    for bank in 0..prg_units as usize {
        data[bank * 0x4000] = bank as u8;
    }
    mapper_001::Mapper::new(header, data)
}

#[test]
fn mmc1_five_writes_commit_to_selected_register() {
    let mut m = mmc1(8);
    // bits 1, 0, 1, 1, 0 (first write lowest) make 0b01101
    for (i, bit) in [1u8, 0, 1, 1, 0].iter().enumerate() {
        m.writeb(0xE000 + i as u16, *bit);
    }
    assert_eq!(m.prg_bank, 0b01101);
    assert_eq!(m.shift_register, 0x10);
    assert_eq!(m.control, 0x0C);
    // mode 3: bank 13 % 8 = 5 at 0x8000, the last bank at 0xC000
    assert_eq!(m.readb(0x8000), 5);
    assert_eq!(m.readb(0xC000), 7);
}

#[test]
fn mmc1_control_and_chr_registers() {
    let mut m = mmc1(2);
    for bit in [0u8, 1, 0, 0, 1] {
        m.writeb(0x8000, bit);
    }
    assert_eq!(m.control, 0b10010);
    for bit in [1u8, 0, 0, 0, 0] {
        m.writeb(0xA000, bit);
    }
    assert_eq!(m.chr_bank_0, 1);
    for bit in [0u8, 1, 0, 0, 0] {
        m.writeb(0xC000, bit);
    }
    assert_eq!(m.chr_bank_1, 2);
    // PRG mode 0: 32 KiB, bank pair 0/1
    assert_eq!(m.readb(0x8000), 0);
    assert_eq!(m.readb(0xC000), 1);
}

#[test]
fn mmc1_reset_write_restarts_the_sequence() {
    let mut m = mmc1(4);
    m.writeb(0xE000, 1);
    m.writeb(0xE000, 1);
    m.writeb(0xE000, 0x80);
    assert_eq!(m.shift_register, 0x10);
    assert_eq!(m.control & 0x0C, 0x0C);
    for bit in [1u8, 1, 0, 0, 0] {
        m.writeb(0xE000, bit);
    }
    assert_eq!(m.prg_bank, 3);
}

#[test]
fn mmc1_chr_ram_is_written_and_read_back() {
    let mut m = mmc1(1);
    m.writeb(0x0123, 0x77);
    assert_eq!(m.readb(0x0123), 0x77);
}

fn image(header6: u8, prg_units: u8, chr_units: u8, body_len: usize) -> Vec<u8> {
    let mut data = vec![0u8; 16 + body_len];
    data[0..4].copy_from_slice(b"NES\x1a");
    data[4] = prg_units;
    data[5] = chr_units;
    data[6] = header6;
    data
}

#[test]
fn header_from_bytes() {
    let mut raw = [0u8; 16];
    raw[4] = 2;
    raw[5] = 1;
    raw[6] = 0x10;
    raw[7] = 0x80;
    let h = Header::from_bytes(raw);
    assert_eq!(h.prg_rom_size, 2);
    assert_eq!(h.chr_rom_size, 1);
    assert_eq!(h.mapper, 0x81);
}

#[test]
fn rom_too_short() {
    assert!(matches!(Cartridge::from_data(vec![0; 15]), Err(RomError::TooShort)));
}

#[test]
fn rom_unsupported_mapper() {
    let data = image(0x20, 1, 0, 0x4000);
    assert!(matches!(Cartridge::from_data(data), Err(RomError::UnsupportedMapper(2))));
}

#[test]
fn rom_truncated() {
    let data = image(0x00, 1, 1, 0x4000 + 0x1000);
    assert!(matches!(Cartridge::from_data(data), Err(RomError::Truncated)));
}

#[test]
fn nrom_mirrors_sixteen_kib() {
    let mut data = image(0x00, 1, 1, 0x4000 + 0x2000);
    data[16 + 0x0010] = 0xAB;
    data[16 + 0x4000 + 0x0005] = 0xCD;
    let mut c = Cartridge::from_data(data).unwrap();
    assert_eq!(c.read(0x8010), 0xAB);
    assert_eq!(c.read(0xC010), 0xAB);
    assert_eq!(c.read(0x0005), 0xCD);
    // CHR ROM and PRG ROM ignore writes
    c.write(0x0005, 0x00);
    c.write(0x8010, 0x00);
    assert_eq!(c.read(0x0005), 0xCD);
    assert_eq!(c.read(0x8010), 0xAB);
}

#[test]
fn cnrom_selects_chr_bank_from_value() {
    let mut data = image(0x30, 1, 4, 0x4000 + 4 * 0x2000);
    for bank in 0..4 {
        data[16 + 0x4000 + bank * 0x2000] = 0x10 + bank as u8;
    }
    let mut c = Cartridge::from_data(data).unwrap();
    assert_eq!(c.read(0x0000), 0x10);
    c.write(0x8000, 0x02);
    assert_eq!(c.read(0x0000), 0x12);
    c.write(0x8003, 0x07);
    assert_eq!(c.read(0x0000), 0x13);
}

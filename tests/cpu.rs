use shrimp::cartridge::Cartridge;
use shrimp::cpu::{CpuError, CPU};
use shrimp::register::{Flag, Flags, Registers};

/// An NROM image with 16 KiB of PRG (`program` at 0x8000, the reset vector pointing
/// there) and CHR RAM.
fn machine(program: &[u8]) -> CPU {
    let mut data = vec![0u8; 16 + 0x4000];
    data[0..4].copy_from_slice(b"NES\x1a");
    data[4] = 1;
    data[16..16 + program.len()].copy_from_slice(program);
    data[16 + 0x3FFC] = 0x00;
    data[16 + 0x3FFD] = 0x80;
    CPU::new(Cartridge::from_data(data).unwrap())
}

#[test]
fn test_mirroring() {
    assert_eq!(2, 0x2002 % 0x08);
    assert_eq!(2, 0x200A % 0x08);
    assert_eq!(2, 0x2012 % 0x08);
    assert_eq!(0, 0x2000 % 0x08);
    assert_eq!(0, 0x2008 % 0x08);
    assert_eq!(0, 0x2010 % 0x08);
}

#[test]
fn nrom_reset_vector_and_self_jump() {
    let mut cpu = machine(&[0x4C, 0x00, 0x80]);
    assert_eq!(cpu.reg.pc, 0x8000);
    assert_eq!(cpu.tick(), Ok(3));
    assert_eq!(cpu.reg.pc, 0x8000);
}

#[test]
fn reset_state() {
    let mut cpu = machine(&[0xEA]);
    cpu.reg.s = 0x10;
    cpu.reg.p = 0xFF;
    cpu.reset();
    assert_eq!(cpu.reg.s, 0xFD);
    assert_eq!(cpu.reg.p, 0x24);
    assert_eq!(cpu.reg.pc, 0x8000);
}

#[test]
fn adc_signed_overflow() {
    let mut cpu = machine(&[0x69, 0x50]);
    cpu.reg.a = 0x50;
    cpu.reg.set_flag(Flag::C, false);
    assert_eq!(cpu.tick(), Ok(2));
    assert_eq!(cpu.reg.a, 0xA0);
    let f = Flags::from_status(cpu.reg.p);
    assert!(f.n);
    assert!(f.v);
    assert!(!f.z);
    assert!(!f.c);
}

#[test]
fn adc_adds_carry_in() {
    let mut cpu = machine(&[0x69, 0xFF]);
    cpu.reg.a = 0x01;
    cpu.reg.set_flag(Flag::C, true);
    cpu.tick().unwrap();
    assert_eq!(cpu.reg.a, 0x01);
    let f = Flags::from_status(cpu.reg.p);
    assert!(f.c);
    assert!(!f.v);
}

#[test]
fn sbc_without_borrow_in() {
    let mut cpu = machine(&[0xE9, 0xF0]);
    cpu.reg.a = 0x50;
    cpu.reg.set_flag(Flag::C, true);
    assert_eq!(cpu.tick(), Ok(2));
    assert_eq!(cpu.reg.a, 0x60);
    let f = Flags::from_status(cpu.reg.p);
    assert!(!f.n);
    assert!(!f.z);
    assert!(!f.c);
    // 0x50 - 0xF0 is 80 - (-16) = 96 in signed terms: no signed overflow
    assert!(!f.v);
}

#[test]
fn jmp_indirect_page_wrap() {
    let mut program = vec![0u8; 0x1200];
    program[0] = 0x6C;
    program[1] = 0xFF;
    program[2] = 0x90;
    program[0x10FF] = 0x40;
    program[0x1000] = 0x80;
    program[0x1100] = 0x12;
    let mut cpu = machine(&program);
    assert_eq!(cpu.tick(), Ok(5));
    assert_eq!(cpu.reg.pc, 0x8040);
}

#[test]
fn ram_mirrors() {
    let mut cpu = machine(&[0xEA]);
    cpu.writeb(0x0123, 0x5A);
    for k in 0..4u16 {
        assert_eq!(cpu.readb(0x0123 + 0x0800 * k), 0x5A);
    }
    cpu.writeb(0x1FFF, 0x11);
    assert_eq!(cpu.readb(0x07FF), 0x11);
}

#[test]
fn ppu_register_mirrors() {
    let mut cpu = machine(&[0xEA]);
    cpu.writeb(0x2000, 0x80);
    assert_eq!(cpu.ppu.ppuctrl, 0x80);
    cpu.writeb(0x2008, 0x04);
    assert_eq!(cpu.ppu.ppuctrl, 0x04);
    cpu.writeb(0x3FF9, 0x1E);
    assert_eq!(cpu.ppu.ppumask, 0x1E);
}

#[test]
fn stack_round_trips() {
    let mut cpu = machine(&[0xEA]);
    let s = cpu.reg.s;
    cpu.pushb(0xA5);
    assert_eq!(cpu.reg.s, s.wrapping_sub(1));
    assert_eq!(cpu.popb(), 0xA5);
    assert_eq!(cpu.reg.s, s);
    cpu.pushw(0xBEEF);
    assert_eq!(cpu.reg.s, s.wrapping_sub(2));
    assert_eq!(cpu.popw(), 0xBEEF);
    assert_eq!(cpu.reg.s, s);
}

#[test]
fn jsr_and_rts() {
    // JSR $8010; (0x8003) NOP ... (0x8010) RTS
    let mut program = vec![0xEAu8; 0x20];
    program[0] = 0x20;
    program[1] = 0x10;
    program[2] = 0x80;
    program[0x10] = 0x60;
    let mut cpu = machine(&program);
    assert_eq!(cpu.tick(), Ok(6));
    assert_eq!(cpu.reg.pc, 0x8010);
    assert_eq!(cpu.reg.s, 0xFB);
    assert_eq!(cpu.ram[0x1FD], 0x80);
    assert_eq!(cpu.ram[0x1FC], 0x02);
    assert_eq!(cpu.tick(), Ok(6));
    assert_eq!(cpu.reg.pc, 0x8003);
    assert_eq!(cpu.reg.s, 0xFD);
}

#[test]
fn branch_backwards() {
    // LDX #2; DEX; BNE -3
    let mut cpu = machine(&[0xA2, 0x02, 0xCA, 0xD0, 0xFD, 0xEA]);
    cpu.tick().unwrap();
    cpu.tick().unwrap();
    cpu.tick().unwrap();
    assert_eq!(cpu.reg.pc, 0x8002);
    cpu.tick().unwrap();
    cpu.tick().unwrap();
    assert_eq!(cpu.reg.x, 0);
    assert_eq!(cpu.reg.pc, 0x8005);
}

#[test]
fn brk_pushes_and_jumps() {
    let mut program = vec![0u8; 0x4000];
    program[0x3FFE] = 0x34;
    program[0x3FFF] = 0x92;
    program[0x3FFC] = 0x00;
    program[0x3FFD] = 0x80;
    let mut cpu = machine(&program);
    assert_eq!(cpu.tick(), Ok(7));
    assert_eq!(cpu.reg.pc, 0x9234);
    assert_eq!(cpu.ram[0x1FD], 0x80);
    assert_eq!(cpu.ram[0x1FC], 0x02);
    assert_eq!(cpu.ram[0x1FB], 0x24 | 0x30);
    assert!(cpu.reg.get_flag(Flag::I));
}

#[test]
fn shifts_and_memory_increment() {
    // LDA #$81; ASL A; STA $10; INC $10; LSR $10; ROR A
    let mut cpu = machine(&[0xA9, 0x81, 0x0A, 0x85, 0x10, 0xE6, 0x10, 0x46, 0x10, 0x6A]);
    cpu.tick().unwrap();
    cpu.tick().unwrap();
    assert_eq!(cpu.reg.a, 0x02);
    assert!(cpu.reg.get_flag(Flag::C));
    cpu.tick().unwrap();
    cpu.tick().unwrap();
    assert_eq!(cpu.ram[0x10], 0x03);
    cpu.tick().unwrap();
    assert_eq!(cpu.ram[0x10], 0x01);
    assert!(cpu.reg.get_flag(Flag::C));
    cpu.tick().unwrap();
    assert_eq!(cpu.reg.a, 0x81);
    assert!(!cpu.reg.get_flag(Flag::C));
    assert!(cpu.reg.get_flag(Flag::N));
}

#[test]
fn compare_sets_carry_and_zero() {
    // LDA #$40; CMP #$40; CPX #$01
    let mut cpu = machine(&[0xA9, 0x40, 0xC9, 0x40, 0xE0, 0x01]);
    cpu.tick().unwrap();
    cpu.tick().unwrap();
    assert!(cpu.reg.get_flag(Flag::Z));
    assert!(cpu.reg.get_flag(Flag::C));
    cpu.tick().unwrap();
    assert!(!cpu.reg.get_flag(Flag::C));
    assert!(cpu.reg.get_flag(Flag::N));
}

#[test]
fn indirect_indexed_addressing() {
    // LDY #$04; LDA ($20),Y with $20/$21 -> $0300
    let mut cpu = machine(&[0xA0, 0x04, 0xB1, 0x20]);
    cpu.writeb(0x0020, 0x00);
    cpu.writeb(0x0021, 0x03);
    cpu.writeb(0x0304, 0x99);
    cpu.tick().unwrap();
    assert_eq!(cpu.tick(), Ok(5));
    assert_eq!(cpu.reg.a, 0x99);
}

#[test]
fn unknown_opcode_is_an_error() {
    let mut cpu = machine(&[0x02]);
    assert_eq!(cpu.tick(), Err(CpuError::UnknownOpcode(0x02)));
    let mut cpu = machine(&[0x02]);
    assert_eq!(cpu.step(), Err(CpuError::UnknownOpcode(0x02)));
}

#[test]
fn oam_dma_copies_a_page() {
    let mut cpu = machine(&[0xEA]);
    for i in 0..256u16 {
        cpu.writeb(0x0700 + i, i as u8);
    }
    cpu.writeb(0x4014, 0x07);
    for i in 0..256usize {
        assert_eq!(cpu.ppu.oam[i], i as u8);
    }
    assert_eq!(cpu.stall, 513);
}

#[test]
fn nmi_pushes_state_and_jumps() {
    let mut program = vec![0u8; 0x4000];
    program[0x3FFA] = 0x00;
    program[0x3FFB] = 0x90;
    program[0x3FFC] = 0x00;
    program[0x3FFD] = 0x80;
    let mut cpu = machine(&program);
    cpu.nmi();
    assert_eq!(cpu.reg.pc, 0x9000);
    assert_eq!(cpu.ram[0x1FD], 0x80);
    assert_eq!(cpu.ram[0x1FC], 0x00);
    assert_eq!(cpu.ram[0x1FB], 0x24);
    assert_eq!(cpu.reg.s, 0xFA);
}

#[test]
fn controller_reads_buttons_in_order() {
    let mut cpu = machine(&[0xEA]);
    cpu.joypad_1.a = true;
    cpu.joypad_1.start = true;
    cpu.writeb(0x4016, 1);
    assert_eq!(cpu.readb(0x4016), 1);
    assert_eq!(cpu.readb(0x4016), 1);
    cpu.writeb(0x4016, 0);
    let bits: Vec<u8> = (0..10).map(|_| cpu.readb(0x4016)).collect();
    assert_eq!(bits, vec![1, 0, 0, 1, 0, 0, 0, 0, 1, 1]);
}

#[test]
fn registers_flags() {
    let mut r = Registers::default();
    assert_eq!(r.s, 0xFD);
    r.set_flag(Flag::N, true);
    r.set_flag(Flag::C, true);
    assert_eq!(r.p, 0x24 | 0x81);
    assert!(r.get_flag(Flag::N));
    r.set_flag(Flag::N, false);
    assert!(!r.get_flag(Flag::N));
    assert!(r.get_flag(Flag::C));
}

#[test]
fn step_runs_the_ppu_to_vblank_and_nmi() {
    // an infinite loop at 0x8000, an NMI handler at 0x9000 that loops too
    let mut program = vec![0u8; 0x4000];
    program[0] = 0x4C;
    program[1] = 0x00;
    program[2] = 0x80;
    program[0x1000] = 0x4C;
    program[0x1001] = 0x00;
    program[0x1002] = 0x90;
    program[0x3FFA] = 0x00;
    program[0x3FFB] = 0x90;
    program[0x3FFC] = 0x00;
    program[0x3FFD] = 0x80;
    let mut cpu = machine(&program);
    cpu.writeb(0x2000, 0x80);
    let mut frames = 0;
    for _ in 0..40_000 {
        if cpu.step().unwrap() {
            frames += 1;
        }
        if cpu.reg.pc == 0x9000 {
            break;
        }
    }
    assert_eq!(cpu.reg.pc, 0x9000);
    assert_eq!(frames, 0);
    assert!(cpu.ppu.ppustatus & 0x80 != 0);
    assert_eq!(cpu.ppu.scanline, 241);
}

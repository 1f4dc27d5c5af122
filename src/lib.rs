// Cartridge boards: the iNES header, the three mappers and the loaded cartridge.
pub mod mapper;
pub mod mapper_000;
pub mod mapper_001;
pub mod mapper_003;
pub mod cartridge;

// The picture processing unit: registers, memory, timing and the scanline renderer.
pub mod ppu_register;
pub mod ppu;
pub mod render;

// Controllers.
pub mod joypad;

// The 6502: registers, bus, addressing, the instruction table and its semantics.
pub mod register;
pub mod addressing_mode;
pub mod cpu;
pub mod alu;
pub mod opcode;
pub mod instructions;
pub mod execute;

// Laws that relate several operations of the bus, the PPU and the stack.
pub mod lemmas;

// What the host is asked to run.
pub mod options;

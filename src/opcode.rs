use vstd::prelude::*;
use crate::addressing_mode::AddressingMode;

verus! {

/// The documented 6502 instructions, by mnemonic.
#[derive(Clone, Copy, Debug, PartialEq, Eq, Structural)]
pub enum Op {
    ADC,
    AND,
    ASL,
    BCC,
    BCS,
    BEQ,
    BIT,
    BMI,
    BNE,
    BPL,
    BRK,
    BVC,
    BVS,
    CLC,
    CLD,
    CLI,
    CLV,
    CMP,
    CPX,
    CPY,
    DEC,
    DEX,
    DEY,
    EOR,
    INC,
    INX,
    INY,
    JMP,
    JSR,
    LDA,
    LDX,
    LDY,
    LSR,
    NOP,
    ORA,
    PHA,
    PHP,
    PLA,
    PLP,
    ROL,
    ROR,
    RTI,
    RTS,
    SBC,
    SEC,
    SED,
    SEI,
    STA,
    STX,
    STY,
    TAX,
    TAY,
    TSX,
    TXA,
    TXS,
    TYA,
}

/// The instruction, addressing mode and base cycle count of each implemented opcode.
pub open spec fn decode_spec(opcode: u8) -> Option<(Op, AddressingMode, u8)> {
    match opcode {
        0x69u8 => Some((Op::ADC, AddressingMode::Immediate, 2u8)),
        0x65u8 => Some((Op::ADC, AddressingMode::ZeroPage, 3u8)),
        0x75u8 => Some((Op::ADC, AddressingMode::ZeroPageX, 4u8)),
        0x6Du8 => Some((Op::ADC, AddressingMode::Absolute, 4u8)),
        0x7Du8 => Some((Op::ADC, AddressingMode::AbsoluteX, 4u8)),
        0x79u8 => Some((Op::ADC, AddressingMode::AbsoluteY, 4u8)),
        0x61u8 => Some((Op::ADC, AddressingMode::IndirectX, 6u8)),
        0x71u8 => Some((Op::ADC, AddressingMode::IndirectY, 5u8)),
        0x29u8 => Some((Op::AND, AddressingMode::Immediate, 2u8)),
        0x25u8 => Some((Op::AND, AddressingMode::ZeroPage, 3u8)),
        0x35u8 => Some((Op::AND, AddressingMode::ZeroPageX, 4u8)),
        0x2Du8 => Some((Op::AND, AddressingMode::Absolute, 4u8)),
        0x3Du8 => Some((Op::AND, AddressingMode::AbsoluteX, 4u8)),
        0x39u8 => Some((Op::AND, AddressingMode::AbsoluteY, 4u8)),
        0x21u8 => Some((Op::AND, AddressingMode::IndirectX, 6u8)),
        0x31u8 => Some((Op::AND, AddressingMode::IndirectY, 5u8)),
        0x0Au8 => Some((Op::ASL, AddressingMode::Accumulator, 2u8)),
        0x06u8 => Some((Op::ASL, AddressingMode::ZeroPage, 5u8)),
        0x16u8 => Some((Op::ASL, AddressingMode::ZeroPageX, 6u8)),
        0x0Eu8 => Some((Op::ASL, AddressingMode::Absolute, 6u8)),
        0x1Eu8 => Some((Op::ASL, AddressingMode::AbsoluteX, 7u8)),
        0x24u8 => Some((Op::BIT, AddressingMode::ZeroPage, 3u8)),
        0x2Cu8 => Some((Op::BIT, AddressingMode::Absolute, 4u8)),
        0x90u8 => Some((Op::BCC, AddressingMode::Relative, 2u8)),
        0xB0u8 => Some((Op::BCS, AddressingMode::Relative, 2u8)),
        0xF0u8 => Some((Op::BEQ, AddressingMode::Relative, 2u8)),
        0x30u8 => Some((Op::BMI, AddressingMode::Relative, 2u8)),
        0xD0u8 => Some((Op::BNE, AddressingMode::Relative, 2u8)),
        0x10u8 => Some((Op::BPL, AddressingMode::Relative, 2u8)),
        0x00u8 => Some((Op::BRK, AddressingMode::Implied, 7u8)),
        0x50u8 => Some((Op::BVC, AddressingMode::Relative, 2u8)),
        0x70u8 => Some((Op::BVS, AddressingMode::Relative, 2u8)),
        0x18u8 => Some((Op::CLC, AddressingMode::Implied, 2u8)),
        0xD8u8 => Some((Op::CLD, AddressingMode::Implied, 2u8)),
        0x58u8 => Some((Op::CLI, AddressingMode::Implied, 2u8)),
        0xB8u8 => Some((Op::CLV, AddressingMode::Implied, 2u8)),
        0xC9u8 => Some((Op::CMP, AddressingMode::Immediate, 2u8)),
        0xC5u8 => Some((Op::CMP, AddressingMode::ZeroPage, 3u8)),
        0xD5u8 => Some((Op::CMP, AddressingMode::ZeroPageX, 4u8)),
        0xCDu8 => Some((Op::CMP, AddressingMode::Absolute, 4u8)),
        0xDDu8 => Some((Op::CMP, AddressingMode::AbsoluteX, 4u8)),
        0xD9u8 => Some((Op::CMP, AddressingMode::AbsoluteY, 4u8)),
        0xC1u8 => Some((Op::CMP, AddressingMode::IndirectX, 6u8)),
        0xD1u8 => Some((Op::CMP, AddressingMode::IndirectY, 5u8)),
        0xE0u8 => Some((Op::CPX, AddressingMode::Immediate, 2u8)),
        0xE4u8 => Some((Op::CPX, AddressingMode::ZeroPage, 3u8)),
        0xECu8 => Some((Op::CPX, AddressingMode::Absolute, 4u8)),
        0xC0u8 => Some((Op::CPY, AddressingMode::Immediate, 2u8)),
        0xC4u8 => Some((Op::CPY, AddressingMode::ZeroPage, 3u8)),
        0xCCu8 => Some((Op::CPY, AddressingMode::Absolute, 4u8)),
        0xC6u8 => Some((Op::DEC, AddressingMode::ZeroPage, 5u8)),
        0xD6u8 => Some((Op::DEC, AddressingMode::ZeroPageX, 6u8)),
        0xCEu8 => Some((Op::DEC, AddressingMode::Absolute, 6u8)),
        0xDEu8 => Some((Op::DEC, AddressingMode::AbsoluteX, 7u8)),
        0xCAu8 => Some((Op::DEX, AddressingMode::Implied, 2u8)),
        0x88u8 => Some((Op::DEY, AddressingMode::Implied, 2u8)),
        0x49u8 => Some((Op::EOR, AddressingMode::Immediate, 2u8)),
        0x45u8 => Some((Op::EOR, AddressingMode::ZeroPage, 3u8)),
        0x55u8 => Some((Op::EOR, AddressingMode::ZeroPageX, 4u8)),
        0x4Du8 => Some((Op::EOR, AddressingMode::Absolute, 4u8)),
        0x5Du8 => Some((Op::EOR, AddressingMode::AbsoluteX, 4u8)),
        0x59u8 => Some((Op::EOR, AddressingMode::AbsoluteY, 4u8)),
        0x41u8 => Some((Op::EOR, AddressingMode::IndirectX, 6u8)),
        0x51u8 => Some((Op::EOR, AddressingMode::IndirectY, 5u8)),
        0xE6u8 => Some((Op::INC, AddressingMode::ZeroPage, 5u8)),
        0xF6u8 => Some((Op::INC, AddressingMode::ZeroPageX, 6u8)),
        0xEEu8 => Some((Op::INC, AddressingMode::Absolute, 6u8)),
        0xFEu8 => Some((Op::INC, AddressingMode::AbsoluteX, 7u8)),
        0xE8u8 => Some((Op::INX, AddressingMode::Implied, 2u8)),
        0xC8u8 => Some((Op::INY, AddressingMode::Implied, 2u8)),
        0x4Cu8 => Some((Op::JMP, AddressingMode::Absolute, 3u8)),
        0x6Cu8 => Some((Op::JMP, AddressingMode::Indirect, 5u8)),
        0x20u8 => Some((Op::JSR, AddressingMode::Absolute, 6u8)),
        0xA9u8 => Some((Op::LDA, AddressingMode::Immediate, 2u8)),
        0xA5u8 => Some((Op::LDA, AddressingMode::ZeroPage, 3u8)),
        0xB5u8 => Some((Op::LDA, AddressingMode::ZeroPageX, 4u8)),
        0xADu8 => Some((Op::LDA, AddressingMode::Absolute, 4u8)),
        0xBDu8 => Some((Op::LDA, AddressingMode::AbsoluteX, 4u8)),
        0xB9u8 => Some((Op::LDA, AddressingMode::AbsoluteY, 4u8)),
        0xA1u8 => Some((Op::LDA, AddressingMode::IndirectX, 6u8)),
        0xB1u8 => Some((Op::LDA, AddressingMode::IndirectY, 5u8)),
        0xA2u8 => Some((Op::LDX, AddressingMode::Immediate, 2u8)),
        0xA6u8 => Some((Op::LDX, AddressingMode::ZeroPage, 3u8)),
        0xB6u8 => Some((Op::LDX, AddressingMode::ZeroPageY, 4u8)),
        0xAEu8 => Some((Op::LDX, AddressingMode::Absolute, 4u8)),
        0xBEu8 => Some((Op::LDX, AddressingMode::AbsoluteY, 4u8)),
        0xA0u8 => Some((Op::LDY, AddressingMode::Immediate, 2u8)),
        0xA4u8 => Some((Op::LDY, AddressingMode::ZeroPage, 3u8)),
        0xB4u8 => Some((Op::LDY, AddressingMode::ZeroPageX, 4u8)),
        0xACu8 => Some((Op::LDY, AddressingMode::Absolute, 4u8)),
        0xBCu8 => Some((Op::LDY, AddressingMode::AbsoluteX, 4u8)),
        0x4Au8 => Some((Op::LSR, AddressingMode::Accumulator, 2u8)),
        0x46u8 => Some((Op::LSR, AddressingMode::ZeroPage, 5u8)),
        0x56u8 => Some((Op::LSR, AddressingMode::ZeroPageX, 6u8)),
        0x4Eu8 => Some((Op::LSR, AddressingMode::Absolute, 6u8)),
        0x5Eu8 => Some((Op::LSR, AddressingMode::AbsoluteX, 7u8)),
        0xEAu8 => Some((Op::NOP, AddressingMode::Implied, 2u8)),
        0x09u8 => Some((Op::ORA, AddressingMode::Immediate, 2u8)),
        0x05u8 => Some((Op::ORA, AddressingMode::ZeroPage, 3u8)),
        0x15u8 => Some((Op::ORA, AddressingMode::ZeroPageX, 4u8)),
        0x0Du8 => Some((Op::ORA, AddressingMode::Absolute, 4u8)),
        0x1Du8 => Some((Op::ORA, AddressingMode::AbsoluteX, 4u8)),
        0x19u8 => Some((Op::ORA, AddressingMode::AbsoluteY, 4u8)),
        0x01u8 => Some((Op::ORA, AddressingMode::IndirectX, 6u8)),
        0x11u8 => Some((Op::ORA, AddressingMode::IndirectY, 5u8)),
        0x48u8 => Some((Op::PHA, AddressingMode::Implied, 3u8)),
        0x08u8 => Some((Op::PHP, AddressingMode::Implied, 3u8)),
        0x68u8 => Some((Op::PLA, AddressingMode::Implied, 4u8)),
        0x28u8 => Some((Op::PLP, AddressingMode::Implied, 4u8)),
        0x2Au8 => Some((Op::ROL, AddressingMode::Accumulator, 2u8)),
        0x26u8 => Some((Op::ROL, AddressingMode::ZeroPage, 5u8)),
        0x36u8 => Some((Op::ROL, AddressingMode::ZeroPageX, 6u8)),
        0x2Eu8 => Some((Op::ROL, AddressingMode::Absolute, 6u8)),
        0x3Eu8 => Some((Op::ROL, AddressingMode::AbsoluteX, 7u8)),
        0x6Au8 => Some((Op::ROR, AddressingMode::Accumulator, 2u8)),
        0x66u8 => Some((Op::ROR, AddressingMode::ZeroPage, 5u8)),
        0x76u8 => Some((Op::ROR, AddressingMode::ZeroPageX, 6u8)),
        0x6Eu8 => Some((Op::ROR, AddressingMode::Absolute, 6u8)),
        0x7Eu8 => Some((Op::ROR, AddressingMode::AbsoluteX, 7u8)),
        0x40u8 => Some((Op::RTI, AddressingMode::Implied, 6u8)),
        0x60u8 => Some((Op::RTS, AddressingMode::Implied, 6u8)),
        0xE9u8 => Some((Op::SBC, AddressingMode::Immediate, 2u8)),
        0xE5u8 => Some((Op::SBC, AddressingMode::ZeroPage, 3u8)),
        0xF5u8 => Some((Op::SBC, AddressingMode::ZeroPageX, 4u8)),
        0xEDu8 => Some((Op::SBC, AddressingMode::Absolute, 4u8)),
        0xFDu8 => Some((Op::SBC, AddressingMode::AbsoluteX, 4u8)),
        0xF9u8 => Some((Op::SBC, AddressingMode::AbsoluteY, 4u8)),
        0xE1u8 => Some((Op::SBC, AddressingMode::IndirectX, 6u8)),
        0xF1u8 => Some((Op::SBC, AddressingMode::IndirectY, 5u8)),
        0x38u8 => Some((Op::SEC, AddressingMode::Implied, 2u8)),
        0xF8u8 => Some((Op::SED, AddressingMode::Implied, 2u8)),
        0x78u8 => Some((Op::SEI, AddressingMode::Implied, 2u8)),
        0x85u8 => Some((Op::STA, AddressingMode::ZeroPage, 3u8)),
        0x95u8 => Some((Op::STA, AddressingMode::ZeroPageX, 4u8)),
        0x8Du8 => Some((Op::STA, AddressingMode::Absolute, 4u8)),
        0x9Du8 => Some((Op::STA, AddressingMode::AbsoluteX, 5u8)),
        0x99u8 => Some((Op::STA, AddressingMode::AbsoluteY, 5u8)),
        0x81u8 => Some((Op::STA, AddressingMode::IndirectX, 6u8)),
        0x91u8 => Some((Op::STA, AddressingMode::IndirectY, 6u8)),
        0x86u8 => Some((Op::STX, AddressingMode::ZeroPage, 3u8)),
        0x96u8 => Some((Op::STX, AddressingMode::ZeroPageY, 4u8)),
        0x8Eu8 => Some((Op::STX, AddressingMode::Absolute, 4u8)),
        0x84u8 => Some((Op::STY, AddressingMode::ZeroPage, 3u8)),
        0x94u8 => Some((Op::STY, AddressingMode::ZeroPageX, 4u8)),
        0x8Cu8 => Some((Op::STY, AddressingMode::Absolute, 4u8)),
        0xAAu8 => Some((Op::TAX, AddressingMode::Implied, 2u8)),
        0xA8u8 => Some((Op::TAY, AddressingMode::Implied, 2u8)),
        0xBAu8 => Some((Op::TSX, AddressingMode::Implied, 2u8)),
        0x8Au8 => Some((Op::TXA, AddressingMode::Implied, 2u8)),
        0x9Au8 => Some((Op::TXS, AddressingMode::Implied, 2u8)),
        0x98u8 => Some((Op::TYA, AddressingMode::Implied, 2u8)),
        _ => None,
    }
}

/// Looks an opcode up in the instruction table.
pub fn decode(opcode: u8) -> (r: Option<(Op, AddressingMode, u8)>)
    ensures
        r == decode_spec(opcode),
{
    match opcode {
        0x69 => Some((Op::ADC, AddressingMode::Immediate, 2)),
        0x65 => Some((Op::ADC, AddressingMode::ZeroPage, 3)),
        0x75 => Some((Op::ADC, AddressingMode::ZeroPageX, 4)),
        0x6D => Some((Op::ADC, AddressingMode::Absolute, 4)),
        0x7D => Some((Op::ADC, AddressingMode::AbsoluteX, 4)),
        0x79 => Some((Op::ADC, AddressingMode::AbsoluteY, 4)),
        0x61 => Some((Op::ADC, AddressingMode::IndirectX, 6)),
        0x71 => Some((Op::ADC, AddressingMode::IndirectY, 5)),
        0x29 => Some((Op::AND, AddressingMode::Immediate, 2)),
        0x25 => Some((Op::AND, AddressingMode::ZeroPage, 3)),
        0x35 => Some((Op::AND, AddressingMode::ZeroPageX, 4)),
        0x2D => Some((Op::AND, AddressingMode::Absolute, 4)),
        0x3D => Some((Op::AND, AddressingMode::AbsoluteX, 4)),
        0x39 => Some((Op::AND, AddressingMode::AbsoluteY, 4)),
        0x21 => Some((Op::AND, AddressingMode::IndirectX, 6)),
        0x31 => Some((Op::AND, AddressingMode::IndirectY, 5)),
        0x0A => Some((Op::ASL, AddressingMode::Accumulator, 2)),
        0x06 => Some((Op::ASL, AddressingMode::ZeroPage, 5)),
        0x16 => Some((Op::ASL, AddressingMode::ZeroPageX, 6)),
        0x0E => Some((Op::ASL, AddressingMode::Absolute, 6)),
        0x1E => Some((Op::ASL, AddressingMode::AbsoluteX, 7)),
        0x24 => Some((Op::BIT, AddressingMode::ZeroPage, 3)),
        0x2C => Some((Op::BIT, AddressingMode::Absolute, 4)),
        0x90 => Some((Op::BCC, AddressingMode::Relative, 2)),
        0xB0 => Some((Op::BCS, AddressingMode::Relative, 2)),
        0xF0 => Some((Op::BEQ, AddressingMode::Relative, 2)),
        0x30 => Some((Op::BMI, AddressingMode::Relative, 2)),
        0xD0 => Some((Op::BNE, AddressingMode::Relative, 2)),
        0x10 => Some((Op::BPL, AddressingMode::Relative, 2)),
        0x00 => Some((Op::BRK, AddressingMode::Implied, 7)),
        0x50 => Some((Op::BVC, AddressingMode::Relative, 2)),
        0x70 => Some((Op::BVS, AddressingMode::Relative, 2)),
        0x18 => Some((Op::CLC, AddressingMode::Implied, 2)),
        0xD8 => Some((Op::CLD, AddressingMode::Implied, 2)),
        0x58 => Some((Op::CLI, AddressingMode::Implied, 2)),
        0xB8 => Some((Op::CLV, AddressingMode::Implied, 2)),
        0xC9 => Some((Op::CMP, AddressingMode::Immediate, 2)),
        0xC5 => Some((Op::CMP, AddressingMode::ZeroPage, 3)),
        0xD5 => Some((Op::CMP, AddressingMode::ZeroPageX, 4)),
        0xCD => Some((Op::CMP, AddressingMode::Absolute, 4)),
        0xDD => Some((Op::CMP, AddressingMode::AbsoluteX, 4)),
        0xD9 => Some((Op::CMP, AddressingMode::AbsoluteY, 4)),
        0xC1 => Some((Op::CMP, AddressingMode::IndirectX, 6)),
        0xD1 => Some((Op::CMP, AddressingMode::IndirectY, 5)),
        0xE0 => Some((Op::CPX, AddressingMode::Immediate, 2)),
        0xE4 => Some((Op::CPX, AddressingMode::ZeroPage, 3)),
        0xEC => Some((Op::CPX, AddressingMode::Absolute, 4)),
        0xC0 => Some((Op::CPY, AddressingMode::Immediate, 2)),
        0xC4 => Some((Op::CPY, AddressingMode::ZeroPage, 3)),
        0xCC => Some((Op::CPY, AddressingMode::Absolute, 4)),
        0xC6 => Some((Op::DEC, AddressingMode::ZeroPage, 5)),
        0xD6 => Some((Op::DEC, AddressingMode::ZeroPageX, 6)),
        0xCE => Some((Op::DEC, AddressingMode::Absolute, 6)),
        0xDE => Some((Op::DEC, AddressingMode::AbsoluteX, 7)),
        0xCA => Some((Op::DEX, AddressingMode::Implied, 2)),
        0x88 => Some((Op::DEY, AddressingMode::Implied, 2)),
        0x49 => Some((Op::EOR, AddressingMode::Immediate, 2)),
        0x45 => Some((Op::EOR, AddressingMode::ZeroPage, 3)),
        0x55 => Some((Op::EOR, AddressingMode::ZeroPageX, 4)),
        0x4D => Some((Op::EOR, AddressingMode::Absolute, 4)),
        0x5D => Some((Op::EOR, AddressingMode::AbsoluteX, 4)),
        0x59 => Some((Op::EOR, AddressingMode::AbsoluteY, 4)),
        0x41 => Some((Op::EOR, AddressingMode::IndirectX, 6)),
        0x51 => Some((Op::EOR, AddressingMode::IndirectY, 5)),
        0xE6 => Some((Op::INC, AddressingMode::ZeroPage, 5)),
        0xF6 => Some((Op::INC, AddressingMode::ZeroPageX, 6)),
        0xEE => Some((Op::INC, AddressingMode::Absolute, 6)),
        0xFE => Some((Op::INC, AddressingMode::AbsoluteX, 7)),
        0xE8 => Some((Op::INX, AddressingMode::Implied, 2)),
        0xC8 => Some((Op::INY, AddressingMode::Implied, 2)),
        0x4C => Some((Op::JMP, AddressingMode::Absolute, 3)),
        0x6C => Some((Op::JMP, AddressingMode::Indirect, 5)),
        0x20 => Some((Op::JSR, AddressingMode::Absolute, 6)),
        0xA9 => Some((Op::LDA, AddressingMode::Immediate, 2)),
        0xA5 => Some((Op::LDA, AddressingMode::ZeroPage, 3)),
        0xB5 => Some((Op::LDA, AddressingMode::ZeroPageX, 4)),
        0xAD => Some((Op::LDA, AddressingMode::Absolute, 4)),
        0xBD => Some((Op::LDA, AddressingMode::AbsoluteX, 4)),
        0xB9 => Some((Op::LDA, AddressingMode::AbsoluteY, 4)),
        0xA1 => Some((Op::LDA, AddressingMode::IndirectX, 6)),
        0xB1 => Some((Op::LDA, AddressingMode::IndirectY, 5)),
        0xA2 => Some((Op::LDX, AddressingMode::Immediate, 2)),
        0xA6 => Some((Op::LDX, AddressingMode::ZeroPage, 3)),
        0xB6 => Some((Op::LDX, AddressingMode::ZeroPageY, 4)),
        0xAE => Some((Op::LDX, AddressingMode::Absolute, 4)),
        0xBE => Some((Op::LDX, AddressingMode::AbsoluteY, 4)),
        0xA0 => Some((Op::LDY, AddressingMode::Immediate, 2)),
        0xA4 => Some((Op::LDY, AddressingMode::ZeroPage, 3)),
        0xB4 => Some((Op::LDY, AddressingMode::ZeroPageX, 4)),
        0xAC => Some((Op::LDY, AddressingMode::Absolute, 4)),
        0xBC => Some((Op::LDY, AddressingMode::AbsoluteX, 4)),
        0x4A => Some((Op::LSR, AddressingMode::Accumulator, 2)),
        0x46 => Some((Op::LSR, AddressingMode::ZeroPage, 5)),
        0x56 => Some((Op::LSR, AddressingMode::ZeroPageX, 6)),
        0x4E => Some((Op::LSR, AddressingMode::Absolute, 6)),
        0x5E => Some((Op::LSR, AddressingMode::AbsoluteX, 7)),
        0xEA => Some((Op::NOP, AddressingMode::Implied, 2)),
        0x09 => Some((Op::ORA, AddressingMode::Immediate, 2)),
        0x05 => Some((Op::ORA, AddressingMode::ZeroPage, 3)),
        0x15 => Some((Op::ORA, AddressingMode::ZeroPageX, 4)),
        0x0D => Some((Op::ORA, AddressingMode::Absolute, 4)),
        0x1D => Some((Op::ORA, AddressingMode::AbsoluteX, 4)),
        0x19 => Some((Op::ORA, AddressingMode::AbsoluteY, 4)),
        0x01 => Some((Op::ORA, AddressingMode::IndirectX, 6)),
        0x11 => Some((Op::ORA, AddressingMode::IndirectY, 5)),
        0x48 => Some((Op::PHA, AddressingMode::Implied, 3)),
        0x08 => Some((Op::PHP, AddressingMode::Implied, 3)),
        0x68 => Some((Op::PLA, AddressingMode::Implied, 4)),
        0x28 => Some((Op::PLP, AddressingMode::Implied, 4)),
        0x2A => Some((Op::ROL, AddressingMode::Accumulator, 2)),
        0x26 => Some((Op::ROL, AddressingMode::ZeroPage, 5)),
        0x36 => Some((Op::ROL, AddressingMode::ZeroPageX, 6)),
        0x2E => Some((Op::ROL, AddressingMode::Absolute, 6)),
        0x3E => Some((Op::ROL, AddressingMode::AbsoluteX, 7)),
        0x6A => Some((Op::ROR, AddressingMode::Accumulator, 2)),
        0x66 => Some((Op::ROR, AddressingMode::ZeroPage, 5)),
        0x76 => Some((Op::ROR, AddressingMode::ZeroPageX, 6)),
        0x6E => Some((Op::ROR, AddressingMode::Absolute, 6)),
        0x7E => Some((Op::ROR, AddressingMode::AbsoluteX, 7)),
        0x40 => Some((Op::RTI, AddressingMode::Implied, 6)),
        0x60 => Some((Op::RTS, AddressingMode::Implied, 6)),
        0xE9 => Some((Op::SBC, AddressingMode::Immediate, 2)),
        0xE5 => Some((Op::SBC, AddressingMode::ZeroPage, 3)),
        0xF5 => Some((Op::SBC, AddressingMode::ZeroPageX, 4)),
        0xED => Some((Op::SBC, AddressingMode::Absolute, 4)),
        0xFD => Some((Op::SBC, AddressingMode::AbsoluteX, 4)),
        0xF9 => Some((Op::SBC, AddressingMode::AbsoluteY, 4)),
        0xE1 => Some((Op::SBC, AddressingMode::IndirectX, 6)),
        0xF1 => Some((Op::SBC, AddressingMode::IndirectY, 5)),
        0x38 => Some((Op::SEC, AddressingMode::Implied, 2)),
        0xF8 => Some((Op::SED, AddressingMode::Implied, 2)),
        0x78 => Some((Op::SEI, AddressingMode::Implied, 2)),
        0x85 => Some((Op::STA, AddressingMode::ZeroPage, 3)),
        0x95 => Some((Op::STA, AddressingMode::ZeroPageX, 4)),
        0x8D => Some((Op::STA, AddressingMode::Absolute, 4)),
        0x9D => Some((Op::STA, AddressingMode::AbsoluteX, 5)),
        0x99 => Some((Op::STA, AddressingMode::AbsoluteY, 5)),
        0x81 => Some((Op::STA, AddressingMode::IndirectX, 6)),
        0x91 => Some((Op::STA, AddressingMode::IndirectY, 6)),
        0x86 => Some((Op::STX, AddressingMode::ZeroPage, 3)),
        0x96 => Some((Op::STX, AddressingMode::ZeroPageY, 4)),
        0x8E => Some((Op::STX, AddressingMode::Absolute, 4)),
        0x84 => Some((Op::STY, AddressingMode::ZeroPage, 3)),
        0x94 => Some((Op::STY, AddressingMode::ZeroPageX, 4)),
        0x8C => Some((Op::STY, AddressingMode::Absolute, 4)),
        0xAA => Some((Op::TAX, AddressingMode::Implied, 2)),
        0xA8 => Some((Op::TAY, AddressingMode::Implied, 2)),
        0xBA => Some((Op::TSX, AddressingMode::Implied, 2)),
        0x8A => Some((Op::TXA, AddressingMode::Implied, 2)),
        0x9A => Some((Op::TXS, AddressingMode::Implied, 2)),
        0x98 => Some((Op::TYA, AddressingMode::Implied, 2)),
        _ => None,
    }
}

} // verus!

use vstd::prelude::*;

verus! {

/// How an instruction finds its operand.
#[derive(Clone, Copy, Debug, PartialEq, Eq, Structural)]
pub enum AddressingMode {
    Implied,
    Accumulator,
    Immediate,
    Relative,
    ZeroPage,
    ZeroPageX,
    ZeroPageY,
    Absolute,
    AbsoluteX,
    AbsoluteY,
    Indirect,
    IndirectX,
    IndirectY,
}

/// Operand bytes that follow the opcode in each mode.
pub open spec fn operand_size(mode: AddressingMode) -> int {
    match mode {
        AddressingMode::Implied | AddressingMode::Accumulator => 0,
        AddressingMode::Absolute | AddressingMode::AbsoluteX | AddressingMode::AbsoluteY
        | AddressingMode::Indirect => 2,
        _ => 1,
    }
}

/// Whether the mode designates a memory location (rather than a register or nothing).
pub open spec fn is_memory(mode: AddressingMode) -> bool {
    mode != AddressingMode::Implied && mode != AddressingMode::Accumulator
}

impl AddressingMode {
    /// Operand bytes that follow the opcode.
    pub fn size(&self) -> (r: u16)
        ensures
            r == operand_size(*self),
    {
        match self {
            AddressingMode::Implied | AddressingMode::Accumulator => 0,
            AddressingMode::Absolute | AddressingMode::AbsoluteX | AddressingMode::AbsoluteY
            | AddressingMode::Indirect => 2,
            _ => 1,
        }
    }
}

} // verus!

use vstd::prelude::*;
use crate::addressing_mode::{is_memory, AddressingMode};
use crate::alu::{
    adc_op, adc_regs, bit_op, bit_regs, compare_op, compare_regs, pulled_status, set_zn, shift_op,
    shift_spec, signed, zn,
};
use crate::cpu::{CPU, BRK_VECTOR, NMI_VECTOR};
use crate::opcode::Op;
use crate::register::{has_flag, with_flag, Flag, Registers};

verus! {

/// Whether `mode` addresses a memory location that can be written back (no immediate,
/// relative or indirect operand).
pub open spec fn is_location(mode: AddressingMode) -> bool {
    is_memory(mode) && mode != AddressingMode::Immediate && mode != AddressingMode::Relative
        && mode != AddressingMode::Indirect
}

/// Whether `mode` can supply an operand value to a load or arithmetic instruction.
pub open spec fn is_operand(mode: AddressingMode) -> bool {
    is_memory(mode) && mode != AddressingMode::Relative && mode != AddressingMode::Indirect
}

/// Whether instruction `op` accepts addressing mode `mode`.
#[verifier::opaque]
pub open spec fn fits(op: Op, mode: AddressingMode) -> bool {
    match op {
        Op::ADC | Op::SBC | Op::AND | Op::ORA | Op::EOR | Op::CMP | Op::CPX | Op::CPY | Op::BIT
        | Op::LDA | Op::LDX | Op::LDY => is_operand(mode),
        Op::STA | Op::STX | Op::STY | Op::INC | Op::DEC => is_location(mode),
        Op::ASL | Op::LSR | Op::ROL | Op::ROR => mode == AddressingMode::Accumulator || is_location(mode),
        Op::BCC | Op::BCS | Op::BEQ | Op::BNE | Op::BMI | Op::BPL | Op::BVC | Op::BVS => mode
            == AddressingMode::Relative,
        Op::JMP => mode == AddressingMode::Absolute || mode == AddressingMode::Indirect,
        Op::JSR => mode == AddressingMode::Absolute,
        _ => mode == AddressingMode::Implied,
    }
}

/// Whether a branch instruction is taken under status `p`.
pub open spec fn branch_taken(op: Op, p: u8) -> bool {
    match op {
        Op::BCC => !has_flag(p, Flag::C),
        Op::BCS => has_flag(p, Flag::C),
        Op::BEQ => has_flag(p, Flag::Z),
        Op::BNE => !has_flag(p, Flag::Z),
        Op::BMI => has_flag(p, Flag::N),
        Op::BPL => !has_flag(p, Flag::N),
        Op::BVC => !has_flag(p, Flag::V),
        _ => has_flag(p, Flag::V),
    }
}

/// The kind of shift (`shift_spec`) that a shift instruction performs.
pub open spec fn shift_kind(op: Op) -> int {
    match op {
        Op::ASL => 0,
        Op::LSR => 1,
        Op::ROL => 2,
        _ => 3,
    }
}

/// Where a branch at `pc` (the address after its offset byte) with offset `off` lands.
pub open spec fn branch_target(pc: u16, off: u8) -> u16 {
    ((pc as int + signed(off) + 0x10000) % 0x10000) as u16
}

/// The stack slot that the stack pointer `s` designates.
pub open spec fn stack_slot(s: u8) -> int {
    0x100 + s as int
}

impl CPU {
    pub open spec fn with_reg(&self, r: Registers) -> CPU {
        CPU { reg: r, ..*self }
    }

    /// The byte at the program counter, and the machine after reading it and moving
    /// the program counter past it.
    pub open spec fn fetch(&self) -> (u8, CPU) {
        let pc = self.reg.pc;
        let s1 = self.after_read(pc);
        (self.peek(pc), s1.with_reg(Registers { pc: pc.wrapping_add(1), ..s1.reg }))
    }

    /// The little-endian word at the program counter, and the machine after it.
    pub open spec fn fetch_word(&self) -> (u16, CPU) {
        let (lo, s1) = self.fetch();
        let (hi, s2) = s1.fetch();
        (((hi as u16) << 8u16) | (lo as u16), s2)
    }

    /// The effective address that `mode` designates, and the machine after the
    /// operand bytes (and any pointer) have been read.
    pub open spec fn address_of(&self, mode: AddressingMode) -> (u16, CPU) {
        match mode {
            AddressingMode::Immediate | AddressingMode::Relative => {
                let pc = self.reg.pc;
                (pc, self.with_reg(Registers { pc: pc.wrapping_add(1), ..self.reg }))
            },
            AddressingMode::ZeroPage => {
                let (b, s1) = self.fetch();
                (b as u16, s1)
            },
            AddressingMode::ZeroPageX => {
                let (b, s1) = self.fetch();
                (b.wrapping_add(s1.reg.x) as u16, s1)
            },
            AddressingMode::ZeroPageY => {
                let (b, s1) = self.fetch();
                (b.wrapping_add(s1.reg.y) as u16, s1)
            },
            AddressingMode::Absolute => self.fetch_word(),
            AddressingMode::AbsoluteX => {
                let (w, s1) = self.fetch_word();
                (w.wrapping_add(s1.reg.x as u16), s1)
            },
            AddressingMode::AbsoluteY => {
                let (w, s1) = self.fetch_word();
                (w.wrapping_add(s1.reg.y as u16), s1)
            },
            AddressingMode::Indirect => {
                let (w, s1) = self.fetch_word();
                s1.read_word(w)
            },
            AddressingMode::IndirectX => {
                let (b, s1) = self.fetch();
                let z = b.wrapping_add(s1.reg.x);
                s1.read_pair_spec(z as u16, z.wrapping_add(1) as u16)
            },
            AddressingMode::IndirectY => {
                let (b, s1) = self.fetch();
                let (w, s2) = s1.read_pair_spec(b as u16, b.wrapping_add(1) as u16);
                (w.wrapping_add(s2.reg.y as u16), s2)
            },
            _ => (0, *self),
        }
    }

    /// The operand that `mode` supplies, and the machine after reading it.
    pub open spec fn load_spec(&self, mode: AddressingMode) -> (u8, CPU) {
        if mode == AddressingMode::Accumulator {
            (self.reg.a, *self)
        } else {
            let (ea, s1) = self.address_of(mode);
            (s1.peek(ea), s1.after_read(ea))
        }
    }

    /// `self` is `before` with `val` pushed: stored at the stack slot, S decremented.
    pub open spec fn pushed(&self, before: CPU, val: u8) -> bool {
        &&& self.ram@ == before.ram@.update(stack_slot(before.reg.s), val)
        &&& *self == CPU {
            ram: self.ram,
            reg: Registers { s: before.reg.s.wrapping_sub(1), ..before.reg },
            ..before
        }
    }

    /// `self` is `before` with the word `val` pushed, high byte first, and the program
    /// counter set to `pc`.
    pub open spec fn pushed_word(&self, before: CPU, val: u16, pc: u16) -> bool {
        let s = before.reg.s;
        &&& self.ram@ == before.ram@.update(stack_slot(s), (val >> 8u16) as u8).update(
            stack_slot(s.wrapping_sub(1)),
            val as u8,
        )
        &&& *self == CPU {
            ram: self.ram,
            reg: Registers { s: s.wrapping_sub(2), pc, ..before.reg },
            ..before
        }
    }

    /// The byte that the next pull returns.
    pub open spec fn stack_top(&self) -> u8 {
        self.ram@[stack_slot(self.reg.s.wrapping_add(1))]
    }

    /// The word that the next two pulls return, low byte first.
    pub open spec fn stack_word(&self) -> u16 {
        let lo = self.ram@[stack_slot(self.reg.s.wrapping_add(1))];
        let hi = self.ram@[stack_slot(self.reg.s.wrapping_add(2))];
        ((hi as u16) << 8u16) | (lo as u16)
    }

    /// The reset, BRK or NMI vector at `addr`, as the cartridge holds it.
    pub open spec fn vector(&self, addr: u16) -> u16 {
        ((self.ppu.cartridge.peek((addr + 1) as u16) as u16) << 8u16) | (self.ppu.cartridge.peek(addr) as u16)
    }

    /// `self` is `b` after a shift instruction of kind `kind` on `mode`.
    pub open spec fn shifted(&self, b: CPU, kind: int, mode: AddressingMode) -> bool {
        if mode == AddressingMode::Accumulator {
            let (res, c) = shift_spec(kind, b.reg.a, has_flag(b.reg.p, Flag::C));
            *self == b.with_reg(Registers { a: res, p: zn(with_flag(b.reg.p, Flag::C, c), res), ..b.reg })
        } else {
            let (ea, mid) = b.address_of(mode);
            let v = mid.peek(ea);
            let mid2 = mid.after_read(ea);
            let (res, c) = shift_spec(kind, v, has_flag(mid2.reg.p, Flag::C));
            self.wrote(mid2.with_reg(Registers { p: zn(with_flag(mid2.reg.p, Flag::C, c), res), ..mid2.reg }), ea, res)
        }
    }

    /// `self` is `b` after adding `delta` (1 or 255) to the memory operand of `mode`.
    pub open spec fn stepped(&self, b: CPU, delta: u8, mode: AddressingMode) -> bool {
        let (ea, mid) = b.address_of(mode);
        let v = mid.peek(ea);
        let mid2 = mid.after_read(ea);
        let res = v.wrapping_add(delta);
        self.wrote(mid2.with_reg(Registers { p: zn(mid2.reg.p, res), ..mid2.reg }), ea, res)
    }

    /// `self` is `b` after executing `op` in `mode`, once the opcode byte is consumed.
    #[verifier::opaque]
    pub open spec fn executed(&self, b: CPU, op: Op, mode: AddressingMode) -> bool {
        let r = b.reg;
        let (m, mid) = b.load_spec(mode);
        let mr = mid.reg;
        match op {
            Op::ADC => *self == mid.with_reg(adc_regs(mr, m)),
            Op::SBC => *self == mid.with_reg(adc_regs(mr, !m)),
            Op::AND => *self == mid.with_reg(Registers { a: mr.a & m, p: zn(mr.p, mr.a & m), ..mr }),
            Op::ORA => *self == mid.with_reg(Registers { a: mr.a | m, p: zn(mr.p, mr.a | m), ..mr }),
            Op::EOR => *self == mid.with_reg(Registers { a: mr.a ^ m, p: zn(mr.p, mr.a ^ m), ..mr }),
            Op::CMP => *self == mid.with_reg(compare_regs(mr, mr.a, m)),
            Op::CPX => *self == mid.with_reg(compare_regs(mr, mr.x, m)),
            Op::CPY => *self == mid.with_reg(compare_regs(mr, mr.y, m)),
            Op::BIT => *self == mid.with_reg(bit_regs(mr, m)),
            Op::LDA => *self == mid.with_reg(Registers { a: m, p: zn(mr.p, m), ..mr }),
            Op::LDX => *self == mid.with_reg(Registers { x: m, p: zn(mr.p, m), ..mr }),
            Op::LDY => *self == mid.with_reg(Registers { y: m, p: zn(mr.p, m), ..mr }),
            Op::STA => self.wrote(b.address_of(mode).1, b.address_of(mode).0, r.a),
            Op::STX => self.wrote(b.address_of(mode).1, b.address_of(mode).0, r.x),
            Op::STY => self.wrote(b.address_of(mode).1, b.address_of(mode).0, r.y),
            Op::ASL | Op::LSR | Op::ROL | Op::ROR => self.shifted(b, shift_kind(op), mode),
            Op::INC => self.stepped(b, 1, mode),
            Op::DEC => self.stepped(b, 255, mode),
            Op::INX => *self == b.with_reg(Registers { x: r.x.wrapping_add(1), p: zn(r.p, r.x.wrapping_add(1)), ..r }),
            Op::INY => *self == b.with_reg(Registers { y: r.y.wrapping_add(1), p: zn(r.p, r.y.wrapping_add(1)), ..r }),
            Op::DEX => *self == b.with_reg(Registers { x: r.x.wrapping_sub(1), p: zn(r.p, r.x.wrapping_sub(1)), ..r }),
            Op::DEY => *self == b.with_reg(Registers { y: r.y.wrapping_sub(1), p: zn(r.p, r.y.wrapping_sub(1)), ..r }),
            Op::TAX => *self == b.with_reg(Registers { x: r.a, p: zn(r.p, r.a), ..r }),
            Op::TAY => *self == b.with_reg(Registers { y: r.a, p: zn(r.p, r.a), ..r }),
            Op::TXA => *self == b.with_reg(Registers { a: r.x, p: zn(r.p, r.x), ..r }),
            Op::TYA => *self == b.with_reg(Registers { a: r.y, p: zn(r.p, r.y), ..r }),
            Op::TSX => *self == b.with_reg(Registers { x: r.s, p: zn(r.p, r.s), ..r }),
            Op::TXS => *self == b.with_reg(Registers { s: r.x, ..r }),
            Op::CLC => *self == b.with_reg(Registers { p: with_flag(r.p, Flag::C, false), ..r }),
            Op::CLD => *self == b.with_reg(Registers { p: with_flag(r.p, Flag::D, false), ..r }),
            Op::CLI => *self == b.with_reg(Registers { p: with_flag(r.p, Flag::I, false), ..r }),
            Op::CLV => *self == b.with_reg(Registers { p: with_flag(r.p, Flag::V, false), ..r }),
            Op::SEC => *self == b.with_reg(Registers { p: with_flag(r.p, Flag::C, true), ..r }),
            Op::SED => *self == b.with_reg(Registers { p: with_flag(r.p, Flag::D, true), ..r }),
            Op::SEI => *self == b.with_reg(Registers { p: with_flag(r.p, Flag::I, true), ..r }),
            Op::NOP => *self == b,
            Op::BCC | Op::BCS | Op::BEQ | Op::BNE | Op::BMI | Op::BPL | Op::BVC | Op::BVS => {
                let (off, s1) = b.fetch();
                let next = s1.reg.pc;
                *self == s1.with_reg(Registers {
                    pc: if branch_taken(op, r.p) { branch_target(next, off) } else { next },
                    ..s1.reg
                })
            },
            Op::JMP => {
                let (w, s1) = b.fetch_word();
                if mode == AddressingMode::Absolute {
                    *self == s1.with_reg(Registers { pc: w, ..s1.reg })
                } else {
                    let (t, s2) = s1.read_pair_spec(w, (w & 0xFF00u16) | (w.wrapping_add(1) & 0x00FFu16));
                    *self == s2.with_reg(Registers { pc: t, ..s2.reg })
                }
            },
            Op::JSR => {
                let (w, s1) = b.fetch_word();
                self.pushed_word(s1, s1.reg.pc.wrapping_sub(1), w)
            },
            Op::RTS => *self == b.with_reg(Registers { s: r.s.wrapping_add(2), pc: b.stack_word().wrapping_add(1), ..r }),
            Op::RTI => {
                let p = pulled_status(r.p, b.stack_top());
                let after = b.with_reg(Registers { s: r.s.wrapping_add(1), p, ..r });
                *self == after.with_reg(Registers { s: r.s.wrapping_add(3), pc: after.stack_word(), ..after.reg })
            },
            Op::PHA => self.pushed(b, r.a),
            Op::PHP => self.pushed(b, r.p | 0x30u8),
            Op::PLA => *self == b.with_reg(Registers { s: r.s.wrapping_add(1), a: b.stack_top(), p: zn(r.p, b.stack_top()), ..r }),
            Op::PLP => *self == b.with_reg(Registers { s: r.s.wrapping_add(1), p: pulled_status(r.p, b.stack_top()), ..r }),
            Op::BRK => self.interrupted(b, r.pc.wrapping_add(1), r.p | 0x30u8, BRK_VECTOR),
        }
    }

    /// `self` is `b` after an interrupt sequence: `ret` pushed (high byte first), then
    /// `status`; I set; the program counter loaded from the vector at `vector`.
    pub open spec fn interrupted(&self, b: CPU, ret: u16, status: u8, vector: u16) -> bool {
        let s = b.reg.s;
        &&& self.ram@ == b.ram@.update(stack_slot(s), (ret >> 8u16) as u8).update(
            stack_slot(s.wrapping_sub(1)),
            ret as u8,
        ).update(stack_slot(s.wrapping_sub(2)), status)
        &&& *self == CPU {
            ram: self.ram,
            reg: Registers {
                s: s.wrapping_sub(3),
                p: with_flag(b.reg.p, Flag::I, true),
                pc: b.vector(vector),
                ..b.reg
            },
            ..b
        }
    }
}


impl CPU {
    /// Reads the byte at the program counter and moves the program counter past it.
    pub fn loadb_bump(&mut self) -> (r: u8)
        requires
            old(self).wf(),
        ensures
            final(self).wf(),
            (r, *final(self)) == old(self).fetch(),
    {
        let b = self.readb(self.reg.pc);
        self.reg.pc = self.reg.pc.wrapping_add(1);
        b
    }

    /// Reads the word at the program counter and moves the program counter past it.
    pub fn loadw_bump(&mut self) -> (r: u16)
        requires
            old(self).wf(),
        ensures
            final(self).wf(),
            (r, *final(self)) == old(self).fetch_word(),
    {
        let lo = self.loadb_bump() as u16;
        let hi = self.loadb_bump() as u16;
        (hi << 8) | lo
    }

    /// Consumes the operand bytes of `mode` and returns the address it designates.
    pub(crate) fn operand_address(&mut self, mode: AddressingMode) -> (r: u16)
        requires
            old(self).wf(),
            is_memory(mode),
        ensures
            final(self).wf(),
            (r, *final(self)) == old(self).address_of(mode),
    {
        match mode {
            AddressingMode::Immediate | AddressingMode::Relative => {
                let pc = self.reg.pc;
                self.reg.pc = pc.wrapping_add(1);
                pc
            },
            AddressingMode::ZeroPage => self.loadb_bump() as u16,
            AddressingMode::ZeroPageX => {
                let b = self.loadb_bump();
                b.wrapping_add(self.reg.x) as u16
            },
            AddressingMode::ZeroPageY => {
                let b = self.loadb_bump();
                b.wrapping_add(self.reg.y) as u16
            },
            AddressingMode::Absolute => self.loadw_bump(),
            AddressingMode::AbsoluteX => {
                let w = self.loadw_bump();
                w.wrapping_add(self.reg.x as u16)
            },
            AddressingMode::AbsoluteY => {
                let w = self.loadw_bump();
                w.wrapping_add(self.reg.y as u16)
            },
            AddressingMode::Indirect => {
                let w = self.loadw_bump();
                self.readw(w)
            },
            AddressingMode::IndirectX => {
                let b = self.loadb_bump();
                let z = b.wrapping_add(self.reg.x);
                self.readw_zp(z)
            },
            AddressingMode::IndirectY => {
                let b = self.loadb_bump();
                let w = self.readw_zp(b);
                w.wrapping_add(self.reg.y as u16)
            },
            _ => 0,
        }
    }

    /// Reads the operand that `mode` supplies.
    pub(crate) fn load(&mut self, mode: AddressingMode) -> (r: u8)
        requires
            old(self).wf(),
            mode == AddressingMode::Accumulator || is_memory(mode),
        ensures
            final(self).wf(),
            (r, *final(self)) == old(self).load_spec(mode),
    {
        if mode == AddressingMode::Accumulator {
            self.reg.a
        } else {
            let ea = self.operand_address(mode);
            self.readb(ea)
        }
    }

    /// Writes `val` to the location that `mode` designates.
    pub(crate) fn store(&mut self, mode: AddressingMode, val: u8)
        requires
            old(self).wf(),
            is_location(mode),
        ensures
            final(self).wf(),
            final(self).wrote(old(self).address_of(mode).1, old(self).address_of(mode).0, val),
    {
        let ea = self.operand_address(mode);
        self.writeb(ea, val);
    }

    pub fn pushb(&mut self, val: u8)
        requires
            old(self).wf(),
        ensures
            final(self).wf(),
            final(self).pushed(*old(self), val),
    {
        let sp = self.reg.s as u16;
        self.writeb(0x100 + sp, val);
        self.reg.s = self.reg.s.wrapping_sub(1);
    }

    pub fn pushw(&mut self, val: u16)
        requires
            old(self).wf(),
        ensures
            final(self).wf(),
            final(self).pushed_word(*old(self), val, old(self).reg.pc),
    {
        self.pushb((val >> 8) as u8);
        self.pushb(val as u8);
    }

    pub fn popb(&mut self) -> (r: u8)
        requires
            old(self).wf(),
        ensures
            final(self).wf(),
            r == old(self).stack_top(),
            *final(self) == old(self).with_reg(Registers { s: old(self).reg.s.wrapping_add(1), ..old(self).reg }),
    {
        self.reg.s = self.reg.s.wrapping_add(1);
        let sp = self.reg.s as u16;
        self.readb(0x100 + sp)
    }

    pub fn popw(&mut self) -> (r: u16)
        requires
            old(self).wf(),
        ensures
            final(self).wf(),
            r == old(self).stack_word(),
            *final(self) == old(self).with_reg(Registers { s: old(self).reg.s.wrapping_add(2), ..old(self).reg }),
    {
        let lo = self.popb() as u16;
        let hi = self.popb() as u16;
        (hi << 8) | lo
    }

    /// The status byte that PLP and RTI install from `val`.
    pub(crate) fn set_p(&mut self, val: u8)
        ensures
            *final(self) == old(self).with_reg(Registers { p: pulled_status(old(self).reg.p, val), ..old(self).reg }),
    {
        let b = self.reg.p & 0b0011_0000;
        self.reg.p = (val & 0b1100_1111) | b;
    }

    /// Reads the branch offset and, when `cond` holds, adds it to the program counter.
    pub(crate) fn branch_if(&mut self, cond: bool)
        requires
            old(self).wf(),
        ensures
            final(self).wf(),
            ({
                let (off, s1) = old(self).fetch();
                *final(self) == s1.with_reg(Registers {
                    pc: if cond { branch_target(s1.reg.pc, off) } else { s1.reg.pc },
                    ..s1.reg
                })
            }),
    {
        let off = self.loadb_bump();
        if cond {
            let delta: u16 = if off < 128 { off as u16 } else { 0xFF00u16 | off as u16 };
            let pc = self.reg.pc;
            assert(pc.wrapping_add(delta) == branch_target(pc, off)) by {
                if off < 128 {
                } else {
                    assert(0xFF00u16 | off as u16 == 0xFF00 + off as u16) by (bit_vector)
                        requires off >= 128u8;
                }
            }
            self.reg.pc = pc.wrapping_add(delta);
        }
    }

    /// The shift and rotate instructions, by kind (see `shift_spec`).
    pub(crate) fn shift(&mut self, mode: AddressingMode, kind: u8)
        requires
            old(self).wf(),
            kind < 4,
            mode == AddressingMode::Accumulator || is_location(mode),
        ensures
            final(self).wf(),
            final(self).shifted(*old(self), kind as int, mode),
    {
        if mode == AddressingMode::Accumulator {
            let (res, c) = shift_op(kind, self.reg.a, self.reg.get_flag(Flag::C));
            self.reg.a = res;
            self.reg.set_flag(Flag::C, c);
            self.reg.p = set_zn(self.reg.p, res);
        } else {
            let ea = self.operand_address(mode);
            let v = self.readb(ea);
            let (res, c) = shift_op(kind, v, self.reg.get_flag(Flag::C));
            self.reg.set_flag(Flag::C, c);
            self.reg.p = set_zn(self.reg.p, res);
            self.writeb(ea, res);
        }
    }

    /// INC and DEC: adds `delta` to a memory operand.
    pub(crate) fn add_to_memory(&mut self, mode: AddressingMode, delta: u8)
        requires
            old(self).wf(),
            is_location(mode),
        ensures
            final(self).wf(),
            final(self).stepped(*old(self), delta, mode),
    {
        let ea = self.operand_address(mode);
        let v = self.readb(ea);
        let res = v.wrapping_add(delta);
        self.reg.p = set_zn(self.reg.p, res);
        self.writeb(ea, res);
    }

    /// Pushes `ret` and `status`, sets I and jumps through the vector at `vector`.
    pub(crate) fn interrupt(&mut self, ret: u16, status: u8, vector: u16)
        requires
            old(self).wf(),
            vector >= 0x4020,
            vector < 0xFFFF,
        ensures
            final(self).wf(),
            final(self).interrupted(*old(self), ret, status, vector),
    {
        self.pushw(ret);
        self.pushb(status);
        self.reg.set_flag(Flag::I, true);
        self.reg.pc = self.readw(vector);
    }

    /// Services a non-maskable interrupt: pushes PC and P (B clear, bit 5 set), sets
    /// I and jumps through the NMI vector.
    pub fn nmi(&mut self)
        requires
            old(self).wf(),
        ensures
            final(self).wf(),
            final(self).interrupted(*old(self), old(self).reg.pc, (old(self).reg.p & 0xEFu8) | 0x20u8, NMI_VECTOR),
    {
        let pc = self.reg.pc;
        let p = (self.reg.p & 0xEF) | 0x20;
        self.interrupt(pc, p, NMI_VECTOR);
    }
}

} // verus!

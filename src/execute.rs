use vstd::prelude::*;
use crate::addressing_mode::AddressingMode;
use crate::alu::{adc_op, bit_op, compare_op, set_zn};
use crate::cpu::{CpuError, CPU, BRK_VECTOR, NMI_VECTOR};
use crate::ppu::PPU;
use crate::instructions::fits;
use crate::opcode::{decode, decode_spec, Op};
use crate::register::Flag;

verus! {

/// Every opcode of the table pairs its instruction with a mode that it accepts.
proof fn lemma_decode_fits(opcode: u8)
    requires
        decode_spec(opcode) is Some,
    ensures
        fits(decode_spec(opcode)->Some_0.0, decode_spec(opcode)->Some_0.1),
{
    reveal(fits);
}

impl CPU {
    /// Add with carry.
    fn adc(&mut self, mode: AddressingMode)
        requires
            old(self).wf(),
            fits(Op::ADC, mode),
        ensures
            final(self).wf(),
            final(self).executed(*old(self), Op::ADC, mode),
    {
        proof {
            reveal(CPU::executed);
            reveal(fits);
        }
        let m = self.load(mode);
        self.reg = adc_op(self.reg, m);
    }

    /// Subtract with borrow.
    fn sbc(&mut self, mode: AddressingMode)
        requires
            old(self).wf(),
            fits(Op::SBC, mode),
        ensures
            final(self).wf(),
            final(self).executed(*old(self), Op::SBC, mode),
    {
        proof {
            reveal(CPU::executed);
            reveal(fits);
        }
        let m = self.load(mode);
        self.reg = adc_op(self.reg, !m);
    }

    /// AND into A.
    fn and(&mut self, mode: AddressingMode)
        requires
            old(self).wf(),
            fits(Op::AND, mode),
        ensures
            final(self).wf(),
            final(self).executed(*old(self), Op::AND, mode),
    {
        proof {
            reveal(CPU::executed);
            reveal(fits);
        }
        let m = self.load(mode);
        let res = self.reg.a & m;
        self.reg.a = res;
        self.reg.p = set_zn(self.reg.p, res);
    }

    /// OR into A.
    fn ora(&mut self, mode: AddressingMode)
        requires
            old(self).wf(),
            fits(Op::ORA, mode),
        ensures
            final(self).wf(),
            final(self).executed(*old(self), Op::ORA, mode),
    {
        proof {
            reveal(CPU::executed);
            reveal(fits);
        }
        let m = self.load(mode);
        let res = self.reg.a | m;
        self.reg.a = res;
        self.reg.p = set_zn(self.reg.p, res);
    }

    /// Exclusive OR into A.
    fn eor(&mut self, mode: AddressingMode)
        requires
            old(self).wf(),
            fits(Op::EOR, mode),
        ensures
            final(self).wf(),
            final(self).executed(*old(self), Op::EOR, mode),
    {
        proof {
            reveal(CPU::executed);
            reveal(fits);
        }
        let m = self.load(mode);
        let res = self.reg.a ^ m;
        self.reg.a = res;
        self.reg.p = set_zn(self.reg.p, res);
    }

    /// Compare with A.
    fn cmp(&mut self, mode: AddressingMode)
        requires
            old(self).wf(),
            fits(Op::CMP, mode),
        ensures
            final(self).wf(),
            final(self).executed(*old(self), Op::CMP, mode),
    {
        proof {
            reveal(CPU::executed);
            reveal(fits);
        }
        let m = self.load(mode);
        self.reg = compare_op(self.reg, self.reg.a, m);
    }

    /// Compare with X.
    fn cpx(&mut self, mode: AddressingMode)
        requires
            old(self).wf(),
            fits(Op::CPX, mode),
        ensures
            final(self).wf(),
            final(self).executed(*old(self), Op::CPX, mode),
    {
        proof {
            reveal(CPU::executed);
            reveal(fits);
        }
        let m = self.load(mode);
        self.reg = compare_op(self.reg, self.reg.x, m);
    }

    /// Compare with Y.
    fn cpy(&mut self, mode: AddressingMode)
        requires
            old(self).wf(),
            fits(Op::CPY, mode),
        ensures
            final(self).wf(),
            final(self).executed(*old(self), Op::CPY, mode),
    {
        proof {
            reveal(CPU::executed);
            reveal(fits);
        }
        let m = self.load(mode);
        self.reg = compare_op(self.reg, self.reg.y, m);
    }

    /// Test bits of memory against A.
    fn bit(&mut self, mode: AddressingMode)
        requires
            old(self).wf(),
            fits(Op::BIT, mode),
        ensures
            final(self).wf(),
            final(self).executed(*old(self), Op::BIT, mode),
    {
        proof {
            reveal(CPU::executed);
            reveal(fits);
        }
        let m = self.load(mode);
        self.reg = bit_op(self.reg, m);
    }

    /// Load A.
    fn lda(&mut self, mode: AddressingMode)
        requires
            old(self).wf(),
            fits(Op::LDA, mode),
        ensures
            final(self).wf(),
            final(self).executed(*old(self), Op::LDA, mode),
    {
        proof {
            reveal(CPU::executed);
            reveal(fits);
        }
        let m = self.load(mode);
        self.reg.a = m;
        self.reg.p = set_zn(self.reg.p, m);
    }

    /// Load X.
    fn ldx(&mut self, mode: AddressingMode)
        requires
            old(self).wf(),
            fits(Op::LDX, mode),
        ensures
            final(self).wf(),
            final(self).executed(*old(self), Op::LDX, mode),
    {
        proof {
            reveal(CPU::executed);
            reveal(fits);
        }
        let m = self.load(mode);
        self.reg.x = m;
        self.reg.p = set_zn(self.reg.p, m);
    }

    /// Load Y.
    fn ldy(&mut self, mode: AddressingMode)
        requires
            old(self).wf(),
            fits(Op::LDY, mode),
        ensures
            final(self).wf(),
            final(self).executed(*old(self), Op::LDY, mode),
    {
        proof {
            reveal(CPU::executed);
            reveal(fits);
        }
        let m = self.load(mode);
        self.reg.y = m;
        self.reg.p = set_zn(self.reg.p, m);
    }

    /// Store A.
    fn sta(&mut self, mode: AddressingMode)
        requires
            old(self).wf(),
            fits(Op::STA, mode),
        ensures
            final(self).wf(),
            final(self).executed(*old(self), Op::STA, mode),
    {
        proof {
            reveal(CPU::executed);
            reveal(fits);
        }
        let v = self.reg.a;
        self.store(mode, v);
    }

    /// Store X.
    fn stx(&mut self, mode: AddressingMode)
        requires
            old(self).wf(),
            fits(Op::STX, mode),
        ensures
            final(self).wf(),
            final(self).executed(*old(self), Op::STX, mode),
    {
        proof {
            reveal(CPU::executed);
            reveal(fits);
        }
        let v = self.reg.x;
        self.store(mode, v);
    }

    /// Store Y.
    fn sty(&mut self, mode: AddressingMode)
        requires
            old(self).wf(),
            fits(Op::STY, mode),
        ensures
            final(self).wf(),
            final(self).executed(*old(self), Op::STY, mode),
    {
        proof {
            reveal(CPU::executed);
            reveal(fits);
        }
        let v = self.reg.y;
        self.store(mode, v);
    }

    /// Shift left.
    fn asl(&mut self, mode: AddressingMode)
        requires
            old(self).wf(),
            fits(Op::ASL, mode),
        ensures
            final(self).wf(),
            final(self).executed(*old(self), Op::ASL, mode),
    {
        proof {
            reveal(CPU::executed);
            reveal(fits);
        }
        self.shift(mode, 0);
    }

    /// Shift right.
    fn lsr(&mut self, mode: AddressingMode)
        requires
            old(self).wf(),
            fits(Op::LSR, mode),
        ensures
            final(self).wf(),
            final(self).executed(*old(self), Op::LSR, mode),
    {
        proof {
            reveal(CPU::executed);
            reveal(fits);
        }
        self.shift(mode, 1);
    }

    /// Rotate left through carry.
    fn rol(&mut self, mode: AddressingMode)
        requires
            old(self).wf(),
            fits(Op::ROL, mode),
        ensures
            final(self).wf(),
            final(self).executed(*old(self), Op::ROL, mode),
    {
        proof {
            reveal(CPU::executed);
            reveal(fits);
        }
        self.shift(mode, 2);
    }

    /// Rotate right through carry.
    fn ror(&mut self, mode: AddressingMode)
        requires
            old(self).wf(),
            fits(Op::ROR, mode),
        ensures
            final(self).wf(),
            final(self).executed(*old(self), Op::ROR, mode),
    {
        proof {
            reveal(CPU::executed);
            reveal(fits);
        }
        self.shift(mode, 3);
    }

    /// Increment memory.
    fn inc(&mut self, mode: AddressingMode)
        requires
            old(self).wf(),
            fits(Op::INC, mode),
        ensures
            final(self).wf(),
            final(self).executed(*old(self), Op::INC, mode),
    {
        proof {
            reveal(CPU::executed);
            reveal(fits);
        }
        self.add_to_memory(mode, 1);
    }

    /// Decrement memory.
    fn dec(&mut self, mode: AddressingMode)
        requires
            old(self).wf(),
            fits(Op::DEC, mode),
        ensures
            final(self).wf(),
            final(self).executed(*old(self), Op::DEC, mode),
    {
        proof {
            reveal(CPU::executed);
            reveal(fits);
        }
        self.add_to_memory(mode, 255);
    }

    /// Increment X.
    fn inx(&mut self, mode: AddressingMode)
        requires
            old(self).wf(),
            fits(Op::INX, mode),
        ensures
            final(self).wf(),
            final(self).executed(*old(self), Op::INX, mode),
    {
        proof {
            reveal(CPU::executed);
            reveal(fits);
        }
        let v = self.reg.x.wrapping_add(1);
        self.reg.x = v;
        self.reg.p = set_zn(self.reg.p, v);
    }

    /// Increment Y.
    fn iny(&mut self, mode: AddressingMode)
        requires
            old(self).wf(),
            fits(Op::INY, mode),
        ensures
            final(self).wf(),
            final(self).executed(*old(self), Op::INY, mode),
    {
        proof {
            reveal(CPU::executed);
            reveal(fits);
        }
        let v = self.reg.y.wrapping_add(1);
        self.reg.y = v;
        self.reg.p = set_zn(self.reg.p, v);
    }

    /// Decrement X.
    fn dex(&mut self, mode: AddressingMode)
        requires
            old(self).wf(),
            fits(Op::DEX, mode),
        ensures
            final(self).wf(),
            final(self).executed(*old(self), Op::DEX, mode),
    {
        proof {
            reveal(CPU::executed);
            reveal(fits);
        }
        let v = self.reg.x.wrapping_sub(1);
        self.reg.x = v;
        self.reg.p = set_zn(self.reg.p, v);
    }

    /// Decrement Y.
    fn dey(&mut self, mode: AddressingMode)
        requires
            old(self).wf(),
            fits(Op::DEY, mode),
        ensures
            final(self).wf(),
            final(self).executed(*old(self), Op::DEY, mode),
    {
        proof {
            reveal(CPU::executed);
            reveal(fits);
        }
        let v = self.reg.y.wrapping_sub(1);
        self.reg.y = v;
        self.reg.p = set_zn(self.reg.p, v);
    }

    /// Transfer A to X.
    fn tax(&mut self, mode: AddressingMode)
        requires
            old(self).wf(),
            fits(Op::TAX, mode),
        ensures
            final(self).wf(),
            final(self).executed(*old(self), Op::TAX, mode),
    {
        proof {
            reveal(CPU::executed);
            reveal(fits);
        }
        let v = self.reg.a;
        self.reg.x = v;
        self.reg.p = set_zn(self.reg.p, v);
    }

    /// Transfer A to Y.
    fn tay(&mut self, mode: AddressingMode)
        requires
            old(self).wf(),
            fits(Op::TAY, mode),
        ensures
            final(self).wf(),
            final(self).executed(*old(self), Op::TAY, mode),
    {
        proof {
            reveal(CPU::executed);
            reveal(fits);
        }
        let v = self.reg.a;
        self.reg.y = v;
        self.reg.p = set_zn(self.reg.p, v);
    }

    /// Transfer X to A.
    fn txa(&mut self, mode: AddressingMode)
        requires
            old(self).wf(),
            fits(Op::TXA, mode),
        ensures
            final(self).wf(),
            final(self).executed(*old(self), Op::TXA, mode),
    {
        proof {
            reveal(CPU::executed);
            reveal(fits);
        }
        let v = self.reg.x;
        self.reg.a = v;
        self.reg.p = set_zn(self.reg.p, v);
    }

    /// Transfer Y to A.
    fn tya(&mut self, mode: AddressingMode)
        requires
            old(self).wf(),
            fits(Op::TYA, mode),
        ensures
            final(self).wf(),
            final(self).executed(*old(self), Op::TYA, mode),
    {
        proof {
            reveal(CPU::executed);
            reveal(fits);
        }
        let v = self.reg.y;
        self.reg.a = v;
        self.reg.p = set_zn(self.reg.p, v);
    }

    /// Transfer S to X.
    fn tsx(&mut self, mode: AddressingMode)
        requires
            old(self).wf(),
            fits(Op::TSX, mode),
        ensures
            final(self).wf(),
            final(self).executed(*old(self), Op::TSX, mode),
    {
        proof {
            reveal(CPU::executed);
            reveal(fits);
        }
        let v = self.reg.s;
        self.reg.x = v;
        self.reg.p = set_zn(self.reg.p, v);
    }

    /// Transfer X to S.
    fn txs(&mut self, mode: AddressingMode)
        requires
            old(self).wf(),
            fits(Op::TXS, mode),
        ensures
            final(self).wf(),
            final(self).executed(*old(self), Op::TXS, mode),
    {
        proof {
            reveal(CPU::executed);
            reveal(fits);
        }
        self.reg.s = self.reg.x;
    }

    /// Clear carry.
    fn clc(&mut self, mode: AddressingMode)
        requires
            old(self).wf(),
            fits(Op::CLC, mode),
        ensures
            final(self).wf(),
            final(self).executed(*old(self), Op::CLC, mode),
    {
        proof {
            reveal(CPU::executed);
            reveal(fits);
        }
        self.reg.set_flag(Flag::C, false);
    }

    /// Clear decimal.
    fn cld(&mut self, mode: AddressingMode)
        requires
            old(self).wf(),
            fits(Op::CLD, mode),
        ensures
            final(self).wf(),
            final(self).executed(*old(self), Op::CLD, mode),
    {
        proof {
            reveal(CPU::executed);
            reveal(fits);
        }
        self.reg.set_flag(Flag::D, false);
    }

    /// Clear interrupt disable.
    fn cli(&mut self, mode: AddressingMode)
        requires
            old(self).wf(),
            fits(Op::CLI, mode),
        ensures
            final(self).wf(),
            final(self).executed(*old(self), Op::CLI, mode),
    {
        proof {
            reveal(CPU::executed);
            reveal(fits);
        }
        self.reg.set_flag(Flag::I, false);
    }

    /// Clear overflow.
    fn clv(&mut self, mode: AddressingMode)
        requires
            old(self).wf(),
            fits(Op::CLV, mode),
        ensures
            final(self).wf(),
            final(self).executed(*old(self), Op::CLV, mode),
    {
        proof {
            reveal(CPU::executed);
            reveal(fits);
        }
        self.reg.set_flag(Flag::V, false);
    }

    /// Set carry.
    fn sec(&mut self, mode: AddressingMode)
        requires
            old(self).wf(),
            fits(Op::SEC, mode),
        ensures
            final(self).wf(),
            final(self).executed(*old(self), Op::SEC, mode),
    {
        proof {
            reveal(CPU::executed);
            reveal(fits);
        }
        self.reg.set_flag(Flag::C, true);
    }

    /// Set decimal (no arithmetic effect on this CPU).
    fn sed(&mut self, mode: AddressingMode)
        requires
            old(self).wf(),
            fits(Op::SED, mode),
        ensures
            final(self).wf(),
            final(self).executed(*old(self), Op::SED, mode),
    {
        proof {
            reveal(CPU::executed);
            reveal(fits);
        }
        self.reg.set_flag(Flag::D, true);
    }

    /// Set interrupt disable.
    fn sei(&mut self, mode: AddressingMode)
        requires
            old(self).wf(),
            fits(Op::SEI, mode),
        ensures
            final(self).wf(),
            final(self).executed(*old(self), Op::SEI, mode),
    {
        proof {
            reveal(CPU::executed);
            reveal(fits);
        }
        self.reg.set_flag(Flag::I, true);
    }

    /// No operation.
    fn nop(&mut self, mode: AddressingMode)
        requires
            old(self).wf(),
            fits(Op::NOP, mode),
        ensures
            final(self).wf(),
            final(self).executed(*old(self), Op::NOP, mode),
    {
        proof {
            reveal(CPU::executed);
            reveal(fits);
        }
        
    }

    /// Branch on carry clear.
    fn bcc(&mut self, mode: AddressingMode)
        requires
            old(self).wf(),
            fits(Op::BCC, mode),
        ensures
            final(self).wf(),
            final(self).executed(*old(self), Op::BCC, mode),
    {
        proof {
            reveal(CPU::executed);
            reveal(fits);
        }
        let cond = !self.reg.get_flag(Flag::C);
        self.branch_if(cond);
    }

    /// Branch on carry set.
    fn bcs(&mut self, mode: AddressingMode)
        requires
            old(self).wf(),
            fits(Op::BCS, mode),
        ensures
            final(self).wf(),
            final(self).executed(*old(self), Op::BCS, mode),
    {
        proof {
            reveal(CPU::executed);
            reveal(fits);
        }
        let cond = self.reg.get_flag(Flag::C);
        self.branch_if(cond);
    }

    /// Branch on zero.
    fn beq(&mut self, mode: AddressingMode)
        requires
            old(self).wf(),
            fits(Op::BEQ, mode),
        ensures
            final(self).wf(),
            final(self).executed(*old(self), Op::BEQ, mode),
    {
        proof {
            reveal(CPU::executed);
            reveal(fits);
        }
        let cond = self.reg.get_flag(Flag::Z);
        self.branch_if(cond);
    }

    /// Branch on not zero.
    fn bne(&mut self, mode: AddressingMode)
        requires
            old(self).wf(),
            fits(Op::BNE, mode),
        ensures
            final(self).wf(),
            final(self).executed(*old(self), Op::BNE, mode),
    {
        proof {
            reveal(CPU::executed);
            reveal(fits);
        }
        let cond = !self.reg.get_flag(Flag::Z);
        self.branch_if(cond);
    }

    /// Branch on minus.
    fn bmi(&mut self, mode: AddressingMode)
        requires
            old(self).wf(),
            fits(Op::BMI, mode),
        ensures
            final(self).wf(),
            final(self).executed(*old(self), Op::BMI, mode),
    {
        proof {
            reveal(CPU::executed);
            reveal(fits);
        }
        let cond = self.reg.get_flag(Flag::N);
        self.branch_if(cond);
    }

    /// Branch on plus.
    fn bpl(&mut self, mode: AddressingMode)
        requires
            old(self).wf(),
            fits(Op::BPL, mode),
        ensures
            final(self).wf(),
            final(self).executed(*old(self), Op::BPL, mode),
    {
        proof {
            reveal(CPU::executed);
            reveal(fits);
        }
        let cond = !self.reg.get_flag(Flag::N);
        self.branch_if(cond);
    }

    /// Branch on overflow clear.
    fn bvc(&mut self, mode: AddressingMode)
        requires
            old(self).wf(),
            fits(Op::BVC, mode),
        ensures
            final(self).wf(),
            final(self).executed(*old(self), Op::BVC, mode),
    {
        proof {
            reveal(CPU::executed);
            reveal(fits);
        }
        let cond = !self.reg.get_flag(Flag::V);
        self.branch_if(cond);
    }

    /// Branch on overflow set.
    fn bvs(&mut self, mode: AddressingMode)
        requires
            old(self).wf(),
            fits(Op::BVS, mode),
        ensures
            final(self).wf(),
            final(self).executed(*old(self), Op::BVS, mode),
    {
        proof {
            reveal(CPU::executed);
            reveal(fits);
        }
        let cond = self.reg.get_flag(Flag::V);
        self.branch_if(cond);
    }

    /// Jump.
    fn jmp(&mut self, mode: AddressingMode)
        requires
            old(self).wf(),
            fits(Op::JMP, mode),
        ensures
            final(self).wf(),
            final(self).executed(*old(self), Op::JMP, mode),
    {
        proof {
            reveal(CPU::executed);
            reveal(fits);
        }
        let w = self.loadw_bump();
        if mode == AddressingMode::Absolute {
            self.reg.pc = w;
        } else {
            // The high byte of the target comes from the same page as the low byte.
            let hi = (w & 0xFF00) | (w.wrapping_add(1) & 0x00FF);
            self.reg.pc = self.read_pair(w, hi);
        }
    }

    /// Jump to subroutine, pushing the return address minus one.
    fn jsr(&mut self, mode: AddressingMode)
        requires
            old(self).wf(),
            fits(Op::JSR, mode),
        ensures
            final(self).wf(),
            final(self).executed(*old(self), Op::JSR, mode),
    {
        proof {
            reveal(CPU::executed);
            reveal(fits);
        }
        let w = self.loadw_bump();
        let ret = self.reg.pc.wrapping_sub(1);
        self.pushw(ret);
        self.reg.pc = w;
    }

    /// Return from subroutine.
    fn rts(&mut self, mode: AddressingMode)
        requires
            old(self).wf(),
            fits(Op::RTS, mode),
        ensures
            final(self).wf(),
            final(self).executed(*old(self), Op::RTS, mode),
    {
        proof {
            reveal(CPU::executed);
            reveal(fits);
        }
        let w = self.popw();
        self.reg.pc = w.wrapping_add(1);
    }

    /// Return from interrupt.
    fn rti(&mut self, mode: AddressingMode)
        requires
            old(self).wf(),
            fits(Op::RTI, mode),
        ensures
            final(self).wf(),
            final(self).executed(*old(self), Op::RTI, mode),
    {
        proof {
            reveal(CPU::executed);
            reveal(fits);
        }
        let p = self.popb();
        self.set_p(p);
        let w = self.popw();
        self.reg.pc = w;
    }

    /// Push A.
    fn pha(&mut self, mode: AddressingMode)
        requires
            old(self).wf(),
            fits(Op::PHA, mode),
        ensures
            final(self).wf(),
            final(self).executed(*old(self), Op::PHA, mode),
    {
        proof {
            reveal(CPU::executed);
            reveal(fits);
        }
        let v = self.reg.a;
        self.pushb(v);
    }

    /// Push P with B and bit 5 set.
    fn php(&mut self, mode: AddressingMode)
        requires
            old(self).wf(),
            fits(Op::PHP, mode),
        ensures
            final(self).wf(),
            final(self).executed(*old(self), Op::PHP, mode),
    {
        proof {
            reveal(CPU::executed);
            reveal(fits);
        }
        let v = self.reg.p | 0b0011_0000;
        self.pushb(v);
    }

    /// Pull A.
    fn pla(&mut self, mode: AddressingMode)
        requires
            old(self).wf(),
            fits(Op::PLA, mode),
        ensures
            final(self).wf(),
            final(self).executed(*old(self), Op::PLA, mode),
    {
        proof {
            reveal(CPU::executed);
            reveal(fits);
        }
        let v = self.popb();
        self.reg.a = v;
        self.reg.p = set_zn(self.reg.p, v);
    }

    /// Pull P.
    fn plp(&mut self, mode: AddressingMode)
        requires
            old(self).wf(),
            fits(Op::PLP, mode),
        ensures
            final(self).wf(),
            final(self).executed(*old(self), Op::PLP, mode),
    {
        proof {
            reveal(CPU::executed);
            reveal(fits);
        }
        let v = self.popb();
        self.set_p(v);
    }

    /// Break: push PC + 1 and P with B set, set I, jump through 0xFFFE.
    fn brk(&mut self, mode: AddressingMode)
        requires
            old(self).wf(),
            fits(Op::BRK, mode),
        ensures
            final(self).wf(),
            final(self).executed(*old(self), Op::BRK, mode),
    {
        proof {
            reveal(CPU::executed);
            reveal(fits);
        }
        let ret = self.reg.pc.wrapping_add(1);
        let p = self.reg.p | 0b0011_0000;
        self.interrupt(ret, p, BRK_VECTOR);
    }

    /// Instructions that read an operand into a register or the flags.
    fn execute_operand(&mut self, op: Op, mode: AddressingMode)
        requires
            old(self).wf(),
            fits(op, mode),
            op == Op::ADC || op == Op::SBC || op == Op::AND || op == Op::ORA || op == Op::EOR || op == Op::CMP || op == Op::CPX || op == Op::CPY || op == Op::BIT || op == Op::LDA || op == Op::LDX || op == Op::LDY,
        ensures
            final(self).wf(),
            final(self).executed(*old(self), op, mode),
    {
        match op {
            Op::ADC => self.adc(mode),
            Op::SBC => self.sbc(mode),
            Op::AND => self.and(mode),
            Op::ORA => self.ora(mode),
            Op::EOR => self.eor(mode),
            Op::CMP => self.cmp(mode),
            Op::CPX => self.cpx(mode),
            Op::CPY => self.cpy(mode),
            Op::BIT => self.bit(mode),
            Op::LDA => self.lda(mode),
            Op::LDX => self.ldx(mode),
            Op::LDY => self.ldy(mode),
            _ => {},
        }
    }

    /// Instructions that write memory (or shift A).
    fn execute_memory(&mut self, op: Op, mode: AddressingMode)
        requires
            old(self).wf(),
            fits(op, mode),
            op == Op::STA || op == Op::STX || op == Op::STY || op == Op::ASL || op == Op::LSR || op == Op::ROL || op == Op::ROR || op == Op::INC || op == Op::DEC,
        ensures
            final(self).wf(),
            final(self).executed(*old(self), op, mode),
    {
        match op {
            Op::STA => self.sta(mode),
            Op::STX => self.stx(mode),
            Op::STY => self.sty(mode),
            Op::ASL => self.asl(mode),
            Op::LSR => self.lsr(mode),
            Op::ROL => self.rol(mode),
            Op::ROR => self.ror(mode),
            Op::INC => self.inc(mode),
            Op::DEC => self.dec(mode),
            _ => {},
        }
    }

    /// Instructions on registers and flags alone.
    fn execute_register(&mut self, op: Op, mode: AddressingMode)
        requires
            old(self).wf(),
            fits(op, mode),
            op == Op::INX || op == Op::INY || op == Op::DEX || op == Op::DEY || op == Op::TAX || op == Op::TAY || op == Op::TXA || op == Op::TYA || op == Op::TSX || op == Op::TXS || op == Op::CLC || op == Op::CLD || op == Op::CLI || op == Op::CLV || op == Op::SEC || op == Op::SED || op == Op::SEI || op == Op::NOP,
        ensures
            final(self).wf(),
            final(self).executed(*old(self), op, mode),
    {
        match op {
            Op::INX => self.inx(mode),
            Op::INY => self.iny(mode),
            Op::DEX => self.dex(mode),
            Op::DEY => self.dey(mode),
            Op::TAX => self.tax(mode),
            Op::TAY => self.tay(mode),
            Op::TXA => self.txa(mode),
            Op::TYA => self.tya(mode),
            Op::TSX => self.tsx(mode),
            Op::TXS => self.txs(mode),
            Op::CLC => self.clc(mode),
            Op::CLD => self.cld(mode),
            Op::CLI => self.cli(mode),
            Op::CLV => self.clv(mode),
            Op::SEC => self.sec(mode),
            Op::SED => self.sed(mode),
            Op::SEI => self.sei(mode),
            Op::NOP => self.nop(mode),
            _ => {},
        }
    }

    /// Branches, jumps, returns and the stack.
    fn execute_flow(&mut self, op: Op, mode: AddressingMode)
        requires
            old(self).wf(),
            fits(op, mode),
            op == Op::BCC || op == Op::BCS || op == Op::BEQ || op == Op::BNE || op == Op::BMI || op == Op::BPL || op == Op::BVC || op == Op::BVS || op == Op::JMP || op == Op::JSR || op == Op::RTS || op == Op::RTI || op == Op::BRK || op == Op::PHA || op == Op::PHP || op == Op::PLA || op == Op::PLP,
        ensures
            final(self).wf(),
            final(self).executed(*old(self), op, mode),
    {
        match op {
            Op::BCC => self.bcc(mode),
            Op::BCS => self.bcs(mode),
            Op::BEQ => self.beq(mode),
            Op::BNE => self.bne(mode),
            Op::BMI => self.bmi(mode),
            Op::BPL => self.bpl(mode),
            Op::BVC => self.bvc(mode),
            Op::BVS => self.bvs(mode),
            Op::JMP => self.jmp(mode),
            Op::JSR => self.jsr(mode),
            Op::RTS => self.rts(mode),
            Op::RTI => self.rti(mode),
            Op::BRK => self.brk(mode),
            Op::PHA => self.pha(mode),
            Op::PHP => self.php(mode),
            Op::PLA => self.pla(mode),
            Op::PLP => self.plp(mode),
            _ => {},
        }
    }

    /// Runs instruction `op` in `mode`; the opcode byte has been consumed.
    pub fn execute(&mut self, op: Op, mode: AddressingMode)
        requires
            old(self).wf(),
            fits(op, mode),
        ensures
            final(self).wf(),
            final(self).executed(*old(self), op, mode),
    {
        match op {
            Op::ADC | Op::SBC | Op::AND | Op::ORA | Op::EOR | Op::CMP | Op::CPX | Op::CPY | Op::BIT | Op::LDA | Op::LDX | Op::LDY => self.execute_operand(op, mode),
            Op::STA | Op::STX | Op::STY | Op::ASL | Op::LSR | Op::ROL | Op::ROR | Op::INC | Op::DEC => self.execute_memory(op, mode),
            Op::INX | Op::INY | Op::DEX | Op::DEY | Op::TAX | Op::TAY | Op::TXA | Op::TYA | Op::TSX | Op::TXS | Op::CLC | Op::CLD | Op::CLI | Op::CLV | Op::SEC | Op::SED | Op::SEI | Op::NOP => self.execute_register(op, mode),
            Op::BCC | Op::BCS | Op::BEQ | Op::BNE | Op::BMI | Op::BPL | Op::BVC | Op::BVS | Op::JMP | Op::JSR | Op::RTS | Op::RTI | Op::BRK | Op::PHA | Op::PHP | Op::PLA | Op::PLP => self.execute_flow(op, mode),
        }
    }

    /// `self` is `before` after one instruction: the stall count is cleared, the
    /// opcode fetched and, when the table knows it, the instruction executed and its
    /// base cycle count returned.
    pub open spec fn ticked(&self, before: CPU, r: Result<u8, CpuError>) -> bool {
        let start = CPU { stall: 0, ..before };
        let (opcode, s1) = start.fetch();
        match decode_spec(opcode) {
            None => r == Err::<u8, CpuError>(CpuError::UnknownOpcode(opcode)) && *self == s1,
            Some((op, mode, c)) => r == Ok::<u8, CpuError>(c) && self.executed(s1, op, mode),
        }
    }

    /// Executes the instruction at the program counter and returns its base cycle
    /// count, or the unknown opcode.
    pub fn tick(&mut self) -> (r: Result<u8, CpuError>)
        requires
            old(self).wf(),
        ensures
            final(self).wf(),
            final(self).ticked(*old(self), r),
    {
        self.stall = 0;
        let opcode = self.loadb_bump();
        match decode(opcode) {
            None => Err(CpuError::UnknownOpcode(opcode)),
            Some((op, mode, cycles)) => {
                proof {
                    lemma_decode_fits(opcode);
                }
                self.execute(op, mode);
                Ok(cycles)
            },
        }
    }

    /// Runs one instruction, then the PPU for the cycles it took (an OAM DMA stall
    /// included), then the NMI that the PPU raised, if any. Returns whether the PPU
    /// completed a frame.
    pub fn step(&mut self) -> (r: Result<bool, CpuError>)
        requires
            old(self).wf(),
        ensures
            final(self).wf(),
            (r is Err) == (decode_spec(old(self).peek(old(self).reg.pc)) is None),
            r is Err ==> r == Err::<bool, CpuError>(CpuError::UnknownOpcode(old(self).peek(old(self).reg.pc))),
            r is Err ==> final(self).ticked(*old(self), Err(CpuError::UnknownOpcode(old(self).peek(old(self).reg.pc)))),
            r is Ok ==> final(self).step_done(*old(self), r->Ok_0),
    {
        let ghost start = CPU { stall: 0, ..*self };
        let ghost before = *self;
        assert(start.peek(start.reg.pc) == self.peek(self.reg.pc));
        match self.tick() {
            Err(e) => Err(e),
            Ok(c) => {
                let ghost t = *self;
                let spent = c as u64 + self.stall as u64;
                self.cycles = self.cycles.wrapping_add(spent);
                let nmi = self.ppu.tick(spent);
                let ghost u = *self;
                if nmi {
                    self.nmi();
                }
                assert(self.stepped_via(before, t, c, u.ppu, nmi, self.ppu.frame_complete));
                Ok(self.ppu.frame_complete)
            },
        }
    }

    /// `self` is `before` after a step through `t` (the machine once the instruction
    /// ran, its base cycle count `c`) and `p` (the PPU once it ran for those cycles and
    /// any DMA stall, asking for an NMI when `nmi`), reporting `frame`.
    pub open spec fn stepped_via(&self, before: CPU, t: CPU, c: u8, p: PPU, nmi: bool, frame: bool) -> bool {
        let spent = (c as u64 + t.stall as u64) as u64;
        let u = CPU { ppu: p, cycles: t.cycles.wrapping_add(spent), ..t };
        &&& t.wf()
        &&& t.ticked(before, Ok(c))
        &&& p.ticked(t.ppu, spent, nmi)
        &&& if nmi {
            self.interrupted(u, u.reg.pc, (u.reg.p & 0xEFu8) | 0x20u8, NMI_VECTOR)
        } else {
            *self == u
        }
        &&& frame == p.frame_complete
    }

    /// `self` is `before` after one step that reported `frame`: one instruction
    /// executed (`ticked`), the cycle counter raised by its base cost and DMA stall,
    /// the PPU run for those cycles (`PPU::ticked`), and the NMI sequence applied
    /// exactly when the PPU asked for it.
    pub open spec fn step_done(&self, before: CPU, frame: bool) -> bool {
        exists|t: CPU, c: u8, p: PPU, nmi: bool| #[trigger] self.stepped_via(before, t, c, p, nmi, frame)
    }
}

} // verus!

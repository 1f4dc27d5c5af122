use vstd::prelude::*;
use crate::register::{has_flag, with_flag, Flag, Registers};

verus! {

/// `p` with Z and N set from the result `v`.
pub open spec fn zn(p: u8, v: u8) -> u8 {
    with_flag(with_flag(p, Flag::Z, v == 0), Flag::N, v & 0x80u8 != 0)
}

/// The carry flag of `p` as a number.
pub open spec fn carry(p: u8) -> u8 {
    if has_flag(p, Flag::C) { 1 } else { 0 }
}

/// A + M + C into A; C from the unsigned overflow, V from the signed one, N and Z
/// from the result.
pub open spec fn adc_regs(r: Registers, m: u8) -> Registers {
    let sum = r.a as int + m as int + carry(r.p) as int;
    let res = (sum % 256) as u8;
    let p = with_flag(r.p, Flag::C, sum > 255);
    let p = with_flag(p, Flag::V, (!(r.a ^ m) & (r.a ^ res)) & 0x80u8 != 0);
    Registers { a: res, p: zn(p, res), ..r }
}

/// SBC is ADC of the complement of M.
pub open spec fn sbc_regs(r: Registers, m: u8) -> Registers {
    adc_regs(r, !m)
}

/// Flags of a comparison of `reg` with `m`: C when `reg >= m`, N and Z from the
/// difference.
pub open spec fn compare_regs(r: Registers, reg: u8, m: u8) -> Registers {
    Registers { p: zn(with_flag(r.p, Flag::C, reg >= m), reg.wrapping_sub(m)), ..r }
}

/// BIT: N and V from bits 7 and 6 of M, Z from A AND M.
pub open spec fn bit_regs(r: Registers, m: u8) -> Registers {
    let p = with_flag(r.p, Flag::N, m & 0x80u8 != 0);
    let p = with_flag(p, Flag::V, m & 0x40u8 != 0);
    Registers { p: with_flag(p, Flag::Z, m & r.a == 0), ..r }
}

/// The status byte that PLP and RTI install: bits 5 and 4 keep their old value.
pub open spec fn pulled_status(old_p: u8, val: u8) -> u8 {
    (val & 0xCFu8) | (old_p & 0x30u8)
}

/// The four shifts and rotates: `(result, carry out)` for operand `v` and carry in `c`.
pub open spec fn shift_spec(kind: int, v: u8, c: bool) -> (u8, bool) {
    if kind == 0 {
        (v << 1u8, v & 0x80u8 != 0)
    } else if kind == 1 {
        (v >> 1u8, v & 1u8 != 0)
    } else if kind == 2 {
        ((v << 1u8) | (if c { 1u8 } else { 0u8 }), v & 0x80u8 != 0)
    } else {
        ((v >> 1u8) | (if c { 0x80u8 } else { 0u8 }), v & 1u8 != 0)
    }
}

/// `v` as a signed byte.
pub open spec fn signed(v: u8) -> int {
    if v < 128 { v as int } else { v as int - 256 }
}

pub fn set_zn(p: u8, v: u8) -> (r: u8)
    ensures
        r == zn(p, v),
{
    let p = if v == 0 { p | 0x02 } else { p & !0x02 };
    if v & 0x80 != 0 { p | 0x80 } else { p & !0x80 }
}

fn set_bit(p: u8, flag: Flag, val: bool) -> (r: u8)
    ensures
        r == with_flag(p, flag, val),
{
    let mut regs = Registers { a: 0, x: 0, y: 0, pc: 0, s: 0, p };
    regs.set_flag(flag, val);
    regs.p
}

pub fn adc_op(r: Registers, m: u8) -> (o: Registers)
    ensures
        o == adc_regs(r, m),
{
    let c: u16 = if r.get_flag(Flag::C) { 1 } else { 0 };
    let sum: u16 = r.a as u16 + m as u16 + c;
    let res = (sum % 256) as u8;
    let p = set_bit(r.p, Flag::C, sum > 255);
    let p = set_bit(p, Flag::V, (!(r.a ^ m) & (r.a ^ res)) & 0x80 != 0);
    Registers { a: res, p: set_zn(p, res), ..r }
}

pub fn compare_op(r: Registers, reg: u8, m: u8) -> (o: Registers)
    ensures
        o == compare_regs(r, reg, m),
{
    Registers { p: set_zn(set_bit(r.p, Flag::C, reg >= m), reg.wrapping_sub(m)), ..r }
}

pub fn bit_op(r: Registers, m: u8) -> (o: Registers)
    ensures
        o == bit_regs(r, m),
{
    let p = set_bit(r.p, Flag::N, m & 0x80 != 0);
    let p = set_bit(p, Flag::V, m & 0x40 != 0);
    Registers { p: set_bit(p, Flag::Z, m & r.a == 0), ..r }
}

pub fn shift_op(kind: u8, v: u8, c: bool) -> (r: (u8, bool))
    requires
        kind < 4,
    ensures
        r == shift_spec(kind as int, v, c),
{
    if kind == 0 {
        (v << 1, v & 0x80 != 0)
    } else if kind == 1 {
        (v >> 1, v & 1 != 0)
    } else if kind == 2 {
        ((v << 1) | (if c { 1u8 } else { 0u8 }), v & 0x80 != 0)
    } else {
        ((v >> 1) | (if c { 0x80u8 } else { 0u8 }), v & 1 != 0)
    }
}

} // verus!

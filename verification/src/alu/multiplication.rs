use vstd::prelude::*;

use super::Alu;
use crate::register_bank::{Flags, RegState, RegisterBank};

verus! {

use super::{to_u16, word_hi, word_lo};

/// The two's-complement value of a byte read as a signed quantity.
pub open spec fn signed8(v: u8) -> int {
    if v >= 0x80 {
        v - 256
    } else {
        v as int
    }
}

/// State after a multiply: the 16-bit `stored` value lands in register
/// pair r1:r0, the carry flag reports bit 15 of the raw product and the
/// zero flag whether the stored result is zero.
pub open spec fn spec_mul_store(r: RegState, stored: u16, raw: u16) -> RegState {
    RegState {
        regs: r.regs.update(0, word_lo(stored)).update(1, word_hi(stored)),
        flags: Flags { carry: raw & 0x8000 != 0, zero: stored == 0, ..r.flags },
        ..r
    }
}

/// State after `muls`: signed times signed.
pub open spec fn spec_muls(r: RegState, rdu: int, rru: int) -> RegState {
    let prod = to_u16(signed8(r.regs[rdu]) * signed8(r.regs[rru]));
    spec_mul_store(r, prod, prod)
}

/// State after `mulsu`: signed times unsigned.
pub open spec fn spec_mulsu(r: RegState, rdu: int, rru: int) -> RegState {
    let prod = to_u16(signed8(r.regs[rdu]) * r.regs[rru]);
    spec_mul_store(r, prod, prod)
}

/// State after `fmul`: unsigned fixed-point multiply; the raw product is
/// shifted left once before it is stored.
pub open spec fn spec_fmul(r: RegState, rdu: int, rru: int) -> RegState {
    let raw = to_u16(r.regs[rdu] * r.regs[rru]);
    spec_mul_store(r, to_u16(2 * raw), raw)
}

/// State after `fmuls`: signed fixed-point multiply with the single left
/// shift.
pub open spec fn spec_fmuls(r: RegState, rdu: int, rru: int) -> RegState {
    let raw = to_u16(signed8(r.regs[rdu]) * signed8(r.regs[rru]));
    spec_mul_store(r, to_u16(2 * raw), raw)
}

/// State after `fmulsu`: signed times unsigned fixed-point multiply with
/// the single left shift.
pub open spec fn spec_fmulsu(r: RegState, rdu: int, rru: int) -> RegState {
    let raw = to_u16(signed8(r.regs[rdu]) * r.regs[rru]);
    spec_mul_store(r, to_u16(2 * raw), raw)
}

/// An 8-bit product, signed or unsigned, stays within one 16-bit
/// two's-complement step of zero.
proof fn lemma_mul_range(rd: i32, rr: i32)
    by (nonlinear_arith)
    requires
        -128 <= rd <= 255,
        -128 <= rr <= 255,
    ensures
        -0x8000 <= rd * rr < 0x10000,
{
}

/// Reduces a product in the range of 16-bit two's complement to its
/// 16-bit representation.
fn reduce16(p: i32) -> (r: u16)
    requires
        -0x8000 <= p < 0x10000,
    ensures
        r == to_u16(p as int),
{
    if p < 0 {
        (p + 0x10000) as u16
    } else {
        p as u16
    }
}

/// The signed reading of a register byte.
fn signed_value(v: u8) -> (r: i32)
    ensures
        r == signed8(v),
{
    if v >= 0x80 {
        (v as i32) - 256
    } else {
        v as i32
    }
}

/// Stores a 16-bit product in r1:r0 and sets carry from bit 15 of `raw`
/// and zero from the stored result.
fn mul_store(stored: u16, raw: u16, register_bank: &mut RegisterBank) -> (nothing: ())
    ensures
        final(register_bank)@ == spec_mul_store(old(register_bank)@, stored, raw),
{
    proof {
        crate::memory_bank::lemma_and_mask_le(stored, 0xFF);
        crate::memory_bank::lemma_and_mask_le(stored >> 8, 0xFF);
    }
    register_bank.registers[0] = (stored & 0xFF) as u8;
    register_bank.registers[1] = ((stored >> 8) & 0xFF) as u8;
    let mut flags = register_bank.get_flags();
    flags.carry = raw & 0x8000 != 0;
    flags.zero = stored == 0;
    register_bank.set_flags(flags);
}

impl Alu {
    /// `muls`: signed by signed 8-bit multiply into r1:r0.
    pub fn muls(rdu: usize, rru: usize, register_bank: &mut RegisterBank)
        requires
            rdu < 32,
            rru < 32,
        ensures
            final(register_bank)@ == spec_muls(old(register_bank)@, rdu as int, rru as int),
    {
        let rd = signed_value(register_bank.registers[rdu]);
        let rr = signed_value(register_bank.registers[rru]);
        proof {
            lemma_mul_range(rd, rr);
        }
        let prod = reduce16(rd * rr);
        mul_store(prod, prod, register_bank);
    }

    /// `mulsu`: signed by unsigned 8-bit multiply into r1:r0.
    pub fn mulsu(rdu: usize, rru: usize, register_bank: &mut RegisterBank)
        requires
            rdu < 32,
            rru < 32,
        ensures
            final(register_bank)@ == spec_mulsu(old(register_bank)@, rdu as int, rru as int),
    {
        let rd = signed_value(register_bank.registers[rdu]);
        let rr = register_bank.registers[rru] as i32;
        proof {
            lemma_mul_range(rd, rr);
        }
        let prod = reduce16(rd * rr);
        mul_store(prod, prod, register_bank);
    }

    /// `fmul`: unsigned fixed-point multiply into r1:r0; the stored
    /// product is the raw product shifted left once.
    pub fn fmul(rdu: usize, rru: usize, register_bank: &mut RegisterBank)
        requires
            rdu < 32,
            rru < 32,
        ensures
            final(register_bank)@ == spec_fmul(old(register_bank)@, rdu as int, rru as int),
    {
        let rd = register_bank.registers[rdu] as i32;
        let rr = register_bank.registers[rru] as i32;
        proof {
            lemma_mul_range(rd, rr);
        }
        let raw = reduce16(rd * rr);
        let stored = reduce16((raw as i32) * 2 - if raw >= 0x8000 {
            0x10000
        } else {
            0
        });
        mul_store(stored, raw, register_bank);
    }

    /// `fmuls`: signed fixed-point multiply into r1:r0 with the single
    /// left shift.
    pub fn fmuls(rdu: usize, rru: usize, register_bank: &mut RegisterBank)
        requires
            rdu < 32,
            rru < 32,
        ensures
            final(register_bank)@ == spec_fmuls(old(register_bank)@, rdu as int, rru as int),
    {
        let rd = signed_value(register_bank.registers[rdu]);
        let rr = signed_value(register_bank.registers[rru]);
        proof {
            lemma_mul_range(rd, rr);
        }
        let raw = reduce16(rd * rr);
        let stored = reduce16((raw as i32) * 2 - if raw >= 0x8000 {
            0x10000
        } else {
            0
        });
        mul_store(stored, raw, register_bank);
    }

    /// `fmulsu`: signed by unsigned fixed-point multiply into r1:r0 with
    /// the single left shift.
    pub fn fmulsu(rdu: usize, rru: usize, register_bank: &mut RegisterBank)
        requires
            rdu < 32,
            rru < 32,
        ensures
            final(register_bank)@ == spec_fmulsu(old(register_bank)@, rdu as int, rru as int),
    {
        let rd = signed_value(register_bank.registers[rdu]);
        let rr = register_bank.registers[rru] as i32;
        proof {
            lemma_mul_range(rd, rr);
        }
        let raw = reduce16(rd * rr);
        let stored = reduce16((raw as i32) * 2 - if raw >= 0x8000 {
            0x10000
        } else {
            0
        });
        mul_store(stored, raw, register_bank);
    }
}

} // verus!

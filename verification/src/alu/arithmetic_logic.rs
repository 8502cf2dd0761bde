use vstd::prelude::*;

use super::Alu;
use crate::memory_bank::{MemState, MemoryBank};
use crate::register_bank::{Flags, RegState, RegisterBank};

verus! {

/// The low byte of a non-negative integer.
pub open spec fn lo8(n: int) -> u8 {
    (n % 256) as u8
}

/// Flags after an 8-bit addition `rd + rr + carry_in = sum`, computed by
/// the canonical two's-complement formulas; `trans` and `int` keep their
/// previous values from `f`.
pub open spec fn spec_add_flags(rd: u8, rr: u8, sum: u8, f: Flags) -> Flags {
    let hc = (rd & rr) | (rr & !sum) | (rd & !sum);
    let ovf = (rd & rr & !sum) | (!rd & !rr & sum);
    Flags {
        carry: hc & 0x80 != 0,
        half: hc & 0x08 != 0,
        neg: sum & 0x80 != 0,
        over: ovf & 0x80 != 0,
        zero: sum == 0,
        sign: (sum & 0x80 != 0) ^ (ovf & 0x80 != 0),
        ..f
    }
}

/// State after `add`: register `rdu` receives the 8-bit wrapped sum of
/// registers `rdu` and `rru` plus `carry`, and the arithmetic flags are
/// recomputed.
pub open spec fn spec_add(r: RegState, rdu: int, rru: int, carry: u8) -> RegState {
    let rd = r.regs[rdu];
    let rr = r.regs[rru];
    let sum = lo8(rd + rr + carry);
    RegState { regs: r.regs.update(rdu, sum), flags: spec_add_flags(rd, rr, sum, r.flags), ..r }
}

/// Flags after an 8-bit subtraction `rd - sub_val = result`, computed by
/// the dual two's-complement formulas.
pub open spec fn spec_sub_flags(rd: u8, sub_val: u8, result: u8, f: Flags) -> Flags {
    let hc = (!rd & sub_val) | (sub_val & result) | (!rd & result);
    let ovf = (rd & !sub_val & !result) | (!rd & sub_val & result);
    Flags {
        carry: hc & 0x80 != 0,
        half: hc & 0x08 != 0,
        neg: result & 0x80 != 0,
        over: ovf & 0x80 != 0,
        zero: result == 0,
        sign: (result & 0x80 != 0) ^ (ovf & 0x80 != 0),
        ..f
    }
}

/// State after the common body of `sub`/`sbc`/`cp`/`cpc`: register `rdu`
/// minus (register `rru` plus `carry`), stored back only when `store` is
/// set; the flags are recomputed either way.
pub open spec fn spec_substract_base(
    r: RegState,
    rdu: int,
    rru: int,
    carry: u8,
    store: bool,
) -> RegState {
    let rd = r.regs[rdu];
    let rr_plus_c = lo8(r.regs[rru] + carry);
    let result = lo8(256 + rd - rr_plus_c);
    RegState {
        regs: if store {
            r.regs.update(rdu, result)
        } else {
            r.regs
        },
        flags: spec_sub_flags(rd, rr_plus_c, result, r.flags),
        ..r
    }
}

/// State after the common body of `subi`/`sbci`/`cpi`: like
/// [`spec_substract_base`] with an immediate in place of the second
/// register.
pub open spec fn spec_substract_imm_base(
    r: RegState,
    rdu: int,
    constant: u8,
    carry: u8,
    store: bool,
) -> RegState {
    let rd = r.regs[rdu];
    let const_with_carry = lo8(constant + carry);
    let result = lo8(256 + rd - const_with_carry);
    RegState {
        regs: if store {
            r.regs.update(rdu, result)
        } else {
            r.regs
        },
        flags: spec_sub_flags(rd, const_with_carry, result, r.flags),
        ..r
    }
}

/// Flags after a bitwise logic operation: `zero` and `neg` follow the
/// result, `over` is cleared, `sign` copies `neg`; `carry` and `half`
/// keep their previous values.
pub open spec fn spec_logic_flags(result: u8, f: Flags) -> Flags {
    Flags {
        zero: result == 0,
        neg: result & 0x80 != 0,
        over: false,
        sign: result & 0x80 != 0,
        ..f
    }
}

/// State after `andi`: register `rdu` is masked with `constant`.
pub open spec fn spec_andi(r: RegState, rdu: int, constant: u8) -> RegState {
    let result = (r.regs[rdu] & constant) as u8;
    RegState { regs: r.regs.update(rdu, result), flags: spec_logic_flags(result, r.flags), ..r }
}

/// State after `eor`: register `rdu` becomes the exclusive or of
/// registers `rdu` and `rru`.
pub open spec fn spec_eor(r: RegState, rdu: int, rru: int) -> RegState {
    let result = (r.regs[rdu] ^ r.regs[rru]) as u8;
    RegState { regs: r.regs.update(rdu, result), flags: spec_logic_flags(result, r.flags), ..r }
}

/// State after `ori`: register `rdu` receives itself or-ed with
/// `constant`.
pub open spec fn spec_ori(r: RegState, rdu: int, constant: u8) -> RegState {
    let result = (r.regs[rdu] | constant) as u8;
    RegState { regs: r.regs.update(rdu, result), flags: spec_logic_flags(result, r.flags), ..r }
}

/// State after `mov`: register `rdu` receives register `rru`; no flag
/// changes.
pub open spec fn spec_mov(r: RegState, rdu: int, rru: int) -> RegState {
    RegState { regs: r.regs.update(rdu, r.regs[rru]), ..r }
}

/// State after `movw`: register pair `rdu+1:rdu` receives pair
/// `rru+1:rru`; no flag changes.
pub open spec fn spec_movw(r: RegState, rdu: int, rru: int) -> RegState {
    RegState { regs: r.regs.update(rdu, r.regs[rru]).update(rdu + 1, r.regs[rru + 1]), ..r }
}

/// State after `com` (ones' complement): the carry flag is forced on.
pub open spec fn spec_com(r: RegState, rdu: int) -> RegState {
    let res = (0xFF - r.regs[rdu]) as u8;
    RegState {
        regs: r.regs.update(rdu, res),
        flags: Flags {
            carry: true,
            zero: res == 0,
            neg: res & 0x80 != 0,
            over: false,
            sign: res & 0x80 != 0,
            ..r.flags
        },
        ..r
    }
}

/// State after `neg` (two's complement): carry is set unless the result
/// is zero, overflow fires only on 0x80, and half-carry reports a borrow
/// from bit 3.
pub open spec fn spec_neg(r: RegState, rdu: int) -> RegState {
    let rd = r.regs[rdu];
    let res = lo8(256 - rd);
    RegState {
        regs: r.regs.update(rdu, res),
        flags: Flags {
            carry: res != 0,
            zero: res == 0,
            neg: res & 0x80 != 0,
            over: res == 0x80,
            sign: (res & 0x80 != 0) ^ (res == 0x80),
            half: ((res | rd) & 0x8) != 0,
            ..r.flags
        },
        ..r
    }
}

/// State after `swap`: the nibbles of register `rdu` exchange places; no
/// flag changes.
pub open spec fn spec_swap(r: RegState, rdu: int) -> RegState {
    let v = r.regs[rdu];
    let res = (((v & 0x0F) << 4) | ((v & 0xF0) >> 4)) as u8;
    RegState { regs: r.regs.update(rdu, res), ..r }
}

/// State after `inc`: wrapping increment; the carry flag is untouched
/// and overflow fires only at the 0x7F boundary.
pub open spec fn spec_inc(r: RegState, rdu: int) -> RegState {
    let res = lo8(r.regs[rdu] + 1);
    RegState {
        regs: r.regs.update(rdu, res),
        flags: Flags {
            zero: res == 0,
            neg: res & 0x80 != 0,
            over: res == 0x80,
            sign: (res & 0x80 != 0) ^ (res == 0x80),
            ..r.flags
        },
        ..r
    }
}

/// State after `dec`: wrapping decrement; the carry flag is untouched
/// and overflow fires only at the 0x80 boundary.
pub open spec fn spec_dec(r: RegState, rdu: int) -> RegState {
    let res = lo8(r.regs[rdu] + 255);
    RegState {
        regs: r.regs.update(rdu, res),
        flags: Flags {
            zero: res == 0,
            neg: res & 0x80 != 0,
            over: res == 0x7F,
            sign: (res & 0x80 != 0) ^ (res == 0x7F),
            ..r.flags
        },
        ..r
    }
}

/// State after `asr` (arithmetic shift right): bit 7 is kept, the
/// shifted-out bit goes to carry.
pub open spec fn spec_asr(r: RegState, rdu: int) -> RegState {
    let v = r.regs[rdu];
    let res = ((v >> 1) | (v & 0x80)) as u8;
    let carry = v & 1 != 0;
    let neg = res & 0x80 != 0;
    RegState {
        regs: r.regs.update(rdu, res),
        flags: Flags {
            carry,
            zero: res == 0,
            neg,
            over: neg ^ carry,
            sign: carry,
            ..r.flags
        },
        ..r
    }
}

/// State after `lsr` (logical shift right): bit 7 clears, the
/// shifted-out bit goes to carry.
pub open spec fn spec_lsr(r: RegState, rdu: int) -> RegState {
    let v = r.regs[rdu];
    let res = (v >> 1) as u8;
    let carry = v & 1 != 0;
    RegState {
        regs: r.regs.update(rdu, res),
        flags: Flags {
            carry,
            zero: res == 0,
            neg: false,
            over: carry,
            sign: carry,
            ..r.flags
        },
        ..r
    }
}

/// State after `ror` (rotate right through carry): the old carry becomes
/// bit 7 and the shifted-out bit the new carry.
pub open spec fn spec_ror(r: RegState, rdu: int) -> RegState {
    let v = r.regs[rdu];
    let old_carry = r.flags.carry;
    let res = if old_carry {
        ((v >> 1) | 0x80) as u8
    } else {
        (v >> 1) as u8
    };
    let carry = v & 1 != 0;
    RegState {
        regs: r.regs.update(rdu, res),
        flags: Flags {
            carry,
            zero: res == 0,
            neg: old_carry,
            over: old_carry ^ carry,
            sign: carry,
            ..r.flags
        },
        ..r
    }
}

/// State after `adiw`: the 16-bit register pair selected by `rdu`
/// (pairs 25:24 up to 31:30) plus a 6-bit constant; carry and overflow
/// come from the high-byte transition and zero holds only when both
/// result bytes are zero.
pub open spec fn spec_adiw(r: RegState, rdu: int, constant: u8) -> RegState {
    let rd = 24 + rdu * 2;
    let rdl = r.regs[rd];
    let rdh = r.regs[rd + 1];
    let resl = lo8(rdl + constant);
    let resh = if resl < rdl && resl < constant {
        lo8(rdh + 1)
    } else {
        rdh
    };
    let neg = resh & 0x80 != 0;
    let over = (!rdh & resh) & 0x80 != 0;
    RegState {
        regs: r.regs.update(rd, resl).update(rd + 1, resh),
        flags: Flags {
            carry: (rdh & !resh) & 0x80 != 0,
            over,
            neg,
            zero: resh == 0 && resl == 0,
            sign: neg ^ over,
            ..r.flags
        },
        ..r
    }
}

/// State after `sbiw`: the 16-bit register pair selected by `rdu` minus
/// a 6-bit constant, with the dual flag formulas of [`spec_adiw`].
pub open spec fn spec_sbiw(r: RegState, rdu: int, constant: u8) -> RegState {
    let rd = 24 + rdu * 2;
    let rdl = r.regs[rd];
    let rdh = r.regs[rd + 1];
    let resl = lo8(256 + rdl - constant);
    let resh = if constant > rdl {
        lo8(256 + rdh - 1)
    } else {
        rdh
    };
    let neg = resh & 0x80 != 0;
    let over = (rdh & !resh) & 0x80 != 0;
    RegState {
        regs: r.regs.update(rd, resl).update(rd + 1, resh),
        flags: Flags {
            carry: (!rdh & resh) & 0x80 != 0,
            over,
            neg,
            zero: resh == 0 && resl == 0,
            sign: neg ^ over,
            ..r.flags
        },
        ..r
    }
}

/// Memory state after `sbi`/`cbi`: one bit of the I/O register at
/// `address` (offset 0x20 into data memory) is set or cleared.
pub open spec fn spec_execute_bit_manip(m: MemState, address: u8, bit: u8, set: bool) -> MemState {
    let a = (address + 0x20) as u16;
    let io_reg = m.data[m.data_index(a)];
    let mask = (1u8 << bit) as u8;
    let new_val = if set {
        (io_reg | mask) as u8
    } else {
        (io_reg & !mask) as u8
    };
    m.store_data(a, new_val)
}

/// Whether registers `rdu` and `rru` hold equal bytes: the `cpse` skip
/// condition.
pub open spec fn spec_comp_skip_taken(r: RegState, rdu: int, rru: int) -> bool {
    r.regs[rdu] == r.regs[rru]
}

impl Alu {
    // Two-register instructions.
    /// `add`/`adc`: sum of two registers into the first, with `carry` as
    /// carry-in.
    pub fn add(rdu: usize, rru: usize, register_bank: &mut RegisterBank, carry: u8)
        requires
            rdu < 32,
            rru < 32,
            carry <= 1,
        ensures
            final(register_bank)@ == spec_add(old(register_bank)@, rdu as int, rru as int, carry),
    {
        let rd = register_bank.registers[rdu];
        let rr = register_bank.registers[rru];
        let sum = rd.wrapping_add(rr).wrapping_add(carry);
        let hc_flags = (rd & rr) | (rr & !sum) | (rd & !sum);
        register_bank.registers[rdu] = sum;
        let mut flags = register_bank.get_flags();
        flags.carry = hc_flags & 0x80 != 0;
        flags.half = hc_flags & 0x08 != 0;
        flags.neg = sum & 0x80 != 0;
        let tmp_overflow = (rd & rr & !sum) | (!rd & !rr & sum);
        flags.over = tmp_overflow & 0x80 != 0;
        flags.zero = sum == 0;
        flags.sign = flags.neg ^ flags.over;
        register_bank.set_flags(flags);
    }

    /// `cp`/`cpc`: compare by subtracting without storing the result.
    pub fn compare(rdu: usize, rru: usize, register_bank: &mut RegisterBank, carry: u8)
        requires
            rdu < 32,
            rru < 32,
            carry <= 1,
        ensures
            final(register_bank)@ == spec_substract_base(
                old(register_bank)@,
                rdu as int,
                rru as int,
                carry,
                false,
            ),
    {
        Alu::substract_base(rdu, rru, register_bank, carry, false);
    }

    /// `cpse`: skip the next instruction (one word, or two for
    /// `lds`/`sts`) when the two registers are equal.
    pub fn comp_skip(
        rdu: usize,
        rru: usize,
        register_bank: &mut RegisterBank,
        memory_bank: &MemoryBank,
    )
        requires
            rdu < 32,
            rru < 32,
            memory_bank@.wf(),
        ensures
            final(register_bank)@ == (if spec_comp_skip_taken(
                old(register_bank)@,
                rdu as int,
                rru as int,
            ) {
                RegState {
                    pc: super::spec_skip_pc(old(register_bank)@.pc, memory_bank@),
                    ..old(register_bank)@
                }
            } else {
                old(register_bank)@
            }),
    {
        let rd_value = register_bank.registers[rdu];
        let rr_value = register_bank.registers[rru];
        if rd_value == rr_value {
            Alu::skip_next_instruction(register_bank, memory_bank);
        }
    }

    /// `and`: bitwise and of two registers into the first.
    pub fn and(rdu: usize, rru: usize, register_bank: &mut RegisterBank)
        requires
            rdu < 32,
            rru < 32,
        ensures
            final(register_bank)@ == spec_andi(
                old(register_bank)@,
                rdu as int,
                old(register_bank)@.regs[rru as int],
            ),
    {
        let rr_value = register_bank.registers[rru];
        Alu::andi(rdu, rr_value, register_bank);
    }

    /// `andi`: bitwise and of a register with a constant.
    pub fn andi(rdu: usize, constant: u8, register_bank: &mut RegisterBank)
        requires
            rdu < 32,
        ensures
            final(register_bank)@ == spec_andi(old(register_bank)@, rdu as int, constant),
    {
        let result = register_bank.registers[rdu] & constant;
        register_bank.registers[rdu] = result;
        let mut flags = register_bank.get_flags();
        flags.zero = result == 0;
        flags.neg = result & 0x80 != 0;
        flags.over = false;
        flags.sign = flags.neg;
        register_bank.set_flags(flags);
    }

    /// `eor`: bitwise exclusive or of two registers into the first.
    pub fn eor(rdu: usize, rru: usize, register_bank: &mut RegisterBank)
        requires
            rdu < 32,
            rru < 32,
        ensures
            final(register_bank)@ == spec_eor(old(register_bank)@, rdu as int, rru as int),
    {
        let result = register_bank.registers[rdu] ^ register_bank.registers[rru];
        register_bank.registers[rdu] = result;
        let mut flags = register_bank.get_flags();
        flags.zero = result == 0;
        flags.neg = result & 0x80 != 0;
        flags.over = false;
        flags.sign = flags.neg;
        register_bank.set_flags(flags);
    }

    /// `or`: bitwise or of two registers into the first.
    pub fn or(rdu: usize, rru: usize, register_bank: &mut RegisterBank)
        requires
            rdu < 32,
            rru < 32,
        ensures
            final(register_bank)@ == spec_ori(
                old(register_bank)@,
                rdu as int,
                old(register_bank)@.regs[rru as int],
            ),
    {
        let rr_value = register_bank.registers[rru];
        Alu::ori(rdu, rr_value, register_bank);
    }

    /// `ori`: bitwise or of a register with a constant.
    pub fn ori(rdu: usize, constant: u8, register_bank: &mut RegisterBank)
        requires
            rdu < 32,
        ensures
            final(register_bank)@ == spec_ori(old(register_bank)@, rdu as int, constant),
    {
        let result = register_bank.registers[rdu] | constant;
        register_bank.registers[rdu] = result;
        let mut flags = register_bank.get_flags();
        flags.zero = result == 0;
        flags.neg = result & 0x80 != 0;
        flags.over = false;
        flags.sign = flags.neg;
        register_bank.set_flags(flags);
    }

    /// `mov`: copy one register into another; flags are untouched.
    pub fn mov(rdu: usize, rru: usize, register_bank: &mut RegisterBank)
        requires
            rdu < 32,
            rru < 32,
        ensures
            final(register_bank)@ == spec_mov(old(register_bank)@, rdu as int, rru as int),
    {
        register_bank.registers[rdu] = register_bank.registers[rru];
    }

    /// `movw`: copy a register pair into another pair; flags are
    /// untouched.
    pub fn movw(rdu: usize, rru: usize, register_bank: &mut RegisterBank)
        requires
            rdu < 31,
            rru < 31,
            rdu % 2 == 0,
            rru % 2 == 0,
        ensures
            final(register_bank)@ == spec_movw(old(register_bank)@, rdu as int, rru as int),
    {
        register_bank.registers[rdu] = register_bank.registers[rru];
        register_bank.registers[rdu + 1] = register_bank.registers[rru + 1];
    }

    // One register, one constant operations.
    /// `subi`: subtract an immediate from a register.
    pub fn subi(rdu: usize, constant: u8, register_bank: &mut RegisterBank)
        requires
            rdu < 32,
        ensures
            final(register_bank)@ == spec_substract_imm_base(
                old(register_bank)@,
                rdu as int,
                constant,
                0,
                true,
            ),
    {
        Alu::substract_imm_base(rdu, constant, register_bank, 0, true);
    }

    /// `sbci`: subtract an immediate and the carry flag from a register.
    pub fn sbci(rdu: usize, constant: u8, register_bank: &mut RegisterBank)
        requires
            rdu < 32,
        ensures
            final(register_bank)@ == spec_substract_imm_base(
                old(register_bank)@,
                rdu as int,
                constant,
                if old(register_bank)@.flags.carry {
                    1u8
                } else {
                    0u8
                },
                true,
            ),
    {
        let carry = register_bank.get_carry_as_u8();
        Alu::substract_imm_base(rdu, constant, register_bank, carry, true);
    }

    /// `cpi`: compare a register against an immediate, without storing
    /// the result; the carry flag plays no part in the comparison.
    pub fn cpi(rdu: usize, constant: u8, register_bank: &mut RegisterBank)
        requires
            rdu < 32,
        ensures
            final(register_bank)@ == spec_substract_imm_base(
                old(register_bank)@,
                rdu as int,
                constant,
                0,
                false,
            ),
    {
        Alu::substract_imm_base(rdu, constant, register_bank, 0, false);
    }

    /// `com`: ones' complement.
    pub fn com(rdu: usize, register_bank: &mut RegisterBank)
        requires
            rdu < 32,
        ensures
            final(register_bank)@ == spec_com(old(register_bank)@, rdu as int),
    {
        let res = 0xFF - register_bank.registers[rdu];
        let mut flags = register_bank.get_flags();
        flags.carry = true;
        flags.zero = res == 0;
        flags.neg = res & 0x80 != 0;
        flags.over = false;
        flags.sign = flags.neg;
        register_bank.registers[rdu] = res;
        register_bank.set_flags(flags);
    }

    /// `neg`: two's complement.
    pub fn neg(rdu: usize, register_bank: &mut RegisterBank)
        requires
            rdu < 32,
        ensures
            final(register_bank)@ == spec_neg(old(register_bank)@, rdu as int),
    {
        let rd = register_bank.registers[rdu];
        let res = 0u8.wrapping_sub(rd);
        let mut flags = register_bank.get_flags();
        flags.carry = res != 0;
        flags.zero = res == 0;
        flags.neg = res & 0x80 != 0;
        flags.over = res == 0x80;
        flags.sign = flags.neg ^ flags.over;
        flags.half = ((res | rd) & 0x8) != 0;
        register_bank.registers[rdu] = res;
        register_bank.set_flags(flags);
    }

    /// `swap`: exchange the nibbles of a register.
    pub fn swap(rdu: usize, register_bank: &mut RegisterBank)
        requires
            rdu < 32,
        ensures
            final(register_bank)@ == spec_swap(old(register_bank)@, rdu as int),
    {
        let value = register_bank.registers[rdu];
        register_bank.registers[rdu] = (value & 0x0F) << 4 | (value & 0xF0) >> 4;
    }

    /// `inc`: increment a register by one without touching the carry
    /// flag.
    pub fn inc(rdu: usize, register_bank: &mut RegisterBank)
        requires
            rdu < 32,
        ensures
            final(register_bank)@ == spec_inc(old(register_bank)@, rdu as int),
    {
        let res = register_bank.registers[rdu].wrapping_add(1);
        register_bank.registers[rdu] = res;
        let mut flags = register_bank.get_flags();
        flags.zero = res == 0;
        flags.neg = res & 0x80 != 0;
        flags.over = res == 0x80;
        flags.sign = flags.neg ^ flags.over;
        register_bank.set_flags(flags);
    }

    /// `dec`: decrement a register by one without touching the carry
    /// flag.
    pub fn dec(rdu: usize, register_bank: &mut RegisterBank)
        requires
            rdu < 32,
        ensures
            final(register_bank)@ == spec_dec(old(register_bank)@, rdu as int),
    {
        let res = register_bank.registers[rdu].wrapping_sub(1);
        register_bank.registers[rdu] = res;
        let mut flags = register_bank.get_flags();
        flags.zero = res == 0;
        flags.neg = res & 0x80 != 0;
        flags.over = res == 0x7F;
        flags.sign = flags.neg ^ flags.over;
        register_bank.set_flags(flags);
    }

    /// `asr`: arithmetic shift right, keeping bit 7.
    pub fn asr(rdu: usize, register_bank: &mut RegisterBank)
        requires
            rdu < 32,
        ensures
            final(register_bank)@ == spec_asr(old(register_bank)@, rdu as int),
    {
        let value = register_bank.registers[rdu];
        let res = (value >> 1) | (value & 0x80);
        register_bank.registers[rdu] = res;
        let mut flags = register_bank.get_flags();
        flags.carry = value & 1 != 0;
        flags.zero = res == 0;
        flags.neg = res & 0x80 != 0;
        flags.over = flags.neg ^ flags.carry;
        flags.sign = flags.carry;
        register_bank.set_flags(flags);
    }

    /// `lsr`: logical shift right, clearing bit 7.
    pub fn lsr(rdu: usize, register_bank: &mut RegisterBank)
        requires
            rdu < 32,
        ensures
            final(register_bank)@ == spec_lsr(old(register_bank)@, rdu as int),
    {
        let value = register_bank.registers[rdu];
        let res = value >> 1;
        register_bank.registers[rdu] = res;
        let mut flags = register_bank.get_flags();
        flags.carry = value & 1 != 0;
        flags.zero = res == 0;
        flags.neg = false;
        flags.over = flags.carry;
        flags.sign = flags.carry;
        register_bank.set_flags(flags);
    }

    /// `ror`: rotate right through the carry flag.
    pub fn ror(rdu: usize, register_bank: &mut RegisterBank)
        requires
            rdu < 32,
        ensures
            final(register_bank)@ == spec_ror(old(register_bank)@, rdu as int),
    {
        let mut flags = register_bank.get_flags();
        let old_carry = flags.carry;
        let value = register_bank.registers[rdu];
        let res = if old_carry {
            (value >> 1) | 0x80
        } else {
            value >> 1
        };
        register_bank.registers[rdu] = res;
        flags.carry = value & 1 != 0;
        flags.zero = res == 0;
        flags.neg = old_carry;
        flags.over = flags.neg ^ flags.carry;
        flags.sign = flags.carry;
        register_bank.set_flags(flags);
    }

    /// `sub`/`sbc`: subtract one register (plus `carry`) from another,
    /// storing the result.
    pub fn substract(rdu: usize, rru: usize, register_bank: &mut RegisterBank, carry: u8)
        requires
            rdu < 32,
            rru < 32,
            carry <= 1,
        ensures
            final(register_bank)@ == spec_substract_base(
                old(register_bank)@,
                rdu as int,
                rru as int,
                carry,
                true,
            ),
    {
        Alu::substract_base(rdu, rru, register_bank, carry, true);
    }

    fn substract_base(
        rdu: usize,
        rru: usize,
        register_bank: &mut RegisterBank,
        carry: u8,
        store_result: bool,
    )
        requires
            rdu < 32,
            rru < 32,
            carry <= 1,
        ensures
            final(register_bank)@ == spec_substract_base(
                old(register_bank)@,
                rdu as int,
                rru as int,
                carry,
                store_result,
            ),
    {
        let rd = register_bank.registers[rdu];
        let rr = register_bank.registers[rru];
        let rr_plus_c = rr.wrapping_add(carry);
        let result = rd.wrapping_sub(rr_plus_c);
        let hc_flags = (!rd & rr_plus_c) | (rr_plus_c & result) | (!rd & result);
        let mut flags = register_bank.get_flags();
        flags.carry = hc_flags & 0x80 != 0;
        flags.half = hc_flags & 0x08 != 0;
        flags.neg = result & 0x80 != 0;
        let tmp_overflow = (rd & !rr_plus_c & !result) | (!rd & rr_plus_c & result);
        flags.over = tmp_overflow & 0x80 != 0;
        flags.zero = result == 0;
        flags.sign = flags.neg ^ flags.over;
        register_bank.set_flags(flags);
        if store_result {
            register_bank.registers[rdu] = result;
        }
    }

    fn substract_imm_base(
        rdu: usize,
        constant: u8,
        register_bank: &mut RegisterBank,
        carry: u8,
        store_result: bool,
    )
        requires
            rdu < 32,
            carry <= 1,
        ensures
            final(register_bank)@ == spec_substract_imm_base(
                old(register_bank)@,
                rdu as int,
                constant,
                carry,
                store_result,
            ),
    {
        let rd = register_bank.registers[rdu];
        let const_with_carry = constant.wrapping_add(carry);
        let result = rd.wrapping_sub(const_with_carry);
        let hc_flags = (!rd & const_with_carry) | (const_with_carry & result) | (!rd & result);
        let mut flags = register_bank.get_flags();
        flags.carry = hc_flags & 0x80 != 0;
        flags.half = hc_flags & 0x08 != 0;
        flags.neg = result & 0x80 != 0;
        let tmp_overflow = (rd & !const_with_carry & !result) | (!rd & const_with_carry & result);
        flags.over = tmp_overflow & 0x80 != 0;
        flags.zero = result == 0;
        flags.sign = flags.neg ^ flags.over;
        register_bank.set_flags(flags);
        if store_result {
            register_bank.registers[rdu] = result;
        }
    }

    /// `adiw`: add an immediate to a 16-bit register pair.
    pub fn adiw(rdu: usize, constant: u8, register_bank: &mut RegisterBank)
        requires
            rdu < 4,
        ensures
            final(register_bank)@ == spec_adiw(old(register_bank)@, rdu as int, constant),
    {
        let rd = 24 + rdu * 2;
        let rdl = register_bank.registers[rd];
        let rdh = register_bank.registers[rd + 1];
        let resl = rdl.wrapping_add(constant);
        register_bank.registers[rd] = resl;
        if resl < rdl && resl < constant {
            register_bank.registers[rd + 1] = rdh.wrapping_add(1);
        }
        let resh = register_bank.registers[rd + 1];
        let mut flags = register_bank.get_flags();
        flags.carry = (rdh & !resh) & 0x80 != 0;
        flags.over = (!rdh & resh) & 0x80 != 0;
        flags.neg = resh & 0x80 != 0;
        flags.zero = resh == 0 && resl == 0;
        flags.sign = flags.neg ^ flags.over;
        register_bank.set_flags(flags);
        proof {
            assert(register_bank@.regs =~= spec_adiw(
                old(register_bank)@,
                rdu as int,
                constant,
            ).regs);
        }
    }

    /// `sbiw`: subtract an immediate from a 16-bit register pair.
    pub fn sbiw(rdu: usize, constant: u8, register_bank: &mut RegisterBank)
        requires
            rdu < 4,
        ensures
            final(register_bank)@ == spec_sbiw(old(register_bank)@, rdu as int, constant),
    {
        let rd = 24 + rdu * 2;
        let rdl = register_bank.registers[rd];
        let rdh = register_bank.registers[rd + 1];
        let resl = rdl.wrapping_sub(constant);
        register_bank.registers[rd] = resl;
        if constant > rdl {
            register_bank.registers[rd + 1] = rdh.wrapping_sub(1);
        }
        let resh = register_bank.registers[rd + 1];
        let mut flags = register_bank.get_flags();
        flags.carry = (!rdh & resh) & 0x80 != 0;
        flags.over = (rdh & !resh) & 0x80 != 0;
        flags.neg = resh & 0x80 != 0;
        flags.zero = resh == 0 && resl == 0;
        flags.sign = flags.neg ^ flags.over;
        register_bank.set_flags(flags);
        proof {
            assert(register_bank@.regs =~= spec_sbiw(
                old(register_bank)@,
                rdu as int,
                constant,
            ).regs);
        }
    }

    /// `sbi`/`cbi`: set or clear one bit of an I/O register in data
    /// memory.
    pub fn execute_bit_manip(address: u8, bit: u8, set: bool, memory_bank: &mut MemoryBank)
        requires
            address < 32,
            bit < 8,
            old(memory_bank)@.wf(),
        ensures
            final(memory_bank)@ == spec_execute_bit_manip(old(memory_bank)@, address, bit, set),
            final(memory_bank)@.wf(),
    {
        let io_reg = memory_bank.get_data_byte((address + 0x20) as u16);
        let mask = 1u8 << bit;
        let new_val = if set {
            io_reg | mask
        } else {
            io_reg & !mask
        };
        memory_bank.set_data_byte((address + 0x20) as u16, new_val);
    }
}

} // verus!

//! Machine-level properties of the simulator, each proved once and for
//! all from the step model: how the program counter advances, what the
//! stack and the wraparound masks guarantee, and the 16-bit reading of
//! the word arithmetic instructions.
use vstd::prelude::*;

verus! {

use crate::alu::arithmetic_logic::{spec_adiw, spec_sbiw, spec_substract_base};
use crate::alu::call_jmp::spec_call_sp;
use crate::alu::zero_reg::spec_ret;
use crate::alu::{spec_execute, spec_skip_pc, to_u16, word_hi, word_lo};
use crate::decoder::spec_decode;
use crate::instruction::Instruction;
use crate::mcu::{spec_step, McuState};
use crate::alu::transfer::{spec_decrement_pointer, spec_indirect_address};
use crate::memory_bank::{
    is_low_bits_mask, lemma_mask_is_mod, lemma_mod_of_mod16, lemma_store_data_shape,
    lemma_wrap_and_mask, wrap_add16, MemState,
};
use crate::register_bank::{next_pc, RegState};
use vstd::arithmetic::div_mod::{lemma_add_mod_noop, lemma_mod_add_multiples_vanish, lemma_mod_bound, lemma_small_mod};

/// Execution of any one instruction keeps the memory bank's shape: the
/// program memory and both masks are untouched, and the data memory
/// keeps its length.
pub proof fn lemma_execute_mem_shape(i: Instruction, r: RegState, m: MemState)
    requires
        m.wf(),
    ensures
        ({
            let (r1, m1) = spec_execute(i, r, m);
            &&& m1.wf()
            &&& m1.data.len() == m.data.len()
            &&& m1.program == m.program
            &&& m1.dmask == m.dmask
            &&& m1.pmask == m.pmask
        }),
{
    match i {
        Instruction::BitManipOp { address, bit, set } => {
            let io_reg = m.data[m.data_index((address + 0x20) as u16)];
            let mask = (1u8 << bit) as u8;
            let new_val = if set {
                (io_reg | mask) as u8
            } else {
                (io_reg & !mask) as u8
            };
            lemma_store_data_shape(m, (address + 0x20) as u16, new_val);
        },
        Instruction::CallJmp { is_call, relative, address } => {
            if is_call {
                let ret_addr = wrap_add16(r.pc, 2);
                let m1 = m.store_data(r.sp, word_lo(ret_addr));
                lemma_store_data_shape(m, r.sp, word_lo(ret_addr));
                lemma_store_data_shape(m1, wrap_add16(r.sp, 1), word_hi(ret_addr));
            }
        },
        Instruction::InOut { is_in, reg, address } => {
            if !is_in {
                lemma_store_data_shape(m, (address + 0x20) as u16, r.regs[reg as int]);
            }
        },
        Instruction::PushPop { is_pop, reg } => {
            if !is_pop {
                let sp1 = if r.sp == 0 {
                    (m.data.len() - 1) as u16
                } else {
                    (r.sp - 1) as u16
                };
                lemma_store_data_shape(m, sp1, r.regs[reg as int]);
            }
        },
        Instruction::TransferIndirect { is_load, pointer, dest, offset } => {
            if !is_load {
                lemma_store_data_shape(
                    m,
                    spec_indirect_address(r, pointer, offset),
                    r.regs[dest as int],
                );
            }
        },
        Instruction::TransferChangePointer { is_load, pointer, dest, post_inc } => {
            if !is_load {
                if post_inc {
                    lemma_store_data_shape(
                        m,
                        spec_indirect_address(r, pointer, 0),
                        r.regs[dest as int],
                    );
                } else {
                    let r1 = spec_decrement_pointer(r, pointer);
                    lemma_store_data_shape(
                        m,
                        spec_indirect_address(r1, pointer, 0),
                        r1.regs[dest as int],
                    );
                }
            }
        },
        _ => {},
    }
}

/// Masking a value that already lies within a low-bits mask changes
/// nothing.
proof fn lemma_mask_small(x: u16, m: u16)
    requires
        is_low_bits_mask(m),
        x <= m,
    ensures
        x & m == x,
{
    lemma_mask_is_mod(x, m);
    lemma_small_mod(x as nat, (m + 1) as nat);
}

/// A 16-bit word is exactly its high byte over its low byte.
proof fn lemma_word_split(w: u16)
    ensures
        ((word_hi(w) as u16) << 8) | (word_lo(w) as u16) == w,
{
    assert((((((w >> 8) & 0xFF) as u8) as u16) << 8) | (((w & 0xFF) as u8) as u16) == w)
        by (bit_vector);
}

/// The masked program-counter step is addition of two modulo the
/// program-memory size.
proof fn lemma_next_pc_mod(pc: u16, m: MemState)
    requires
        m.wf(),
    ensures
        next_pc(pc, m.pmask) as int == (pc + 2) % (m.program.len() as int),
{
    lemma_wrap_and_mask(pc + 2, m.pmask);
}

/// An instruction that neither branches, nor calls or jumps, nor skips,
/// nor returns: execution leaves the program counter alone.
pub open spec fn is_sequential(i: Instruction) -> bool {
    match i {
        Instruction::Branch { .. } => false,
        Instruction::CallJmp { .. } => false,
        Instruction::SkipOp { .. } => false,
        Instruction::TwoRegOp { op, .. } => op != 0x4,
        Instruction::ZeroRegOp { op } => op != 0x0 && op != 0x1,
        _ => true,
    }
}

/// Program-counter monotonicity: a step over any sequential instruction
/// (no branch, no call or jump, no skip, no return) advances the program
/// counter by exactly two bytes, modulo the program-memory size.
pub proof fn lemma_step_advances_pc(s: McuState)
    requires
        s.wf(),
        is_sequential(spec_decode(s.mem.program_word(s.regs.pc))),
    ensures
        spec_step(s).regs.pc as int == (s.regs.pc + 2) % (s.mem.program.len() as int),
        s.regs.pc + 2 < s.mem.program.len() ==> spec_step(s).regs.pc == s.regs.pc + 2,
{
    let i = spec_decode(s.mem.program_word(s.regs.pc));
    let (r1, m1) = spec_execute(i, s.regs, s.mem);
    lemma_execute_mem_shape(i, s.regs, s.mem);
    assert(r1.pc == s.regs.pc);
    lemma_next_pc_mod(r1.pc, m1);
    if s.regs.pc + 2 < s.mem.program.len() {
        lemma_small_mod((s.regs.pc + 2) as nat, s.mem.program.len());
    }
}

/// Compare non-mutation: a step over `cp` or `cpc` changes no register,
/// neither memory bank, nor the stack pointer; only the flags and the
/// advancing program counter move.
pub proof fn lemma_compare_non_mutation(s: McuState, op: u16, rd: u8, rr: u8)
    requires
        s.wf(),
        spec_decode(s.mem.program_word(s.regs.pc)) == (Instruction::TwoRegOp { op, rd, rr }),
        op == 0x1 || op == 0x5,
    ensures
        spec_step(s).regs.regs == s.regs.regs,
        spec_step(s).regs.sp == s.regs.sp,
        spec_step(s).mem == s.mem,
        spec_step(s).regs.pc as int == (s.regs.pc + 2) % (s.mem.program.len() as int),
{
    let i = spec_decode(s.mem.program_word(s.regs.pc));
    let carry = if s.regs.flags.carry {
        1u8
    } else {
        0u8
    };
    assert(spec_execute(i, s.regs, s.mem).0 == spec_substract_base(
        s.regs,
        rd as int,
        rr as int,
        if op == 0x1 {
            carry
        } else {
            0u8
        },
        false,
    ));
    lemma_step_advances_pc(s);
}

/// The skip law: `cpse` with equal operands advances the program counter
/// by four bytes, or by six when the following word opens a two-word
/// `lds`/`sts` instruction; with unequal operands the step advances by
/// the plain two.
#[verifier::rlimit(30)]
pub proof fn lemma_cpse_skip(s: McuState, rd: u8, rr: u8)
    requires
        s.wf(),
        spec_decode(s.mem.program_word(s.regs.pc)) == (Instruction::TwoRegOp { op: 0x4, rd, rr }),
    ensures
        s.regs.regs[rd as int] != s.regs.regs[rr as int] ==> spec_step(s).regs.pc as int == (
        s.regs.pc + 2) % (s.mem.program.len() as int),
        (s.regs.regs[rd as int] == s.regs.regs[rr as int] && s.mem.program_word(
            next_pc(s.regs.pc, s.mem.pmask),
        ) & 0xFC0F != 0x9000) ==> spec_step(s).regs.pc as int == (s.regs.pc + 4) % (
        s.mem.program.len() as int),
        (s.regs.regs[rd as int] == s.regs.regs[rr as int] && s.mem.program_word(
            next_pc(s.regs.pc, s.mem.pmask),
        ) & 0xFC0F == 0x9000) ==> spec_step(s).regs.pc as int == (s.regs.pc + 6) % (
        s.mem.program.len() as int),
        spec_step(s).regs.regs == s.regs.regs,
        spec_step(s).mem == s.mem,
{
    let psize = s.mem.program.len() as int;
    let i = spec_decode(s.mem.program_word(s.regs.pc));
    let (r1, m1) = spec_execute(i, s.regs, s.mem);
    let p1 = next_pc(s.regs.pc, s.mem.pmask);
    lemma_next_pc_mod(s.regs.pc, s.mem);
    if s.regs.regs[rd as int] == s.regs.regs[rr as int] {
        assert(r1.pc == spec_skip_pc(s.regs.pc, s.mem));
        lemma_next_pc_mod(p1, s.mem);
        if s.mem.program_word(p1) & 0xFC0F == 0x9000 {
            let p2 = next_pc(p1, s.mem.pmask);
            assert(r1.pc == p2);
            lemma_next_pc_mod(p2, s.mem);
            lemma_mod_then_add(s.regs.pc + 2, 2, psize);
            assert(p2 as int == (s.regs.pc + 4) % psize);
            lemma_mod_then_add(s.regs.pc + 4, 2, psize);
            assert(spec_step(s).regs.pc as int == (p2 + 2) % psize);
            assert(spec_step(s).regs.pc as int == (s.regs.pc + 6) % psize);
        } else {
            assert(r1.pc == p1);
            lemma_mod_then_add(s.regs.pc + 2, 2, psize);
            assert(spec_step(s).regs.pc as int == (p1 + 2) % psize);
            assert(spec_step(s).regs.pc as int == (s.regs.pc + 4) % psize);
        }
    } else {
        assert(r1.pc == s.regs.pc);
    }
}

/// The branch law: a taken conditional branch lands, after the step's
/// own advance, exactly `offset` words past the following instruction:
/// the program counter becomes `pc + 2*offset + 2` modulo the
/// program-memory size, wrapping across the start of program memory for
/// negative offsets near zero.
pub proof fn lemma_branch_target(s: McuState, op: u8, test_set: bool, offset: i8)
    requires
        s.wf(),
        spec_decode(s.mem.program_word(s.regs.pc)) == (Instruction::Branch {
            op,
            test_set,
            offset,
        }),
        crate::alu::branch::spec_branch_flag(s.regs.flags, op) == test_set,
    ensures
        spec_step(s).regs.pc as int == (s.regs.pc + 2 * offset + 2) % (s.mem.program.len() as int),
{
    let psize = s.mem.program.len() as int;
    let x = s.regs.pc + 2 * offset;
    let i = spec_decode(s.mem.program_word(s.regs.pc));
    let (r1, m1) = spec_execute(i, s.regs, s.mem);
    lemma_mod_bound(x, psize);
    assert(r1.pc as int == x % psize);
    lemma_next_pc_mod(r1.pc, m1);
    lemma_mod_then_add(x, 2, psize);
}

/// Adding to a reduced value and reducing again is one reduction of the
/// sum.
proof fn lemma_mod_then_add(x: int, c: int, p: int)
    requires
        0 < p,
    ensures
        ((x % p) + c) % p == (x + c) % p,
{
    vstd::arithmetic::div_mod::lemma_fundamental_div_mod(x, p);
    assert((x % p) + c == p * (-(x / p)) + (x + c)) by {
        assert(p * (-(x / p)) == -(p * (x / p))) by (nonlinear_arith);
    };
    vstd::arithmetic::div_mod::lemma_mod_multiples_vanish(-(x / p), x + c, p);
}

/// Memory wraparound: a write at `address + data_size` is a write at
/// `address`, and reads back identically from there.
pub proof fn lemma_data_memory_wraparound(m: MemState, address: u16, value: u8)
    requires
        m.wf(),
    ensures
        m.data_index(wrap_add16(address, to_u16(m.data.len() as int))) == m.data_index(address),
        m.store_data(wrap_add16(address, to_u16(m.data.len() as int)), value).data[m.data_index(
            address,
        )] == value,
{
    let ds = m.data.len() as int;
    let s16 = to_u16(ds);
    lemma_small_mod(address as nat, 0x10000);
    lemma_wrap_and_mask(address + s16, m.dmask);
    lemma_mask_is_mod(address, m.dmask);
    if ds == 0x10000 {
        assert(s16 == 0);
        lemma_small_mod(address as nat, 0x10000 as nat);
    } else {
        lemma_small_mod(ds as nat, 0x10000 as nat);
        assert(s16 == ds);
        lemma_mod_add_multiples_vanish(address as int, ds);
    }
}

/// The 16-bit reading of `adiw`: the selected register pair becomes the
/// old pair value plus the constant modulo 2^16; carry reports the
/// 16-bit overflow, zero the all-zero result, overflow the signed
/// crossing of 0x8000, and all other registers keep their bytes.
pub proof fn lemma_adiw_is_16bit_add(r: RegState, rdu: int, k: u8)
    requires
        r.wf(),
        0 <= rdu < 4,
        k < 64,
    ensures
        ({
            let rd = 24 + rdu * 2;
            let old16 = r.regs[rd] + 256 * r.regs[rd + 1];
            let s = spec_adiw(r, rdu, k);
            let new16 = s.regs[rd] + 256 * s.regs[rd + 1];
            &&& new16 == (old16 + k) % 0x10000
            &&& (s.flags.carry <==> old16 + k >= 0x10000)
            &&& (s.flags.zero <==> new16 == 0)
            &&& (s.flags.over <==> old16 < 0x8000 <= old16 + k)
            &&& (s.flags.neg <==> new16 >= 0x8000)
            &&& forall|j: int| 0 <= j < 32 && j != rd && j != rd + 1 ==> s.regs[j] == r.regs[j]
        }),
{
    let rd = 24 + rdu * 2;
    let rdl = r.regs[rd];
    let rdh = r.regs[rd + 1];
    let old16 = rdl + 256 * rdh;
    let s = spec_adiw(r, rdu, k);
    let resl = s.regs[rd];
    let resh = s.regs[rd + 1];
    assert(resl as int == (rdl + k) % 256);
    lemma_byte_mod(rdl + k);
    let low_overflow = rdl + k >= 256;
    assert(low_overflow == (resl < rdl && resl < k));
    if low_overflow {
        lemma_byte_mod(rdh + 1);
    }
    lemma_bit7_pair(rdh, resh);
    lemma_word_mod(old16 + k);
}

/// The 16-bit reading of `sbiw`: the selected register pair becomes the
/// old pair value minus the constant modulo 2^16; carry reports the
/// 16-bit borrow, zero the all-zero result, overflow the signed crossing
/// below 0x8000, and all other registers keep their bytes.
pub proof fn lemma_sbiw_is_16bit_sub(r: RegState, rdu: int, k: u8)
    requires
        r.wf(),
        0 <= rdu < 4,
        k < 64,
    ensures
        ({
            let rd = 24 + rdu * 2;
            let old16 = r.regs[rd] + 256 * r.regs[rd + 1];
            let s = spec_sbiw(r, rdu, k);
            let new16 = s.regs[rd] + 256 * s.regs[rd + 1];
            &&& new16 == (old16 - k) % 0x10000
            &&& (s.flags.carry <==> old16 < k)
            &&& (s.flags.zero <==> new16 == 0)
            &&& (s.flags.over <==> old16 >= 0x8000 > old16 - k)
            &&& (s.flags.neg <==> new16 >= 0x8000)
            &&& forall|j: int| 0 <= j < 32 && j != rd && j != rd + 1 ==> s.regs[j] == r.regs[j]
        }),
{
    let rd = 24 + rdu * 2;
    let rdl = r.regs[rd];
    let rdh = r.regs[rd + 1];
    let old16 = rdl + 256 * rdh;
    let s = spec_sbiw(r, rdu, k);
    let resl = s.regs[rd];
    let resh = s.regs[rd + 1];
    assert(resl as int == (256 + rdl - k) % 256);
    lemma_byte_mod(256 + rdl - k);
    if k > rdl {
        lemma_byte_mod(256 + rdh - 1);
    }
    lemma_bit7_pair(rdh, resh);
    lemma_word_mod_signed(old16 - k);
}

/// The stack round trip: a relative call pushes the word after the call
/// site little-endian and drops the stack pointer by two (wrapping below
/// zero to the top of data memory); a return executed later, with the
/// stack cells and stack pointer as the call left them, restores the
/// stack pointer and resumes at the word after the call site.
#[verifier::rlimit(80)]
pub proof fn lemma_call_ret_round_trip(s: McuState, address: u16, ret_pc: u16)
    requires
        s.wf(),
        spec_decode(s.mem.program_word(s.regs.pc)) == (Instruction::CallJmp {
            is_call: true,
            relative: true,
            address,
        }),
        s.mem.dmask >= 3,
        s.regs.sp == 0 || (2 <= s.regs.sp && s.regs.sp + 1 <= s.mem.dmask),
        (spec_decode(spec_step(s).mem.program_word(ret_pc)) == (Instruction::ZeroRegOp { op: 0 })
            || spec_decode(spec_step(s).mem.program_word(ret_pc)) == (Instruction::ZeroRegOp {
            op: 1,
        })),
    ensures
        ({
            let s1 = spec_step(s);
            let s2 = McuState { regs: (RegState { pc: ret_pc, ..s1.regs }), mem: s1.mem };
            &&& s1.regs.sp == spec_call_sp(s.regs.sp, s.mem.data.len())
            &&& (s.regs.sp >= 2 ==> s1.regs.sp == s.regs.sp - 2)
            &&& (s.regs.sp == 0 ==> s1.regs.sp == s.mem.dmask - 1)
            &&& spec_step(s2).regs.sp == s.regs.sp
            &&& spec_step(s2).regs.pc as int == (s.regs.pc + 4) % (s.mem.program.len() as int)
            &&& spec_ret(s2.regs, s2.mem).pc == wrap_add16(s.regs.pc, 2)
        }),
{
    let sp = s.regs.sp;
    let dmask = s.mem.dmask;
    let ds = s.mem.data.len() as int;
    let i = spec_decode(s.mem.program_word(s.regs.pc));
    let s1 = spec_step(s);
    let ret_addr = wrap_add16(s.regs.pc, 2);
    // Where the two pushed bytes land.
    lemma_mask_small(sp, dmask);
    assert(wrap_add16(sp, 1) == sp + 1);
    lemma_mask_small((sp + 1) as u16, dmask);
    assert(s1.mem.data[sp as int] == word_lo(ret_addr));
    assert(s1.mem.data[sp as int + 1] == word_hi(ret_addr));
    // The stack pointer after the call.
    if sp == 0 {
        lemma_small_mod((ds - 2) as nat, 0x10000);
        assert(s1.regs.sp == dmask - 1);
    }
    // The return pops the same two bytes.
    let s2 = McuState { regs: (RegState { pc: ret_pc, ..s1.regs }), mem: s1.mem };
    let r2 = spec_ret(s2.regs, s2.mem);
    if sp == 0 {
        assert(wrap_add16(s1.regs.sp, 2) as int == (dmask + 1) % 0x10000);
        if dmask == 0xFFFF {
            assert(r2.sp == 0);
        } else {
            lemma_small_mod((dmask + 1) as nat, 0x10000);
            assert(r2.sp == 0);
        }
    } else {
        assert(wrap_add16(s1.regs.sp, 2) == sp);
        assert(r2.sp == sp);
    }
    lemma_mask_small(r2.sp, dmask);
    assert(wrap_add16(r2.sp, 1) == r2.sp + 1);
    lemma_mask_small((r2.sp + 1) as u16, dmask);
    assert(r2.pc == ((word_hi(ret_addr) as u16) << 8) | (word_lo(ret_addr) as u16));
    lemma_word_split(ret_addr);
    // The step's own advance lands one instruction past the call site.
    lemma_next_pc_mod(r2.pc, s2.mem);
    lemma_mod_of_mod16((s.regs.pc + 2) % 0x10000 + 2, s.mem.pmask);
    lemma_add_mod_noop(s.regs.pc + 2, 2, 0x10000);
    lemma_small_mod(2, 0x10000);
    lemma_mod_of_mod16(s.regs.pc + 4, s.mem.pmask);
}

/// A sum of two bytes (or a borrow form) reduces modulo 256 by one
/// conditional subtraction.
proof fn lemma_byte_mod(x: int)
    requires
        0 <= x < 512,
    ensures
        x % 256 == (if x < 256 {
            x
        } else {
            x - 256
        }),
{
    if x < 256 {
        lemma_small_mod(x as nat, 256);
    } else {
        lemma_mod_add_multiples_vanish(x - 256, 256);
        lemma_small_mod((x - 256) as nat, 256);
    }
}

/// A 16-bit sum reduces modulo 2^16 by one conditional subtraction.
proof fn lemma_word_mod(x: int)
    requires
        0 <= x < 0x20000,
    ensures
        x % 0x10000 == (if x < 0x10000 {
            x
        } else {
            x - 0x10000
        }),
{
    if x < 0x10000 {
        lemma_small_mod(x as nat, 0x10000);
    } else {
        lemma_mod_add_multiples_vanish(x - 0x10000, 0x10000);
        lemma_small_mod((x - 0x10000) as nat, 0x10000);
    }
}

/// A 16-bit difference reduces modulo 2^16 by one conditional addition.
proof fn lemma_word_mod_signed(x: int)
    requires
        -0x10000 < x < 0x10000,
    ensures
        x % 0x10000 == (if x >= 0 {
            x
        } else {
            x + 0x10000
        }),
{
    if x >= 0 {
        lemma_small_mod(x as nat, 0x10000);
    } else {
        lemma_mod_add_multiples_vanish(x, 0x10000);
        lemma_small_mod((x + 0x10000) as nat, 0x10000);
    }
}

/// How the sign bits of an old and a new high byte read as arithmetic
/// thresholds in the word-operation flag formulas.
proof fn lemma_bit7_pair(a: u8, b: u8)
    ensures
        ((a & !b) & 0x80 != 0) == (a >= 0x80 && b < 0x80),
        ((!a & b) & 0x80 != 0) == (a < 0x80 && b >= 0x80),
        (b & 0x80 != 0) == (b >= 0x80),
{
    assert(((a & !b) & 0x80 != 0) == (a >= 0x80 && b < 0x80) && ((!a & b) & 0x80 != 0) == (a < 0x80
        && b >= 0x80) && (b & 0x80 != 0) == (b >= 0x80)) by (bit_vector);
}

} // verus!

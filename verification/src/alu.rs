use vstd::prelude::*;

/// Arithmetic and logic instructions (add, subtract, compares, bitwise
/// operations, word arithmetic) and I/O bit manipulation.
pub mod arithmetic_logic;
/// Conditional branches and skip-on-bit instructions.
pub mod branch;
/// Relative call and jump instructions.
pub mod call_jmp;
/// The multiply family and register-pair moves.
pub mod multiplication;
/// Transfer instructions: loads, stores, push/pop and I/O moves.
pub mod transfer;
/// Operand-free instructions: return from subroutine or interrupt.
pub mod zero_reg;

verus! {

use crate::instruction::{
    Instruction, PointerRegister, FMULSU_OP, FMULS_OP, FMUL_OP, MOVW_OP, MULSU_OP, MULS_OP,
};
use crate::memory_bank::{MemState, MemoryBank};
use crate::register_bank::{next_pc, RegState, RegisterBank};
use arithmetic_logic::{
    spec_add, spec_adiw, spec_andi, spec_com, spec_comp_skip_taken, spec_dec, spec_eor,
    spec_execute_bit_manip, spec_inc, spec_lsr, spec_mov, spec_movw, spec_neg, spec_ori, spec_ror,
    spec_sbiw, spec_substract_base, spec_substract_imm_base, spec_swap, spec_asr,
};
use branch::{spec_execute_branch, spec_execute_skip};
use call_jmp::spec_execute_calljmp;
use multiplication::{spec_fmul, spec_fmuls, spec_fmulsu, spec_muls, spec_mulsu};
use transfer::{
    spec_in_out, spec_load_immediate, spec_push_pop, spec_transfer_change_pointer,
    spec_transfer_indirect,
};
use zero_reg::spec_ret;

/// Word mask that recognizes the two-word `lds`/`sts` instructions: a
/// skip over one of them must swallow the trailing address word too.
pub const LDS_STS_MASK: u16 = 0xFC0F;

/// Word value, under [`LDS_STS_MASK`], of the two-word `lds`/`sts`
/// instructions.
pub const LDS_STS_VALUE: u16 = 0x9000;

/// # ALU
///
/// Executes decoded instructions against a register bank and a memory
/// bank.
pub struct Alu;

/// The 16-bit value congruent to `n` modulo 2^16: how a two's-complement
/// result lands in a 16-bit register.
pub open spec fn to_u16(n: int) -> u16 {
    (n % 0x10000) as u16
}

/// The low byte of a 16-bit word.
pub open spec fn word_lo(w: u16) -> u8 {
    (w & 0xFF) as u8
}

/// The high byte of a 16-bit word.
pub open spec fn word_hi(w: u16) -> u8 {
    ((w >> 8) & 0xFF) as u8
}

/// The program counter after a taken skip: one instruction on, or two
/// when the skipped word starts a two-word `lds`/`sts` instruction.
pub open spec fn spec_skip_pc(pc: u16, m: MemState) -> u16 {
    let p1 = next_pc(pc, m.pmask);
    if m.program_word(p1) & LDS_STS_MASK == LDS_STS_VALUE {
        next_pc(p1, m.pmask)
    } else {
        p1
    }
}

/// State of the register bank after a two-register operation, dispatched
/// on the decoder's `op` code; `cpse` also reads program memory to size
/// the skip.
pub open spec fn spec_execute_arithmetic(
    op: u16,
    rdu: int,
    rru: int,
    r: RegState,
    m: MemState,
) -> RegState {
    let carry = if r.flags.carry {
        1u8
    } else {
        0u8
    };
    if op == 0x1 {
        spec_substract_base(r, rdu, rru, carry, false)
    } else if op == 0x2 {
        spec_substract_base(r, rdu, rru, carry, true)
    } else if op == 0x3 {
        spec_add(r, rdu, rru, 0)
    } else if op == 0x4 {
        if spec_comp_skip_taken(r, rdu, rru) {
            RegState { pc: spec_skip_pc(r.pc, m), ..r }
        } else {
            r
        }
    } else if op == 0x5 {
        spec_substract_base(r, rdu, rru, 0, false)
    } else if op == 0x6 {
        spec_substract_base(r, rdu, rru, 0, true)
    } else if op == 0x7 {
        spec_add(r, rdu, rru, carry)
    } else if op == 0x8 {
        spec_andi(r, rdu, r.regs[rru])
    } else if op == 0x9 {
        spec_eor(r, rdu, rru)
    } else if op == 0xA {
        spec_ori(r, rdu, r.regs[rru])
    } else if 0xB <= op <= 0xF {
        spec_mov(r, rdu, rru)
    } else if op == MOVW_OP {
        spec_movw(r, rdu, rru)
    } else if op == MULS_OP {
        spec_muls(r, rdu, rru)
    } else if op == MULSU_OP {
        spec_mulsu(r, rdu, rru)
    } else if op == FMUL_OP {
        spec_fmul(r, rdu, rru)
    } else if op == FMULS_OP {
        spec_fmuls(r, rdu, rru)
    } else if op == FMULSU_OP {
        spec_fmulsu(r, rdu, rru)
    } else {
        r
    }
}

/// State of the register bank after a register-with-constant operation,
/// dispatched on the decoder's `op` code. The destination register field
/// carries the upper-half bias (plus 16), except for the word operations
/// `adiw`/`sbiw` which select a pair. An operation outside the table is
/// a no-op.
pub open spec fn spec_execute_arith_with_constant(
    op: u16,
    rdu: int,
    constant: u8,
    r: RegState,
) -> RegState {
    let carry = if r.flags.carry {
        1u8
    } else {
        0u8
    };
    if op == 0x3 {
        spec_substract_imm_base(r, rdu + 16, constant, 0, false)
    } else if op == 0x4 {
        spec_substract_imm_base(r, rdu + 16, constant, carry, true)
    } else if op == 0x5 {
        spec_substract_imm_base(r, rdu + 16, constant, 0, true)
    } else if op == 0x6 {
        spec_ori(r, rdu + 16, constant)
    } else if op == 0x7 {
        spec_andi(r, rdu + 16, constant)
    } else if op == 0xE {
        spec_load_immediate(r, rdu + 16, constant)
    } else if op == 0x96 {
        spec_adiw(r, rdu, constant)
    } else if op == 0x97 {
        spec_sbiw(r, rdu, constant)
    } else {
        r
    }
}

/// State of the register bank after a one-register operation, dispatched
/// on the decoder's `op` code. An operation outside the table is a no-op.
pub open spec fn spec_execute_one_reg(op: u8, rdu: int, r: RegState) -> RegState {
    if op == 0x0 {
        spec_com(r, rdu)
    } else if op == 0x1 {
        spec_neg(r, rdu)
    } else if op == 0x2 {
        spec_swap(r, rdu)
    } else if op == 0x3 {
        spec_inc(r, rdu)
    } else if op == 0x5 {
        spec_asr(r, rdu)
    } else if op == 0x6 {
        spec_lsr(r, rdu)
    } else if op == 0x7 {
        spec_ror(r, rdu)
    } else if op == 0xA {
        spec_dec(r, rdu)
    } else {
        r
    }
}

/// State of the register bank after an operand-free operation: `ret` and
/// `reti` pop the return address; the rest are no-ops here.
pub open spec fn spec_execute_zero_reg(op: u8, r: RegState, m: MemState) -> RegState {
    if op == 0x0 || op == 0x1 {
        spec_ret(r, m)
    } else {
        r
    }
}

/// The machine state after executing one decoded instruction: what
/// [`Alu::execute`] does to the register bank and the memory bank.
pub open spec fn spec_execute(i: Instruction, r: RegState, m: MemState) -> (RegState, MemState) {
    match i {
        Instruction::Nop => (r, m),
        Instruction::Branch { op, test_set, offset } => (
            spec_execute_branch(r, op, test_set, offset, m),
            m,
        ),
        Instruction::BitManipOp { address, bit, set } => (
            r,
            spec_execute_bit_manip(m, address, bit, set),
        ),
        Instruction::CallJmp { is_call, relative, address } => spec_execute_calljmp(
            r,
            m,
            is_call,
            address,
        ),
        Instruction::InOut { is_in, reg, address } => spec_in_out(r, m, is_in, reg as int, address),
        Instruction::OneRegOp { rd, op } => (spec_execute_one_reg(op, rd as int, r), m),
        Instruction::PushPop { is_pop, reg } => spec_push_pop(r, m, is_pop, reg as int),
        Instruction::RegConstOp { op, rd, constant } => (
            spec_execute_arith_with_constant(op, rd as int, constant, r),
            m,
        ),
        Instruction::SkipOp { address, bit, set } => (
            spec_execute_skip(r, m, address, bit, set),
            m,
        ),
        Instruction::TransferIndirect { is_load, pointer, dest, offset } => spec_transfer_indirect(
            r,
            m,
            is_load,
            pointer,
            dest as int,
            offset,
        ),
        Instruction::TransferChangePointer {
            is_load,
            pointer,
            dest,
            post_inc,
        } => spec_transfer_change_pointer(r, m, is_load, pointer, dest as int, post_inc),
        Instruction::TwoRegOp { op, rd, rr } => (
            spec_execute_arithmetic(op, rd as int, rr as int, r, m),
            m,
        ),
        Instruction::ZeroRegOp { op } => (spec_execute_zero_reg(op, r, m), m),
        Instruction::Unsupported { instruction } => (r, m),
    }
}

impl Alu {
    /// Executes one decoded instruction, using the registers in
    /// `register_bank` and the bytes in `memory_bank`. A decoded but
    /// unimplemented operation executes as a no-op so that the fetch loop
    /// always makes progress.
    pub fn execute(
        instruction: &Instruction,
        register_bank: &mut RegisterBank,
        memory_bank: &mut MemoryBank,
    )
        requires
            instruction.wf(),
            old(memory_bank)@.wf(),
        ensures
            (final(register_bank)@, final(memory_bank)@) == spec_execute(
                *instruction,
                old(register_bank)@,
                old(memory_bank)@,
            ),
            final(memory_bank)@.wf(),
    {
        match *instruction {
            Instruction::Nop => (),
            Instruction::Branch { op, test_set, offset } => Alu::execute_branch(
                op,
                test_set,
                offset,
                register_bank,
                memory_bank,
            ),
            Instruction::BitManipOp { address, bit, set } => Alu::execute_bit_manip(
                address,
                bit,
                set,
                memory_bank,
            ),
            Instruction::CallJmp { is_call, relative, address } => Alu::execute_calljmp(
                is_call,
                relative,
                address,
                register_bank,
                memory_bank,
            ),
            Instruction::InOut { is_in, reg, address } => Alu::execute_inout(
                is_in,
                reg,
                address,
                register_bank,
                memory_bank,
            ),
            Instruction::OneRegOp { rd, op } => Alu::execute_one_reg_arithmetic(
                op,
                rd,
                register_bank,
            ),
            Instruction::PushPop { is_pop, reg } => Alu::execute_push_pop(
                is_pop,
                reg,
                register_bank,
                memory_bank,
            ),
            Instruction::RegConstOp { op, rd, constant } => Alu::execute_arith_with_constant(
                op,
                rd,
                constant,
                register_bank,
            ),
            Instruction::SkipOp { address, bit, set } => Alu::execute_skip(
                address,
                bit,
                set,
                register_bank,
                memory_bank,
            ),
            Instruction::TransferIndirect { is_load, pointer, dest, offset } => {
                Alu::execute_transfer_indirect(
                    is_load,
                    pointer,
                    dest,
                    offset,
                    register_bank,
                    memory_bank,
                )
            },
            Instruction::TransferChangePointer { is_load, pointer, dest, post_inc } => {
                Alu::execute_transfer_change_pointer(
                    is_load,
                    pointer,
                    dest,
                    post_inc,
                    register_bank,
                    memory_bank,
                )
            },
            Instruction::TwoRegOp { op, rd, rr } => Alu::execute_arithmetic(
                op,
                rd,
                rr,
                register_bank,
                memory_bank,
            ),
            Instruction::ZeroRegOp { op } => Alu::execute_zero_reg_op(
                op,
                register_bank,
                memory_bank,
            ),
            Instruction::Unsupported { instruction: _ } => (),
        }
    }

    /// Executes a two-register instruction, dispatched on the decoder's
    /// operation code.
    pub fn execute_arithmetic(
        op: u16,
        rd: u8,
        rr: u8,
        register_bank: &mut RegisterBank,
        memory_bank: &MemoryBank,
    )
        requires
            (Instruction::TwoRegOp { op, rd, rr }).wf(),
            memory_bank@.wf(),
        ensures
            final(register_bank)@ == spec_execute_arithmetic(
                op,
                rd as int,
                rr as int,
                old(register_bank)@,
                memory_bank@,
            ),
    {
        let rdu = rd as usize;
        let rru = rr as usize;
        if op == 0x1 {
            let carry = register_bank.get_carry_as_u8();
            Alu::compare(rdu, rru, register_bank, carry);
        } else if op == 0x2 {
            let carry = register_bank.get_carry_as_u8();
            Alu::substract(rdu, rru, register_bank, carry);
        } else if op == 0x3 {
            Alu::add(rdu, rru, register_bank, 0);
        } else if op == 0x4 {
            Alu::comp_skip(rdu, rru, register_bank, memory_bank);
        } else if op == 0x5 {
            Alu::compare(rdu, rru, register_bank, 0);
        } else if op == 0x6 {
            Alu::substract(rdu, rru, register_bank, 0);
        } else if op == 0x7 {
            let carry = register_bank.get_carry_as_u8();
            Alu::add(rdu, rru, register_bank, carry);
        } else if op == 0x8 {
            Alu::and(rdu, rru, register_bank);
        } else if op == 0x9 {
            Alu::eor(rdu, rru, register_bank);
        } else if op == 0xA {
            Alu::or(rdu, rru, register_bank);
        } else if op <= 0xF {
            Alu::mov(rdu, rru, register_bank);
        } else if op == MOVW_OP {
            Alu::movw(rdu, rru, register_bank);
        } else if op == MULS_OP {
            Alu::muls(rdu, rru, register_bank);
        } else if op == MULSU_OP {
            Alu::mulsu(rdu, rru, register_bank);
        } else if op == FMUL_OP {
            Alu::fmul(rdu, rru, register_bank);
        } else if op == FMULS_OP {
            Alu::fmuls(rdu, rru, register_bank);
        } else {
            Alu::fmulsu(rdu, rru, register_bank);
        }
    }

    /// Executes a register-with-constant instruction, dispatched on the
    /// decoder's operation code; the register field carries the
    /// upper-half bias except for the word operations.
    pub fn execute_arith_with_constant(
        op: u16,
        rd: u8,
        constant: u8,
        register_bank: &mut RegisterBank,
    )
        requires
            (Instruction::RegConstOp { op, rd, constant }).wf(),
        ensures
            final(register_bank)@ == spec_execute_arith_with_constant(
                op,
                rd as int,
                constant,
                old(register_bank)@,
            ),
    {
        let rdu = rd as usize;
        if op == 0x3 {
            Alu::cpi(rdu + 16, constant, register_bank);
        } else if op == 0x4 {
            Alu::sbci(rdu + 16, constant, register_bank);
        } else if op == 0x5 {
            Alu::subi(rdu + 16, constant, register_bank);
        } else if op == 0x6 {
            Alu::ori(rdu + 16, constant, register_bank);
        } else if op == 0x7 {
            Alu::andi(rdu + 16, constant, register_bank);
        } else if op == 0xE {
            // Technically a transfer instruction.
            Alu::load_immediate(rdu + 16, constant, register_bank);
        } else if op == 0x96 {
            Alu::adiw(rdu, constant, register_bank);
        } else {
            Alu::sbiw(rdu, constant, register_bank);
        }
    }

    /// Executes a one-register instruction, dispatched on the decoder's
    /// operation code; an operation outside the table is a no-op.
    fn execute_one_reg_arithmetic(op: u8, rd: u8, register_bank: &mut RegisterBank)
        requires
            rd < 32,
        ensures
            final(register_bank)@ == spec_execute_one_reg(op, rd as int, old(register_bank)@),
    {
        let rdu = rd as usize;
        if op == 0x0 {
            Alu::com(rdu, register_bank);
        } else if op == 0x1 {
            Alu::neg(rdu, register_bank);
        } else if op == 0x2 {
            Alu::swap(rdu, register_bank);
        } else if op == 0x3 {
            Alu::inc(rdu, register_bank);
        } else if op == 0x5 {
            Alu::asr(rdu, register_bank);
        } else if op == 0x6 {
            Alu::lsr(rdu, register_bank);
        } else if op == 0x7 {
            Alu::ror(rdu, register_bank);
        } else if op == 0xA {
            Alu::dec(rdu, register_bank);
        }
    }

    /// Executes an operand-free instruction: only `ret` and `reti` do
    /// anything here.
    fn execute_zero_reg_op(op: u8, register_bank: &mut RegisterBank, memory_bank: &MemoryBank)
        requires
            memory_bank@.wf(),
        ensures
            final(register_bank)@ == spec_execute_zero_reg(op, old(register_bank)@, memory_bank@),
    {
        if op == 0x0 {
            Alu::ret(false, register_bank, memory_bank);
        } else if op == 0x1 {
            Alu::ret(true, register_bank, memory_bank);
        }
    }

    fn execute_inout(
        is_in: bool,
        reg: u8,
        address: u8,
        register_bank: &mut RegisterBank,
        memory_bank: &mut MemoryBank,
    )
        requires
            reg < 32,
            address < 64,
            old(memory_bank)@.wf(),
        ensures
            (final(register_bank)@, final(memory_bank)@) == spec_in_out(
                old(register_bank)@,
                old(memory_bank)@,
                is_in,
                reg as int,
                address,
            ),
            final(memory_bank)@.wf(),
    {
        Alu::in_out(is_in, reg, address, register_bank, memory_bank);
    }

    fn execute_push_pop(
        is_pop: bool,
        reg: u8,
        register_bank: &mut RegisterBank,
        memory_bank: &mut MemoryBank,
    )
        requires
            reg < 32,
            old(memory_bank)@.wf(),
        ensures
            (final(register_bank)@, final(memory_bank)@) == spec_push_pop(
                old(register_bank)@,
                old(memory_bank)@,
                is_pop,
                reg as int,
            ),
            final(memory_bank)@.wf(),
    {
        Alu::push_pop(is_pop, reg, register_bank, memory_bank);
    }

    fn execute_transfer_indirect(
        is_load: bool,
        pointer: PointerRegister,
        reg: u8,
        offset: u8,
        register_bank: &mut RegisterBank,
        memory_bank: &mut MemoryBank,
    )
        requires
            reg < 32,
            old(memory_bank)@.wf(),
        ensures
            (final(register_bank)@, final(memory_bank)@) == spec_transfer_indirect(
                old(register_bank)@,
                old(memory_bank)@,
                is_load,
                pointer,
                reg as int,
                offset,
            ),
            final(memory_bank)@.wf(),
    {
        Alu::transfer_indirect(is_load, pointer, reg, offset, register_bank, memory_bank);
    }

    fn execute_transfer_change_pointer(
        is_load: bool,
        pointer: PointerRegister,
        reg: u8,
        post_inc: bool,
        register_bank: &mut RegisterBank,
        memory_bank: &mut MemoryBank,
    )
        requires
            reg < 32,
            old(memory_bank)@.wf(),
        ensures
            (final(register_bank)@, final(memory_bank)@) == spec_transfer_change_pointer(
                old(register_bank)@,
                old(memory_bank)@,
                is_load,
                pointer,
                reg as int,
                post_inc,
            ),
            final(memory_bank)@.wf(),
    {
        Alu::transfer_change_pointer(is_load, pointer, reg, post_inc, register_bank, memory_bank);
    }

    /// Advances the program counter over the next instruction; a two-word
    /// `lds`/`sts` instruction is skipped whole.
    pub(crate) fn skip_next_instruction(
        register_bank: &mut RegisterBank,
        memory_bank: &MemoryBank,
    )
        requires
            memory_bank@.wf(),
        ensures
            final(register_bank)@ == (RegState {
                pc: spec_skip_pc(old(register_bank)@.pc, memory_bank@),
                ..old(register_bank)@
            }),
    {
        register_bank.increment_pc(memory_bank);
        let next_instruction = memory_bank.get_program_word(register_bank.get_program_counter());
        if next_instruction & LDS_STS_MASK == LDS_STS_VALUE {
            register_bank.increment_pc(memory_bank);
        }
    }
}

} // verus!

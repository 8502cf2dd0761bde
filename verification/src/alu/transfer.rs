use vstd::prelude::*;

use super::Alu;
use crate::instruction::PointerRegister;
use crate::memory_bank::{wrap_add16, MemState, MemoryBank};
use crate::register_bank::{RegState, RegisterBank};

verus! {

use super::arithmetic_logic::lo8;

/// State after `ldi`: register `rdu` receives the constant; no flag
/// changes.
pub open spec fn spec_load_immediate(r: RegState, rdu: int, constant: u8) -> RegState {
    RegState { regs: r.regs.update(rdu, constant), ..r }
}

/// State after `in`/`out`: the data byte at `address` plus the fixed
/// 0x20 I/O offset moves into register `reg`, or the register moves out
/// to that byte.
pub open spec fn spec_in_out(
    r: RegState,
    m: MemState,
    is_in: bool,
    reg: int,
    address: u8,
) -> (RegState, MemState) {
    let real_address = (address + 0x20) as u16;
    if is_in {
        (RegState { regs: r.regs.update(reg, m.data[m.data_index(real_address)]), ..r }, m)
    } else {
        (r, m.store_data(real_address, r.regs[reg]))
    }
}

/// State after `push`/`pop`. A push first drops the stack pointer by one
/// (wrapping below zero to the top of data memory) and stores there; a
/// pop reads the byte under the stack pointer and raises the pointer by
/// one afterwards, so that a push followed by a pop restores both.
pub open spec fn spec_push_pop(r: RegState, m: MemState, is_pop: bool, reg: int) -> (
    RegState,
    MemState,
) {
    if is_pop {
        (RegState {
            sp: wrap_add16(r.sp, 1),
            regs: r.regs.update(reg, m.data[m.data_index(r.sp)]),
            ..r
        }, m)
    } else {
        let sp1 = if r.sp == 0 {
            (m.data.len() - 1) as u16
        } else {
            (r.sp - 1) as u16
        };
        (RegState { sp: sp1, ..r }, m.store_data(sp1, r.regs[reg]))
    }
}

/// The effective address of an indirect transfer: the 16-bit pointer
/// pair plus the displacement, wrapping at 2^16.
pub open spec fn spec_indirect_address(r: RegState, pointer: PointerRegister, offset: u8) -> u16 {
    let p = pointer.spec_low_reg();
    wrap_add16((((r.regs[p + 1] as u16) << 8) | (r.regs[p] as u16)) as u16, offset as u16)
}

/// State after `ld`/`st`/`ldd`/`std`: one byte moves between register
/// `reg` and the data byte addressed by the pointer pair plus `offset`.
pub open spec fn spec_transfer_indirect(
    r: RegState,
    m: MemState,
    is_load: bool,
    pointer: PointerRegister,
    reg: int,
    offset: u8,
) -> (RegState, MemState) {
    let address = spec_indirect_address(r, pointer, offset);
    if is_load {
        (RegState { regs: r.regs.update(reg, m.data[m.data_index(address)]), ..r }, m)
    } else {
        (r, m.store_data(address, r.regs[reg]))
    }
}

/// State after a pointer increment: the low register steps up by one and
/// a wrap to zero ripples into the high register.
pub open spec fn spec_increment_pointer(r: RegState, pointer: PointerRegister) -> RegState {
    let p = pointer.spec_low_reg();
    let resl = lo8(r.regs[p] + 1);
    let regs1 = r.regs.update(p, resl);
    let regs2 = if resl == 0 {
        regs1.update(p + 1, lo8(r.regs[p + 1] + 1))
    } else {
        regs1
    };
    RegState { regs: regs2, ..r }
}

/// State after a pointer decrement: the low register steps down by one
/// and a borrow ripples into the high register.
pub open spec fn spec_decrement_pointer(r: RegState, pointer: PointerRegister) -> RegState {
    let p = pointer.spec_low_reg();
    let rdl = r.regs[p];
    let regs1 = r.regs.update(p, lo8(256 + rdl - 1));
    let regs2 = if rdl == 0 {
        regs1.update(p + 1, lo8(256 + r.regs[p + 1] - 1))
    } else {
        regs1
    };
    RegState { regs: regs2, ..r }
}

/// State after `ld`/`st` with post-increment or pre-decrement: the
/// transfer happens at the pointer's value after a pre-decrement or
/// before a post-increment.
pub open spec fn spec_transfer_change_pointer(
    r: RegState,
    m: MemState,
    is_load: bool,
    pointer: PointerRegister,
    reg: int,
    post_inc: bool,
) -> (RegState, MemState) {
    if post_inc {
        let (r1, m1) = spec_transfer_indirect(r, m, is_load, pointer, reg, 0);
        (spec_increment_pointer(r1, pointer), m1)
    } else {
        let r1 = spec_decrement_pointer(r, pointer);
        spec_transfer_indirect(r1, m, is_load, pointer, reg, 0)
    }
}

impl Alu {
    /// `ldi`: load an immediate into a register.
    pub fn load_immediate(rdu: usize, constant: u8, register_bank: &mut RegisterBank)
        requires
            rdu < 32,
        ensures
            final(register_bank)@ == spec_load_immediate(old(register_bank)@, rdu as int, constant),
    {
        register_bank.registers[rdu] = constant;
    }

    /// `in`/`out`: move a byte between a register and an I/O-space
    /// address in data memory.
    pub fn in_out(
        is_in: bool,
        reg: u8,
        address: u8,
        register_bank: &mut RegisterBank,
        memory_bank: &mut MemoryBank,
    )
        requires
            reg < 32,
            address < 64,
            old(memory_bank)@.wf(),
        ensures
            (final(register_bank)@, final(memory_bank)@) == spec_in_out(
                old(register_bank)@,
                old(memory_bank)@,
                is_in,
                reg as int,
                address,
            ),
            final(memory_bank)@.wf(),
    {
        let real_address = (address as u16) + 0x20;
        if is_in {
            let data = memory_bank.get_data_byte(real_address);
            register_bank.registers[reg as usize] = data;
        } else {
            let data = register_bank.registers[reg as usize];
            memory_bank.set_data_byte(real_address, data);
        }
    }

    /// `push`/`pop`: single-byte transfer between a register and the
    /// stack in data memory.
    pub fn push_pop(
        is_pop: bool,
        reg: u8,
        register_bank: &mut RegisterBank,
        memory_bank: &mut MemoryBank,
    )
        requires
            reg < 32,
            old(memory_bank)@.wf(),
        ensures
            (final(register_bank)@, final(memory_bank)@) == spec_push_pop(
                old(register_bank)@,
                old(memory_bank)@,
                is_pop,
                reg as int,
            ),
            final(memory_bank)@.wf(),
    {
        if is_pop {
            let data = memory_bank.get_data_byte(register_bank.stack_pointer);
            register_bank.registers[reg as usize] = data;
            register_bank.stack_pointer = register_bank.stack_pointer.wrapping_add(1);
        } else {
            if register_bank.stack_pointer == 0 {
                register_bank.stack_pointer = (memory_bank.data_size() - 1) as u16;
            } else {
                register_bank.stack_pointer = register_bank.stack_pointer - 1;
            }
            let data = register_bank.registers[reg as usize];
            memory_bank.set_data_byte(register_bank.stack_pointer, data);
        }
    }

    /// `ld`/`st`/`ldd`/`std`: transfer through a pointer register with a
    /// displacement.
    pub fn transfer_indirect(
        is_load: bool,
        pointer: PointerRegister,
        reg: u8,
        offset: u8,
        register_bank: &mut RegisterBank,
        memory_bank: &mut MemoryBank,
    )
        requires
            reg < 32,
            old(memory_bank)@.wf(),
        ensures
            (final(register_bank)@, final(memory_bank)@) == spec_transfer_indirect(
                old(register_bank)@,
                old(memory_bank)@,
                is_load,
                pointer,
                reg as int,
                offset,
            ),
            final(memory_bank)@.wf(),
    {
        let p = pointer.low_reg() as usize;
        let base_address_lo = register_bank.registers[p];
        let base_address_hi = register_bank.registers[p + 1];
        let address = (((base_address_hi as u16) << 8) | (base_address_lo as u16)).wrapping_add(
            offset as u16,
        );
        if is_load {
            let data = memory_bank.get_data_byte(address);
            register_bank.registers[reg as usize] = data;
        } else {
            let data = register_bank.registers[reg as usize];
            memory_bank.set_data_byte(address, data);
        }
    }

    /// `ld`/`st` through a pointer with post-increment or pre-decrement.
    pub fn transfer_change_pointer(
        is_load: bool,
        pointer: PointerRegister,
        reg: u8,
        post_inc: bool,
        register_bank: &mut RegisterBank,
        memory_bank: &mut MemoryBank,
    )
        requires
            reg < 32,
            old(memory_bank)@.wf(),
        ensures
            (final(register_bank)@, final(memory_bank)@) == spec_transfer_change_pointer(
                old(register_bank)@,
                old(memory_bank)@,
                is_load,
                pointer,
                reg as int,
                post_inc,
            ),
            final(memory_bank)@.wf(),
    {
        if post_inc {
            Alu::transfer_indirect(is_load, pointer, reg, 0, register_bank, memory_bank);
            Alu::increment_pointer(pointer, register_bank);
        } else {
            Alu::decrement_pointer(pointer, register_bank);
            Alu::transfer_indirect(is_load, pointer, reg, 0, register_bank, memory_bank);
        }
    }

    fn decrement_pointer(pointer: PointerRegister, register_bank: &mut RegisterBank)
        ensures
            final(register_bank)@ == spec_decrement_pointer(old(register_bank)@, pointer),
    {
        let rd = pointer.low_reg() as usize;
        let rdl = register_bank.registers[rd];
        let rdh = register_bank.registers[rd + 1];
        let resl = rdl.wrapping_sub(1);
        register_bank.registers[rd] = resl;
        if rdl == 0 {
            register_bank.registers[rd + 1] = rdh.wrapping_sub(1);
        }
        proof {
            assert(register_bank@.regs =~= spec_decrement_pointer(old(register_bank)@, pointer).regs);
        }
    }

    fn increment_pointer(pointer: PointerRegister, register_bank: &mut RegisterBank)
        ensures
            final(register_bank)@ == spec_increment_pointer(old(register_bank)@, pointer),
    {
        let rd = pointer.low_reg() as usize;
        let rdl = register_bank.registers[rd];
        let rdh = register_bank.registers[rd + 1];
        let resl = rdl.wrapping_add(1);
        register_bank.registers[rd] = resl;
        if resl == 0 {
            register_bank.registers[rd + 1] = rdh.wrapping_add(1);
        }
        proof {
            assert(register_bank@.regs =~= spec_increment_pointer(old(register_bank)@, pointer).regs);
        }
    }
}

} // verus!

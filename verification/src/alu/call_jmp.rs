use vstd::prelude::*;

use super::Alu;
use crate::memory_bank::{wrap_add16, MemState, MemoryBank};
use crate::register_bank::{RegState, RegisterBank};

verus! {

use super::{to_u16, word_hi, word_lo};

/// The signed word offset held in the low twelve bits of a relative
/// call/jump word.
pub open spec fn spec_rel_offset(address_bits: u16) -> int {
    if address_bits & 0x800 == 0 {
        address_bits as int
    } else {
        address_bits - 0x1000
    }
}

/// The program counter a relative call/jump lands on: the signed word
/// offset is doubled to bytes and added to the program counter; a
/// negative result wraps by adding the program-memory size.
pub open spec fn spec_calljmp_pc(pc: u16, address_bits: u16, m: MemState) -> u16 {
    let raw = pc + spec_rel_offset(address_bits) * 2;
    if raw < 0 {
        to_u16(raw + m.program.len())
    } else {
        to_u16(raw)
    }
}

/// The stack pointer after a call pushed two bytes: down by two, wrapping
/// below zero to the top of a data memory `data_size` bytes long.
pub open spec fn spec_call_sp(sp: u16, data_size: nat) -> u16 {
    if sp < 2 {
        to_u16(data_size + sp - 2)
    } else {
        (sp - 2) as u16
    }
}

/// State after a relative call or jump. The return address (the word
/// after the call site) is pushed little-endian at the stack pointer and
/// the byte above it, and the stack pointer then drops by two with
/// wraparound.
pub open spec fn spec_execute_calljmp(
    r: RegState,
    m: MemState,
    is_call: bool,
    address_bits: u16,
) -> (RegState, MemState) {
    let new_pc = spec_calljmp_pc(r.pc, address_bits, m);
    if is_call {
        let ret_addr = wrap_add16(r.pc, 2);
        let m1 = m.store_data(r.sp, word_lo(ret_addr)).store_data(
            wrap_add16(r.sp, 1),
            word_hi(ret_addr),
        );
        (RegState { pc: new_pc, sp: spec_call_sp(r.sp, m.data.len()), ..r }, m1)
    } else {
        (RegState { pc: new_pc, ..r }, m)
    }
}

impl Alu {
    /// `rcall`/`rjmp`: relative call or jump. On a call the return
    /// address is pushed onto the stack first.
    pub fn execute_calljmp(
        is_call: bool,
        relative: bool,
        address_bits: u16,
        register_bank: &mut RegisterBank,
        memory_bank: &mut MemoryBank,
    )
        requires
            relative,
            address_bits < 0x1000,
            old(memory_bank)@.wf(),
        ensures
            (final(register_bank)@, final(memory_bank)@) == spec_execute_calljmp(
                old(register_bank)@,
                old(memory_bank)@,
                is_call,
                address_bits,
            ),
            final(memory_bank)@.wf(),
    {
        let pc = register_bank.get_program_counter();
        if relative {
            let address_offset: i32 = if address_bits & 0x800 == 0 {
                address_bits as i32
            } else {
                (address_bits as i32) - 0x1000
            };
            let raw: i32 = (pc as i32) + address_offset * 2;
            let adjusted: i32 = if raw < 0 {
                raw + (memory_bank.program_size() as i32)
            } else {
                raw
            };
            let reduced: i32 = if adjusted < 0 {
                adjusted + 0x10000
            } else if adjusted >= 0x10000 {
                adjusted - 0x10000
            } else {
                adjusted
            };
            register_bank.set_program_counter(reduced as u16);
        }
        if is_call {
            let ret_addr = pc.wrapping_add(2);
            let sp = register_bank.get_stack_pointer();
            memory_bank.set_data_byte(sp, (ret_addr & 0xFF) as u8);
            memory_bank.set_data_byte(sp.wrapping_add(1), ((ret_addr >> 8) & 0xFF) as u8);
            proof {
                crate::memory_bank::lemma_and_mask_le(ret_addr, 0xFF);
                crate::memory_bank::lemma_and_mask_le(ret_addr >> 8, 0xFF);
            }
            let new_sp: u16 = if sp < 2 {
                let wrapped: u32 = (memory_bank.data_size() as u32) + (sp as u32) + 0x10000 - 2;
                (wrapped % 0x10000) as u16
            } else {
                sp - 2
            };
            register_bank.set_stack_pointer(new_sp);
        }
    }
}

} // verus!

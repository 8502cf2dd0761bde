use vstd::prelude::*;

use super::Alu;
use crate::memory_bank::{MemState, MemoryBank};
use crate::register_bank::{Flags, RegState, RegisterBank};

verus! {

use super::spec_skip_pc;
use crate::memory_bank::lemma_wrap_and_mask;
use vstd::arithmetic::div_mod::{lemma_mod_add_multiples_vanish, lemma_small_mod};

/// The status flag a branch with selector `op` tests.
pub open spec fn spec_branch_flag(f: Flags, op: u8) -> bool {
    if op == 0 {
        f.carry
    } else if op == 1 {
        f.zero
    } else if op == 2 {
        f.neg
    } else if op == 3 {
        f.over
    } else if op == 4 {
        f.sign
    } else if op == 5 {
        f.half
    } else if op == 6 {
        f.trans
    } else {
        f.int
    }
}

/// State after a conditional branch: when the selected flag equals
/// `test_set`, the program counter moves by `offset` words (two bytes
/// each) and is re-masked to the program-memory size, so a negative
/// target near zero wraps into the top of program memory; otherwise
/// nothing changes.
pub open spec fn spec_execute_branch(
    r: RegState,
    op: u8,
    test_set: bool,
    offset: i8,
    m: MemState,
) -> RegState {
    if spec_branch_flag(r.flags, op) == test_set {
        RegState { pc: ((r.pc + offset * 2) % (m.program.len() as int)) as u16, ..r }
    } else {
        r
    }
}

/// State after `sbic`/`sbis`: when bit `bit` of the I/O register at
/// `address` equals `set`, the next instruction is skipped (two words
/// for `lds`/`sts`).
pub open spec fn spec_execute_skip(
    r: RegState,
    m: MemState,
    address: u8,
    bit: u8,
    set: bool,
) -> RegState {
    let io_reg = m.data[m.data_index((address + 0x20) as u16)];
    if ((io_reg & (1u8 << bit)) != 0) == set {
        RegState { pc: spec_skip_pc(r.pc, m), ..r }
    } else {
        r
    }
}

impl Alu {
    /// Conditional branch on one status flag, selected by `op`; taken
    /// when the flag equals `test_set`. The target is re-masked to the
    /// program-memory size.
    pub fn execute_branch(
        op: u8,
        test_set: bool,
        offset: i8,
        register_bank: &mut RegisterBank,
        memory_bank: &MemoryBank,
    )
        requires
            op < 8,
            memory_bank@.wf(),
        ensures
            final(register_bank)@ == spec_execute_branch(
                old(register_bank)@,
                op,
                test_set,
                offset,
                memory_bank@,
            ),
    {
        let flags = register_bank.get_flags();
        let flag_value = if op == 0 {
            flags.carry
        } else if op == 1 {
            flags.zero
        } else if op == 2 {
            flags.neg
        } else if op == 3 {
            flags.over
        } else if op == 4 {
            flags.sign
        } else if op == 5 {
            flags.half
        } else if op == 6 {
            flags.trans
        } else {
            flags.int
        };
        if flag_value == test_set {
            let pc = register_bank.get_program_counter();
            let raw_pc = pc.wrapping_add_signed((offset as i16) * 2);
            let new_pc = memory_bank.mask_program_address(raw_pc);
            proof {
                let x = pc + offset * 2;
                assert(raw_pc as int == x % 0x10000) by {
                    if x < 0 {
                        lemma_mod_add_multiples_vanish(x, 0x10000);
                        lemma_small_mod((x + 0x10000) as nat, 0x10000);
                    } else if x <= 0xFFFF {
                        lemma_small_mod(x as nat, 0x10000);
                    } else {
                        lemma_mod_add_multiples_vanish(x - 0x10000, 0x10000);
                        lemma_small_mod((x - 0x10000) as nat, 0x10000);
                    }
                };
                lemma_wrap_and_mask(x, memory_bank@.pmask);
            }
            register_bank.set_program_counter(new_pc);
        }
    }

    /// `sbic`/`sbis`: skip the next instruction when an I/O register bit
    /// matches `set`.
    pub fn execute_skip(
        address: u8,
        bit: u8,
        set: bool,
        register_bank: &mut RegisterBank,
        memory_bank: &MemoryBank,
    )
        requires
            address < 32,
            bit < 8,
            memory_bank@.wf(),
        ensures
            final(register_bank)@ == spec_execute_skip(
                old(register_bank)@,
                memory_bank@,
                address,
                bit,
                set,
            ),
    {
        let io_reg = memory_bank.get_data_byte((address + 0x20) as u16);
        let mask = 1u8 << bit;
        let skip_bit_set = io_reg & mask != 0;
        let should_skip = skip_bit_set == set;
        if should_skip {
            Alu::skip_next_instruction(register_bank, memory_bank);
        }
    }
}

} // verus!

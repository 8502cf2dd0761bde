use vstd::prelude::*;

use super::Alu;
use crate::memory_bank::{wrap_add16, MemState, MemoryBank};
use crate::register_bank::{RegState, RegisterBank};

verus! {

/// State after `ret`/`reti`: the stack pointer rises by two, wrapping to
/// zero when it reaches the top of data memory, and the program counter
/// is read little-endian from the two bytes it then points at.
pub open spec fn spec_ret(r: RegState, m: MemState) -> RegState {
    let sp1 = wrap_add16(r.sp, 2);
    let sp2 = if sp1 >= m.dmask {
        0u16
    } else {
        sp1
    };
    let pc_lo = m.data[m.data_index(sp2)];
    let pc_hi = m.data[m.data_index(wrap_add16(sp2, 1))];
    RegState { sp: sp2, pc: ((pc_hi as u16) << 8) | (pc_lo as u16), ..r }
}

impl Alu {
    /// `ret`/`reti`: pop the return address off the stack into the
    /// program counter.
    pub fn ret(
        _is_interruption: bool,
        register_bank: &mut RegisterBank,
        memory_bank: &MemoryBank,
    )
        requires
            memory_bank@.wf(),
        ensures
            final(register_bank)@ == spec_ret(old(register_bank)@, memory_bank@),
    {
        let sp1 = register_bank.stack_pointer.wrapping_add(2);
        let data_top = (memory_bank.data_size() - 1) as u16;
        register_bank.stack_pointer = if sp1 >= data_top {
            0
        } else {
            sp1
        };
        let pc_lo = memory_bank.get_data_byte(register_bank.stack_pointer);
        let pc_hi = memory_bank.get_data_byte(register_bank.stack_pointer.wrapping_add(1));
        register_bank.set_program_counter(((pc_hi as u16) << 8) | (pc_lo as u16));
    }
}

} // verus!

//! Procedural wrappers over the [`Mcu`] methods: the flat function
//! surface host applications drive the simulator through.
use vstd::prelude::*;

use crate::mcu::Mcu;
use crate::register_bank::Flags;

verus! {

use crate::mcu::{McuState, spec_step};
use crate::register_bank::{flags_byte, RegState};

/// Calls [`Mcu::step`], executing one instruction.
pub fn mcu_step(p_mcu: &mut Mcu)
    requires
        old(p_mcu)@.wf(),
    ensures
        final(p_mcu)@ == spec_step(old(p_mcu)@),
        final(p_mcu)@.wf(),
{
    p_mcu.step();
}

/// Gets the data stored in a single register.
pub fn mcu_get_register(p_mcu: &Mcu, reg_num: u8) -> (r: u8)
    requires
        reg_num < 32,
    ensures
        r == p_mcu@.regs.regs[reg_num as int],
{
    p_mcu.get_register(reg_num)
}

/// Sets the data in register `reg_num`.
pub fn mcu_set_register(p_mcu: &mut Mcu, reg_num: u8, value: u8)
    requires
        reg_num < 32,
    ensures
        final(p_mcu)@ == (McuState {
            regs: RegState {
                regs: old(p_mcu)@.regs.regs.update(reg_num as int, value),
                ..old(p_mcu)@.regs
            },
            ..old(p_mcu)@
        }),
{
    p_mcu.set_register(reg_num, value);
}

/// Replaces the whole register file with a 32-byte block.
pub fn mcu_set_register_array(p_mcu: &mut Mcu, reg_array: [u8; 32])
    ensures
        final(p_mcu)@ == (McuState {
            regs: RegState { regs: reg_array@, ..old(p_mcu)@.regs },
            ..old(p_mcu)@
        }),
{
    p_mcu.set_register_array(reg_array);
}

/// Reads the program counter.
pub fn mcu_get_program_counter(p_mcu: &Mcu) -> (r: u16)
    ensures
        r == p_mcu@.regs.pc,
{
    p_mcu.get_program_counter()
}

/// Reads the stack pointer.
pub fn mcu_get_stack_pointer(p_mcu: &Mcu) -> (r: u16)
    ensures
        r == p_mcu@.regs.sp,
{
    p_mcu.get_stack_pointer()
}

/// Sets the program counter.
pub fn mcu_set_program_counter(p_mcu: &mut Mcu, value: u16)
    ensures
        final(p_mcu)@ == (McuState {
            regs: RegState { pc: value, ..old(p_mcu)@.regs },
            ..old(p_mcu)@
        }),
{
    p_mcu.set_program_counter(value);
}

/// Reads the raw instruction word under the program counter.
pub fn mcu_get_current_instruction(p_mcu: &Mcu) -> (r: u16)
    requires
        p_mcu@.wf(),
    ensures
        r == p_mcu@.mem.program_word(p_mcu@.regs.pc),
{
    p_mcu.get_current_instruction()
}

/// Reads one data-memory byte, after mask wraparound.
pub fn mcu_get_data_byte(p_mcu: &Mcu, address: u16) -> (r: u8)
    requires
        p_mcu@.wf(),
    ensures
        r == p_mcu@.mem.data[p_mcu@.mem.data_index(address)],
{
    p_mcu.get_data_byte(address)
}

/// Reads the status flags, packed into one byte.
pub fn mcu_get_flags(p_mcu: &Mcu) -> (r: u8)
    ensures
        r == flags_byte(p_mcu@.regs.flags),
{
    p_mcu.get_flags().as_byte()
}

/// Sets the status flags.
pub fn mcu_set_flags(p_mcu: &mut Mcu, flags: Flags)
    ensures
        final(p_mcu)@ == (McuState {
            regs: RegState { flags, ..old(p_mcu)@.regs },
            ..old(p_mcu)@
        }),
{
    p_mcu.set_flags(flags);
}

} // verus!

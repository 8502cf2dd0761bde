use vstd::prelude::*;

use crate::memory_bank::MemoryBank;

verus! {

use crate::memory_bank::wrap_add16;

/// The eight status flags of the CPU.
///
/// Packed into a byte they sit, from most to least significant bit, in
/// the order interrupt, transfer, half-carry, sign, overflow, negative,
/// zero, carry.
#[derive(Clone, Copy, PartialEq, Eq, Structural, Debug)]
pub struct Flags {
    /// Carry out of bit 7 of the last arithmetic result.
    pub carry: bool,
    /// The last result was zero.
    pub zero: bool,
    /// Bit 7 of the last result.
    pub neg: bool,
    /// Two's-complement signed overflow of the last result.
    pub over: bool,
    /// Sign test: `neg` xor `over`.
    pub sign: bool,
    /// Carry out of bit 3 of the last arithmetic result.
    pub half: bool,
    /// General purpose transfer bit.
    pub trans: bool,
    /// Interrupt enable bit.
    pub int: bool,
}

/// The packed byte form of a flag set.
pub open spec fn flags_byte(f: Flags) -> u8 {
    ((if f.carry {
        1u8
    } else {
        0u8
    }) + (if f.zero {
        2u8
    } else {
        0u8
    }) + (if f.neg {
        4u8
    } else {
        0u8
    }) + (if f.over {
        8u8
    } else {
        0u8
    }) + (if f.sign {
        16u8
    } else {
        0u8
    }) + (if f.half {
        32u8
    } else {
        0u8
    }) + (if f.trans {
        64u8
    } else {
        0u8
    }) + (if f.int {
        128u8
    } else {
        0u8
    })) as u8
}

impl Flags {
    /// A flag set with every flag cleared.
    pub open spec fn spec_cleared() -> Flags {
        Flags {
            carry: false,
            zero: false,
            neg: false,
            over: false,
            sign: false,
            half: false,
            trans: false,
            int: false,
        }
    }

    /// Returns the flag set with every flag cleared.
    pub fn cleared() -> (r: Flags)
        ensures
            r == Flags::spec_cleared(),
    {
        Flags {
            carry: false,
            zero: false,
            neg: false,
            over: false,
            sign: false,
            half: false,
            trans: false,
            int: false,
        }
    }

    /// Packs the flags into one byte, carry in the least significant bit.
    pub fn as_byte(&self) -> (r: u8)
        ensures
            r == flags_byte(*self),
    {
        let result: u8 = (if self.carry {
            1u8
        } else {
            0u8
        }) + (if self.zero {
            2
        } else {
            0
        }) + (if self.neg {
            4
        } else {
            0
        }) + (if self.over {
            8
        } else {
            0
        }) + (if self.sign {
            16
        } else {
            0
        }) + (if self.half {
            32
        } else {
            0
        }) + (if self.trans {
            64
        } else {
            0
        }) + (if self.int {
            128
        } else {
            0
        });
        result
    }
}

/// Mathematical view of a [`RegisterBank`].
pub ghost struct RegState {
    /// The 32 general purpose registers.
    pub regs: Seq<u8>,
    /// Program counter.
    pub pc: u16,
    /// Stack pointer.
    pub sp: u16,
    /// Status flags.
    pub flags: Flags,
}

impl RegState {
    /// The register file always holds exactly 32 registers.
    pub open spec fn wf(self) -> bool {
        self.regs.len() == 32
    }
}

/// The program counter that follows `pc`: two bytes on, wrapped to the
/// program-memory size by `pmask`.
pub open spec fn next_pc(pc: u16, pmask: u16) -> u16 {
    wrap_add16(pc, 2) & pmask
}

/// The MCU's general purpose and special registers: 32 byte-wide
/// registers, the program counter, the stack pointer and the status
/// flags.
pub struct RegisterBank {
    /// The 32 general purpose registers.
    pub registers: [u8; 32],
    /// Program counter, in bytes; instructions are two bytes wide.
    pub program_counter: u16,
    /// Stack pointer into data memory; the stack grows downward.
    pub stack_pointer: u16,
    /// Status flags.
    pub flags: Flags,
}

impl View for RegisterBank {
    type V = RegState;

    open spec fn view(&self) -> RegState {
        RegState {
            regs: self.registers@,
            pc: self.program_counter,
            sp: self.stack_pointer,
            flags: self.flags,
        }
    }
}

impl RegisterBank {
    /// Initializes the register bank with zeroed registers, program
    /// counter and stack pointer, and cleared flags.
    pub fn new() -> (r: RegisterBank)
        ensures
            r@ == (RegState {
                regs: Seq::new(32, |i: int| 0u8),
                pc: 0u16,
                sp: 0u16,
                flags: Flags::spec_cleared(),
            }),
            r@.wf(),
    {
        let registers = [0u8; 32];
        let r = RegisterBank {
            registers,
            program_counter: 0,
            stack_pointer: 0,
            flags: Flags::cleared(),
        };
        proof {
            assert(r@.regs =~= Seq::new(32, |i: int| 0u8));
        }
        r
    }

    /// Advances the program counter by one instruction (two bytes),
    /// wrapping at the end of program memory.
    pub fn increment_pc(&mut self, memory_bank: &MemoryBank)
        ensures
            final(self)@ == (RegState {
                pc: next_pc(old(self)@.pc, memory_bank@.pmask),
                ..old(self)@
            }),
    {
        self.program_counter = memory_bank.mask_program_address(self.program_counter.wrapping_add(2));
    }

    /// Program counter getter.
    pub fn get_program_counter(&self) -> (r: u16)
        ensures
            r == self@.pc,
    {
        self.program_counter
    }

    /// Program counter setter.
    pub fn set_program_counter(&mut self, pc: u16)
        ensures
            final(self)@ == (RegState { pc, ..old(self)@ }),
    {
        self.program_counter = pc;
    }

    /// Stack pointer getter.
    pub fn get_stack_pointer(&self) -> (r: u16)
        ensures
            r == self@.sp,
    {
        self.stack_pointer
    }

    /// Stack pointer setter.
    pub fn set_stack_pointer(&mut self, sp: u16)
        ensures
            final(self)@ == (RegState { sp, ..old(self)@ }),
    {
        self.stack_pointer = sp;
    }

    /// Flags getter.
    pub fn get_flags(&self) -> (r: Flags)
        ensures
            r == self@.flags,
    {
        self.flags
    }

    /// Flags setter.
    pub fn set_flags(&mut self, flags: Flags)
        ensures
            final(self)@ == (RegState { flags, ..old(self)@ }),
    {
        self.flags = flags;
    }

    /// Returns 1 if the carry flag is set, otherwise 0.
    pub fn get_carry_as_u8(&self) -> (r: u8)
        ensures
            r == (if self@.flags.carry {
                1u8
            } else {
                0u8
            }),
    {
        if self.flags.carry {
            1
        } else {
            0
        }
    }
}

} // verus!

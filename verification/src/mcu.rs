use vstd::prelude::*;

use crate::alu::Alu;
use crate::decoder::Decoder;
use crate::memory_bank::MemoryBank;
use crate::register_bank::{Flags, RegisterBank};

verus! {

use crate::alu::spec_execute;
use crate::decoder::spec_decode;
use crate::display_instruction::spec_render;
use vstd::string::StringExecFns;
use crate::memory_bank::{valid_bank_size, MemState};
use crate::register_bank::{next_pc, RegState};

/// Mathematical view of an [`Mcu`]: its register bank and its memory
/// bank together.
#[verifier::ext_equal]
pub ghost struct McuState {
    /// Registers, program counter, stack pointer and flags.
    pub regs: RegState,
    /// Data and program memory.
    pub mem: MemState,
}

impl McuState {
    /// The machine is well formed: the memory bank keeps its size
    /// invariant and the register file holds its 32 registers.
    pub open spec fn wf(self) -> bool {
        &&& self.mem.wf()
        &&& self.regs.wf()
    }
}

/// The state of a machine fresh from construction: everything zeroed,
/// with the given memory-bank sizes.
pub open spec fn spec_power_on(data_size: nat, program_size: nat) -> McuState {
    McuState {
        regs: RegState {
            regs: Seq::new(32, |i: int| 0u8),
            pc: 0u16,
            sp: 0u16,
            flags: Flags::spec_cleared(),
        },
        mem: MemState {
            data: Seq::new(data_size, |i: int| 0u8),
            program: Seq::new(program_size, |i: int| 0u8),
            dmask: (data_size - 1) as u16,
            pmask: (program_size - 1) as u16,
        },
    }
}

/// One machine step: fetch the word at the program counter, decode it,
/// execute it, then advance the program counter by one instruction.
/// Branches, calls and skips express their targets as adjustments made
/// during execution, before this fixed advance.
pub open spec fn spec_step(s: McuState) -> McuState {
    let word = s.mem.program_word(s.regs.pc);
    let decoded = spec_decode(word);
    let (r1, m1) = spec_execute(decoded, s.regs, s.mem);
    McuState { regs: RegState { pc: next_pc(r1.pc, m1.pmask), ..r1 }, mem: m1 }
}

/// `n` machine steps, applied in order.
pub open spec fn spec_step_n(s: McuState, n: nat) -> McuState
    decreases n,
{
    if n == 0 {
        s
    } else {
        spec_step(spec_step_n(s, (n - 1) as nat))
    }
}

/// The microcontroller: one register bank, one memory bank, and the
/// fetch-decode-execute-advance loop that drives them.
pub struct Mcu {
    memory_bank: MemoryBank,
    reg_bank: RegisterBank,
}

impl View for Mcu {
    type V = McuState;

    closed spec fn view(&self) -> McuState {
        McuState { regs: self.reg_bank@, mem: self.memory_bank@ }
    }
}

impl Mcu {
    /// Builds a machine with zeroed registers and memories of the given
    /// sizes, which must be powers of two addressable in 16 bits.
    pub fn new(data_size: usize, program_size: usize) -> (r: Mcu)
        requires
            valid_bank_size(data_size as nat),
            valid_bank_size(program_size as nat),
        ensures
            r@ == spec_power_on(data_size as nat, program_size as nat),
            r@.wf(),
    {
        let memory_bank_result = MemoryBank::new(data_size, program_size);
        let memory_bank = match memory_bank_result {
            Ok(bank) => bank,
            Err(_) => vstd::pervasive::unreached(),
        };
        let reg_bank = RegisterBank::new();
        Mcu { memory_bank, reg_bank }
    }

    /// Performs one fetch-decode-execute-advance cycle.
    pub fn step(&mut self)
        requires
            old(self)@.wf(),
        ensures
            final(self)@ == spec_step(old(self)@),
            final(self)@.wf(),
    {
        self.execute_step();
        self.reg_bank.increment_pc(&self.memory_bank);
    }

    /// Performs `n` cycles, with no early exit.
    pub fn step_n(&mut self, n: usize)
        requires
            old(self)@.wf(),
        ensures
            final(self)@ == spec_step_n(old(self)@, n as nat),
            final(self)@.wf(),
    {
        let mut i: usize = 0;
        while i < n
            invariant
                i <= n,
                self@ == spec_step_n(old(self)@, i as nat),
                self@.wf(),
            decreases n - i,
        {
            self.execute_step();
            self.reg_bank.increment_pc(&self.memory_bank);
            i = i + 1;
        }
    }

    /// Installs `memory` at the start of data memory; a buffer longer
    /// than the bank is silently truncated.
    pub fn load_data_memory(&mut self, memory: &[u8])
        requires
            old(self)@.wf(),
        ensures
            final(self)@ == (McuState {
                mem: MemState {
                    data: Seq::new(
                        old(self)@.mem.data.len(),
                        |i: int|
                            if i < memory@.len() {
                                memory@[i]
                            } else {
                                old(self)@.mem.data[i]
                            },
                    ),
                    ..old(self)@.mem
                },
                ..old(self)@
            }),
            final(self)@.wf(),
    {
        self.memory_bank.copy_into_data_memory(memory);
    }

    /// Installs `memory` at the start of program memory; a buffer longer
    /// than the bank is silently truncated.
    pub fn load_program_memory(&mut self, memory: &[u8])
        requires
            old(self)@.wf(),
        ensures
            final(self)@ == (McuState {
                mem: MemState {
                    program: Seq::new(
                        old(self)@.mem.program.len(),
                        |i: int|
                            if i < memory@.len() {
                                memory@[i]
                            } else {
                                old(self)@.mem.program[i]
                            },
                    ),
                    ..old(self)@.mem
                },
                ..old(self)@
            }),
            final(self)@.wf(),
    {
        self.memory_bank.copy_into_program_memory(memory);
    }

    /// Size of the data memory bank, in bytes.
    pub fn get_data_size(&self) -> (r: usize)
        ensures
            r == self@.mem.data.len(),
    {
        self.memory_bank.data_size()
    }

    /// Size of the program memory bank, in bytes.
    pub fn get_program_size(&self) -> (r: usize)
        ensures
            r == self@.mem.program.len(),
    {
        self.memory_bank.program_size()
    }

    /// The data byte at `address`, after mask wraparound.
    pub fn get_data_byte(&self, address: u16) -> (r: u8)
        requires
            self@.wf(),
        ensures
            r == self@.mem.data[self@.mem.data_index(address)],
    {
        self.memory_bank.get_data_byte(address)
    }

    /// One general purpose register, by index.
    pub fn get_register(&self, reg_num: u8) -> (r: u8)
        requires
            reg_num < 32,
        ensures
            r == self@.regs.regs[reg_num as int],
    {
        self.reg_bank.registers[reg_num as usize]
    }

    /// Sets one general purpose register, by index.
    pub fn set_register(&mut self, reg_num: u8, value: u8)
        requires
            reg_num < 32,
        ensures
            final(self)@ == (McuState {
                regs: RegState {
                    regs: old(self)@.regs.regs.update(reg_num as int, value),
                    ..old(self)@.regs
                },
                ..old(self)@
            }),
    {
        self.reg_bank.registers[reg_num as usize] = value;
    }

    /// The whole register file as a 32-byte block.
    pub fn get_register_array(&self) -> (r: [u8; 32])
        ensures
            r@ == self@.regs.regs,
    {
        self.reg_bank.registers
    }

    /// Replaces the whole register file with a 32-byte block.
    pub fn set_register_array(&mut self, reg_array: [u8; 32])
        ensures
            final(self)@ == (McuState {
                regs: RegState { regs: reg_array@, ..old(self)@.regs },
                ..old(self)@
            }),
    {
        self.reg_bank.registers = reg_array;
    }

    /// Program counter getter.
    pub fn get_program_counter(&self) -> (r: u16)
        ensures
            r == self@.regs.pc,
    {
        self.reg_bank.get_program_counter()
    }

    /// Program counter setter.
    pub fn set_program_counter(&mut self, value: u16)
        ensures
            final(self)@ == (McuState {
                regs: RegState { pc: value, ..old(self)@.regs },
                ..old(self)@
            }),
    {
        self.reg_bank.set_program_counter(value);
    }

    /// The raw instruction word at the current program counter.
    pub fn get_current_instruction(&self) -> (r: u16)
        requires
            self@.wf(),
        ensures
            r == self@.mem.program_word(self@.regs.pc),
    {
        self.fetch()
    }

    /// Appends to `buf` the assembly text of the instruction under the
    /// program counter.
    pub fn display_current_instruction(&self, buf: &mut String)
        requires
            self@.wf(),
        ensures
            final(buf)@ == old(buf)@ + spec_render(
                spec_decode(self@.mem.program_word(self@.regs.pc)),
            ),
    {
        let instruction = self.fetch();
        let decoded = Decoder::decode(instruction);
        let text = decoded.render();
        buf.append(text.as_str());
    }

    /// Stack pointer getter.
    pub fn get_stack_pointer(&self) -> (r: u16)
        ensures
            r == self@.regs.sp,
    {
        self.reg_bank.get_stack_pointer()
    }

    /// Flags getter.
    pub fn get_flags(&self) -> (r: Flags)
        ensures
            r == self@.regs.flags,
    {
        self.reg_bank.get_flags()
    }

    /// Flags setter.
    pub fn set_flags(&mut self, flags: Flags)
        ensures
            final(self)@ == (McuState {
                regs: RegState { flags, ..old(self)@.regs },
                ..old(self)@
            }),
    {
        self.reg_bank.set_flags(flags);
    }

    /// Fetch, decode and execute the instruction under the program
    /// counter, without the trailing program-counter advance.
    fn execute_step(&mut self)
        requires
            old(self)@.wf(),
        ensures
            (final(self)@.regs, final(self)@.mem) == spec_execute(
                spec_decode(old(self)@.mem.program_word(old(self)@.regs.pc)),
                old(self)@.regs,
                old(self)@.mem,
            ),
            final(self)@.wf(),
    {
        let instruction = self.fetch();
        let decoded = Decoder::decode(instruction);
        Alu::execute(&decoded, &mut self.reg_bank, &mut self.memory_bank);
    }

    /// The raw program word under the program counter.
    fn fetch(&self) -> (r: u16)
        requires
            self@.wf(),
        ensures
            r == self@.mem.program_word(self@.regs.pc),
    {
        self.memory_bank.get_program_word(self.reg_bank.get_program_counter())
    }
}

} // verus!

use vstd::prelude::*;

verus! {

/// One of the three 16-bit pointer registers, each an adjacent register
/// pair: X is r27:r26, Y is r29:r28, Z is r31:r30.
#[derive(Clone, Copy, Debug)]
pub enum PointerRegister {
    X,
    Y,
    Z,
}

impl PointerRegister {
    /// Index of the low register of the pair.
    pub open spec fn spec_low_reg(self) -> int {
        match self {
            PointerRegister::X => 26,
            PointerRegister::Y => 28,
            PointerRegister::Z => 30,
        }
    }

    /// Index of the low register of the pair.
    pub fn low_reg(self) -> (r: u8)
        ensures
            r == self.spec_low_reg(),
    {
        match self {
            PointerRegister::X => 26,
            PointerRegister::Y => 28,
            PointerRegister::Z => 30,
        }
    }
}

/// A decoded instruction: a closed set of tagged variants, one per
/// instruction family. Produced by the decoder, consumed by the ALU.
#[derive(Clone, Copy, Debug)]
#[allow(inconsistent_fields)]
pub enum Instruction {
    /// Conditional branch on one status flag: taken when the flag equals
    /// `test_set`; `offset` is a signed word offset.
    Branch { op: u8, test_set: bool, offset: i8 },
    /// Set (`sbi`) or clear (`cbi`) one bit of an I/O register.
    BitManipOp { address: u8, bit: u8, set: bool },
    /// Relative call or jump; `address` holds the raw 12-bit offset field.
    CallJmp { is_call: bool, relative: bool, address: u16 },
    /// Move a byte between a register and an I/O-space address.
    InOut { is_in: bool, reg: u8, address: u8 },
    /// No operation.
    Nop,
    /// Single-register operation (`com`, `neg`, `swap`, shifts, ...).
    OneRegOp { rd: u8, op: u8 },
    /// Push a register to the stack, or pop it back.
    PushPop { is_pop: bool, reg: u8 },
    /// Register-with-constant operation (`cpi`, `subi`, `ldi`, `adiw`, ...).
    RegConstOp { op: u16, rd: u8, constant: u8 },
    /// Skip the next instruction when an I/O register bit matches `set`.
    SkipOp { address: u8, bit: u8, set: bool },
    /// Load or store through a pointer register plus a displacement.
    TransferIndirect { is_load: bool, pointer: PointerRegister, dest: u8, offset: u8 },
    /// Load or store through a pointer register with post-increment or
    /// pre-decrement.
    TransferChangePointer { is_load: bool, pointer: PointerRegister, dest: u8, post_inc: bool },
    /// Two-register operation (`add`, `sub`, `cp`, logic, moves, multiplies).
    TwoRegOp { op: u16, rd: u8, rr: u8 },
    /// Operand-free operation (`ret`, `reti`, `sleep`, ...).
    ZeroRegOp { op: u8 },
    /// A bit pattern the decoder does not recognize; executes as a no-op.
    Unsupported { instruction: u16 },
}

/// Dispatch code the decoder assigns to `movw` inside the two-register family.
pub const MOVW_OP: u16 = 0x11;

/// Dispatch code the decoder assigns to `muls` inside the two-register family.
pub const MULS_OP: u16 = 0x12;

/// Dispatch code the decoder assigns to `mulsu` inside the two-register family.
pub const MULSU_OP: u16 = 0x13;

/// Dispatch code the decoder assigns to `fmul` inside the two-register family.
pub const FMUL_OP: u16 = 0x14;

/// Dispatch code the decoder assigns to `fmuls` inside the two-register family.
pub const FMULS_OP: u16 = 0x15;

/// Dispatch code the decoder assigns to `fmulsu` inside the two-register family.
pub const FMULSU_OP: u16 = 0x16;

impl Instruction {
    /// Every operand is within the range the decoder can produce; the
    /// executor relies on these bounds.
    pub open spec fn wf(self) -> bool {
        match self {
            Instruction::Branch { op, test_set, offset } => op < 8 && -64 <= offset < 64,
            Instruction::BitManipOp { address, bit, set } => address < 32 && bit < 8,
            Instruction::CallJmp { is_call, relative, address } => relative && address < 0x1000,
            Instruction::InOut { is_in, reg, address } => reg < 32 && address < 64,
            Instruction::Nop => true,
            Instruction::OneRegOp { rd, op } => rd < 32 && op < 16,
            Instruction::PushPop { is_pop, reg } => reg < 32,
            Instruction::RegConstOp { op, rd, constant } => {
                if op == 0x96 || op == 0x97 {
                    rd < 4 && constant < 64
                } else {
                    (op == 0x3 || op == 0x4 || op == 0x5 || op == 0x6 || op == 0x7 || op == 0xE)
                        && rd < 16
                }
            },
            Instruction::SkipOp { address, bit, set } => address < 32 && bit < 8,
            Instruction::TransferIndirect { is_load, pointer, dest, offset } => dest < 32 && offset
                < 64,
            Instruction::TransferChangePointer { is_load, pointer, dest, post_inc } => dest < 32,
            Instruction::TwoRegOp { op, rd, rr } => {
                &&& rd < 32
                &&& rr < 32
                &&& (0x1 <= op <= 0xF || op == MOVW_OP || op == MULS_OP || op == MULSU_OP || op
                    == FMUL_OP || op == FMULS_OP || op == FMULSU_OP)
                &&& (op == MOVW_OP ==> rd % 2 == 0 && rr % 2 == 0)
            },
            Instruction::ZeroRegOp { op } => op < 16,
            Instruction::Unsupported { instruction } => true,
        }
    }
}

} // verus!

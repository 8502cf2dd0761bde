use vstd::prelude::*;

use crate::instruction::{Instruction, PointerRegister};

verus! {

use crate::instruction::{MOVW_OP, MULS_OP, MULSU_OP, FMUL_OP, FMULS_OP, FMULSU_OP};
use crate::memory_bank::lemma_and_mask_le;

/// Decoded form of the move/multiply group: top six bits all zero.
pub open spec fn spec_decode_misc_mult_op(w: u16) -> Instruction {
    let sub_op = w & 0x0300;
    let rd = (w >> 4) & 0xF;
    let rr = w & 0xF;
    if sub_op == 0x0100 {
        Instruction::TwoRegOp { op: MOVW_OP, rd: (rd * 2) as u8, rr: (rr * 2) as u8 }
    } else if sub_op == 0x0200 {
        Instruction::TwoRegOp { op: MULS_OP, rd: (rd + 16) as u8, rr: (rr + 16) as u8 }
    } else if sub_op == 0x0300 {
        if rd < 8 && rr < 8 {
            Instruction::TwoRegOp { op: MULSU_OP, rd: (rd + 16) as u8, rr: (rr + 16) as u8 }
        } else if rd < 8 {
            Instruction::TwoRegOp { op: FMUL_OP, rd: (rd + 16) as u8, rr: (rr + 8) as u8 }
        } else if rr < 8 {
            Instruction::TwoRegOp { op: FMULS_OP, rd: (rd + 8) as u8, rr: (rr + 16) as u8 }
        } else {
            Instruction::TwoRegOp { op: FMULSU_OP, rd: (rd + 8) as u8, rr: (rr + 8) as u8 }
        }
    } else {
        Instruction::Unsupported { instruction: w }
    }
}

/// Decoded form of the general two-register group.
pub open spec fn spec_decode_two_reg_op(w: u16) -> Instruction {
    let rd = ((w >> 4) & 0x1F) as u8;
    let rr0 = (w & 0xF) as u8;
    let rr = if w & 0x0200 != 0 {
        (rr0 + 16) as u8
    } else {
        rr0
    };
    Instruction::TwoRegOp { op: w >> 10, rd, rr }
}

/// Decoded form of the register-with-constant group (`cpi`, `sbci`,
/// `subi`, `ori`, `andi`, `ldi`).
pub open spec fn spec_decode_reg_const_op(w: u16) -> Instruction {
    let rd = ((w >> 4) & 0xF) as u8;
    let constant = (((w >> 4) & 0xF0) + (w & 0xF)) as u8;
    Instruction::RegConstOp { op: w >> 12, rd, constant }
}

/// Decoded form of the displacement load/store group (`ldd`/`std`
/// through Y or Z).
pub open spec fn spec_decode_load_store(w: u16) -> Instruction {
    let is_load = w & 0x0200 == 0;
    let pointer = if w & 0x0008 == 0 {
        PointerRegister::Z
    } else {
        PointerRegister::Y
    };
    let dest = ((w >> 4) & 0x1F) as u8;
    let offset = ((w & 0x7) + ((w >> 7) & 0x18) + ((w >> 8) & 0x20)) as u8;
    Instruction::TransferIndirect { is_load, pointer, dest, offset }
}

/// Decoded form of the miscellaneous group with top nibble 9.
pub open spec fn spec_decode_misc_op(w: u16) -> Instruction {
    let group = w & 0x0F00;
    if group == 0 || group == 0x0100 || group == 0x0200 || group == 0x0300 {
        let dest = ((w >> 4) & 0x1F) as u8;
        let is_load = w & 0x0200 == 0;
        let low = w & 0xF;
        if low == 0x1 {
            Instruction::TransferChangePointer {
                is_load,
                pointer: PointerRegister::Z,
                dest,
                post_inc: true,
            }
        } else if low == 0x2 {
            Instruction::TransferChangePointer {
                is_load,
                pointer: PointerRegister::Z,
                dest,
                post_inc: false,
            }
        } else if low == 0x9 {
            Instruction::TransferChangePointer {
                is_load,
                pointer: PointerRegister::Y,
                dest,
                post_inc: true,
            }
        } else if low == 0xA {
            Instruction::TransferChangePointer {
                is_load,
                pointer: PointerRegister::Y,
                dest,
                post_inc: false,
            }
        } else if low == 0xC {
            Instruction::TransferIndirect { is_load, pointer: PointerRegister::X, dest, offset: 0 }
        } else if low == 0xD {
            Instruction::TransferChangePointer {
                is_load,
                pointer: PointerRegister::X,
                dest,
                post_inc: true,
            }
        } else if low == 0xE {
            Instruction::TransferChangePointer {
                is_load,
                pointer: PointerRegister::X,
                dest,
                post_inc: false,
            }
        } else if low == 0xF {
            Instruction::PushPop { is_pop: is_load, reg: dest }
        } else {
            Instruction::Unsupported { instruction: w }
        }
    } else if group == 0x0400 {
        Instruction::OneRegOp { rd: ((w >> 4) & 0x1F) as u8, op: (w & 0xF) as u8 }
    } else if group == 0x0500 {
        let op = (w & 0xF) as u8;
        if op == 0x8 {
            let sub_op = ((w >> 4) & 0xF) as u8;
            if (0x2 <= sub_op && sub_op <= 0x7) || sub_op == 0xB {
                Instruction::Unsupported { instruction: w }
            } else {
                Instruction::ZeroRegOp { op: sub_op }
            }
        } else {
            Instruction::OneRegOp { rd: ((w >> 4) & 0x1F) as u8, op }
        }
    } else if group == 0x0600 || group == 0x0700 {
        let rd = ((w >> 4) & 0x3) as u8;
        let constant = (((w >> 2) & 0x30) + (w & 0xF)) as u8;
        Instruction::RegConstOp { op: w >> 8, rd, constant }
    } else if group == 0x0800 || group == 0x0A00 {
        let address = ((w >> 3) & 0x1F) as u8;
        let bit = (w & 0x7) as u8;
        Instruction::BitManipOp { address, bit, set: group == 0x0A00 }
    } else if group == 0x0900 || group == 0x0B00 {
        let address = ((w >> 3) & 0x1F) as u8;
        let bit = (w & 0x7) as u8;
        Instruction::SkipOp { address, bit, set: group == 0x0B00 }
    } else {
        Instruction::Unsupported { instruction: w }
    }
}

/// Decoded form of the `in`/`out` group.
pub open spec fn spec_decode_in_out(w: u16) -> Instruction {
    let is_in = w & 0x0800 == 0;
    let reg = ((w >> 4) & 0x1F) as u8;
    let address = (((w >> 5) & 0x30) + (w & 0xF)) as u8;
    Instruction::InOut { is_in, reg, address }
}

/// Decoded form of the conditional-branch group.
pub open spec fn spec_decode_branch_skip_status_op(w: u16) -> Instruction {
    if w & 0x0800 == 0 {
        let op = (w & 0x7) as u8;
        let u_offset = (w >> 3) & 0x7F;
        let offset: i8 = if u_offset < 0x40 {
            u_offset as i8
        } else {
            (u_offset - 128) as i8
        };
        let test_set = w & 0x0400 == 0;
        Instruction::Branch { op, test_set, offset }
    } else {
        Instruction::Unsupported { instruction: w }
    }
}

/// The full decoding table: every 16-bit word maps to exactly one
/// instruction; bit patterns outside the table map to `Unsupported`.
pub open spec fn spec_decode(w: u16) -> Instruction {
    if w == 0 {
        Instruction::Nop
    } else {
        let opcode = w >> 12;
        if opcode <= 0x2 {
            if w & 0xFC00 == 0 {
                spec_decode_misc_mult_op(w)
            } else {
                spec_decode_two_reg_op(w)
            }
        } else if opcode <= 0x7 || opcode == 0xE {
            spec_decode_reg_const_op(w)
        } else if opcode == 0x8 || opcode == 0xA {
            spec_decode_load_store(w)
        } else if opcode == 0x9 {
            spec_decode_misc_op(w)
        } else if opcode == 0xB {
            spec_decode_in_out(w)
        } else if opcode == 0xC || opcode == 0xD {
            Instruction::CallJmp { is_call: opcode == 0xD, relative: true, address: w & 0xFFF }
        } else {
            spec_decode_branch_skip_status_op(w)
        }
    }
}

/// The instruction decoder: a pure function from raw 16-bit words to
/// tagged instruction values.
pub struct Decoder;

impl Decoder {
    /// Decodes a two-byte instruction word into a value with decoded
    /// operands. Total: every word decodes, unrecognized ones to
    /// `Unsupported`.
    pub fn decode(raw_instruction: u16) -> (r: Instruction)
        ensures
            r == spec_decode(raw_instruction),
            r.wf(),
    {
        let w = raw_instruction;
        // Plain nop is common enough to deserve the short path.
        if w == 0 {
            return Instruction::Nop;
        }
        let opcode = w >> 12;
        if opcode <= 0x2 {
            if w & 0xFC00 == 0 {
                decode_misc_mult_op(w)
            } else {
                proof {
                    assert(1 <= w >> 10 <= 0xB) by (bit_vector)
                        requires
                            w >> 12 <= 2,
                            w & 0xFC00 != 0,
                    ;
                }
                decode_two_reg_op(w)
            }
        } else if opcode <= 0x7 || opcode == 0xE {
            decode_reg_const_op(w)
        } else if opcode == 0x8 || opcode == 0xA {
            decode_load_store(w)
        } else if opcode == 0x9 {
            decode_misc_op(w)
        } else if opcode == 0xB {
            decode_in_out(w)
        } else if opcode == 0xC || opcode == 0xD {
            let is_call = opcode == 0xD;
            let offset = w & 0xFFF;
            proof {
                lemma_and_mask_le(w, 0xFFF);
            }
            Instruction::CallJmp { is_call, relative: true, address: offset }
        } else {
            decode_branch_skip_status_op(w)
        }
    }
}

/// Register field in bits 8 to 4, a register index below 32.
fn field_reg5(w: u16) -> (r: u8)
    ensures
        r == ((w >> 4) & 0x1F) as u8,
        r < 32,
{
    proof {
        lemma_and_mask_le(w >> 4, 0x1F);
    }
    ((w >> 4) & 0x1F) as u8
}

fn decode_misc_mult_op(w: u16) -> (r: Instruction)
    ensures
        r == spec_decode_misc_mult_op(w),
        r.wf(),
{
    let sub_op = w & 0x0300;
    proof {
        lemma_and_mask_le(w >> 4, 0xF);
        lemma_and_mask_le(w, 0xF);
    }
    let rd = ((w >> 4) & 0xF) as u8;
    let rr = (w & 0xF) as u8;
    if sub_op == 0x0100 {
        Instruction::TwoRegOp { op: MOVW_OP, rd: rd * 2, rr: rr * 2 }
    } else if sub_op == 0x0200 {
        Instruction::TwoRegOp { op: MULS_OP, rd: rd + 16, rr: rr + 16 }
    } else if sub_op == 0x0300 {
        if rd < 8 && rr < 8 {
            Instruction::TwoRegOp { op: MULSU_OP, rd: rd + 16, rr: rr + 16 }
        } else if rd < 8 {
            Instruction::TwoRegOp { op: FMUL_OP, rd: rd + 16, rr: rr + 8 }
        } else if rr < 8 {
            Instruction::TwoRegOp { op: FMULS_OP, rd: rd + 8, rr: rr + 16 }
        } else {
            Instruction::TwoRegOp { op: FMULSU_OP, rd: rd + 8, rr: rr + 8 }
        }
    } else {
        Instruction::Unsupported { instruction: w }
    }
}

fn decode_two_reg_op(w: u16) -> (r: Instruction)
    requires
        1 <= w >> 10 <= 0xB,
    ensures
        r == spec_decode_two_reg_op(w),
        r.wf(),
{
    let rd = field_reg5(w);
    proof {
        lemma_and_mask_le(w, 0xF);
    }
    let mut rr = (w & 0xF) as u8;
    if w & 0x0200 != 0 {
        rr += 16;
    }
    Instruction::TwoRegOp { op: w >> 10, rd, rr }
}

fn decode_reg_const_op(w: u16) -> (r: Instruction)
    requires
        3 <= w >> 12 <= 7 || w >> 12 == 0xE,
    ensures
        r == spec_decode_reg_const_op(w),
        r.wf(),
{
    proof {
        lemma_and_mask_le(w >> 4, 0xF);
        lemma_and_mask_le(w >> 4, 0xF0);
        lemma_and_mask_le(w, 0xF);
    }
    let rd = ((w >> 4) & 0xF) as u8;
    let constant_upper = ((w >> 4) & 0xF0) as u8;
    let constant_lower = (w & 0xF) as u8;
    let constant = constant_upper + constant_lower;
    Instruction::RegConstOp { op: w >> 12, rd, constant }
}

fn decode_load_store(w: u16) -> (r: Instruction)
    ensures
        r == spec_decode_load_store(w),
        r.wf(),
{
    let is_load = w & 0x0200 == 0;
    let pointer = if w & 0x0008 == 0 {
        PointerRegister::Z
    } else {
        PointerRegister::Y
    };
    let dest = field_reg5(w);
    proof {
        lemma_and_mask_le(w, 0x7);
        lemma_and_mask_le(w >> 7, 0x18);
        lemma_and_mask_le(w >> 8, 0x20);
    }
    let offset_lo = (w & 0x7) as u8;
    let offset_mid = ((w >> 7) & 0x18) as u8;
    let offset_hi = ((w >> 8) & 0x20) as u8;
    let offset = offset_lo + offset_mid + offset_hi;
    Instruction::TransferIndirect { is_load, pointer, dest, offset }
}

// These instructions start with top nibble 9.
fn decode_misc_op(w: u16) -> (r: Instruction)
    requires
        w >> 12 == 9,
    ensures
        r == spec_decode_misc_op(w),
        r.wf(),
{
    let group = w & 0x0F00;
    if group == 0 || group == 0x0100 || group == 0x0200 || group == 0x0300 {
        let dest = field_reg5(w);
        let is_load = w & 0x0200 == 0;
        let low = w & 0xF;
        if low == 0x1 {
            // Z post incremented
            Instruction::TransferChangePointer {
                is_load,
                pointer: PointerRegister::Z,
                dest,
                post_inc: true,
            }
        } else if low == 0x2 {
            // Z pre decremented
            Instruction::TransferChangePointer {
                is_load,
                pointer: PointerRegister::Z,
                dest,
                post_inc: false,
            }
        } else if low == 0x9 {
            // Y post incremented
            Instruction::TransferChangePointer {
                is_load,
                pointer: PointerRegister::Y,
                dest,
                post_inc: true,
            }
        } else if low == 0xA {
            // Y pre decremented
            Instruction::TransferChangePointer {
                is_load,
                pointer: PointerRegister::Y,
                dest,
                post_inc: false,
            }
        } else if low == 0xC {
            Instruction::TransferIndirect { is_load, pointer: PointerRegister::X, dest, offset: 0 }
        } else if low == 0xD {
            Instruction::TransferChangePointer {
                is_load,
                pointer: PointerRegister::X,
                dest,
                post_inc: true,
            }
        } else if low == 0xE {
            Instruction::TransferChangePointer {
                is_load,
                pointer: PointerRegister::X,
                dest,
                post_inc: false,
            }
        } else if low == 0xF {
            Instruction::PushPop { is_pop: is_load, reg: dest }
        } else {
            Instruction::Unsupported { instruction: w }
        }
    } else if group == 0x0400 {
        proof {
            lemma_and_mask_le(w, 0xF);
        }
        Instruction::OneRegOp { rd: field_reg5(w), op: (w & 0xF) as u8 }
    } else if group == 0x0500 {
        proof {
            lemma_and_mask_le(w, 0xF);
            lemma_and_mask_le(w >> 4, 0xF);
        }
        let op = (w & 0xF) as u8;
        if op == 0x8 {
            let sub_op = ((w >> 4) & 0xF) as u8;
            if (0x2 <= sub_op && sub_op <= 0x7) || sub_op == 0xB {
                Instruction::Unsupported { instruction: w }
            } else {
                Instruction::ZeroRegOp { op: sub_op }
            }
        } else {
            Instruction::OneRegOp { rd: field_reg5(w), op }
        }
    } else if group == 0x0600 || group == 0x0700 {
        proof {
            lemma_and_mask_le(w >> 4, 0x3);
            lemma_and_mask_le(w >> 2, 0x30);
            lemma_and_mask_le(w, 0xF);
            assert(w >> 8 == 0x96 || w >> 8 == 0x97) by (bit_vector)
                requires
                    w >> 12 == 9 && (w & 0x0F00 == 0x0600 || w & 0x0F00 == 0x0700),
            ;
        }
        let rd = ((w >> 4) & 0x3) as u8;
        let constant = (((w >> 2) & 0x30) as u8) + ((w & 0xF) as u8);
        Instruction::RegConstOp { op: w >> 8, rd, constant }
    } else if group == 0x0800 || group == 0x0A00 {
        proof {
            lemma_and_mask_le(w >> 3, 0x1F);
            lemma_and_mask_le(w, 0x7);
        }
        let address = ((w >> 3) & 0x1F) as u8;
        let bit = (w & 0x7) as u8;
        Instruction::BitManipOp { address, bit, set: group == 0x0A00 }
    } else if group == 0x0900 || group == 0x0B00 {
        proof {
            lemma_and_mask_le(w >> 3, 0x1F);
            lemma_and_mask_le(w, 0x7);
        }
        let address = ((w >> 3) & 0x1F) as u8;
        let bit = (w & 0x7) as u8;
        Instruction::SkipOp { address, bit, set: group == 0x0B00 }
    } else {
        Instruction::Unsupported { instruction: w }
    }
}

fn decode_in_out(w: u16) -> (r: Instruction)
    ensures
        r == spec_decode_in_out(w),
        r.wf(),
{
    let is_in = w & 0x0800 == 0;
    let reg = field_reg5(w);
    proof {
        lemma_and_mask_le(w >> 5, 0x30);
        lemma_and_mask_le(w, 0xF);
    }
    let address_hi = ((w >> 5) & 0x30) as u8;
    let address_low = (w & 0xF) as u8;
    let address = address_hi + address_low;
    Instruction::InOut { is_in, reg, address }
}

fn decode_branch_skip_status_op(w: u16) -> (r: Instruction)
    ensures
        r == spec_decode_branch_skip_status_op(w),
        r.wf(),
{
    if w & 0x0800 == 0 {
        proof {
            lemma_and_mask_le(w, 0x7);
            lemma_and_mask_le(w >> 3, 0x7F);
        }
        let op = (w & 0x7) as u8;
        let u_offset = (w >> 3) & 0x7F;
        let offset: i8 = if u_offset < 0x40 {
            u_offset as i8
        } else {
            ((u_offset as i16) - 128) as i8
        };
        let test_set = w & 0x0400 == 0;
        Instruction::Branch { op, test_set, offset }
    } else {
        Instruction::Unsupported { instruction: w }
    }
}

} // verus!

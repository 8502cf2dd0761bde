use vstd::prelude::*;

use crate::instruction::{Instruction, PointerRegister};

verus! {

use crate::instruction::{MOVW_OP, MULS_OP, MULSU_OP, FMUL_OP, FMULS_OP, FMULSU_OP};
use vstd::string::StringExecFns;

/// The character for one digit below 16, lowercase.
pub open spec fn digit_char(d: nat) -> char {
    if d == 0 {
        '0'
    } else if d == 1 {
        '1'
    } else if d == 2 {
        '2'
    } else if d == 3 {
        '3'
    } else if d == 4 {
        '4'
    } else if d == 5 {
        '5'
    } else if d == 6 {
        '6'
    } else if d == 7 {
        '7'
    } else if d == 8 {
        '8'
    } else if d == 9 {
        '9'
    } else if d == 10 {
        'a'
    } else if d == 11 {
        'b'
    } else if d == 12 {
        'c'
    } else if d == 13 {
        'd'
    } else if d == 14 {
        'e'
    } else {
        'f'
    }
}

/// The character for one digit below 16, uppercase above nine.
pub open spec fn digit_char_upper(d: nat) -> char {
    if d < 10 {
        digit_char(d)
    } else if d == 10 {
        'A'
    } else if d == 11 {
        'B'
    } else if d == 12 {
        'C'
    } else if d == 13 {
        'D'
    } else if d == 14 {
        'E'
    } else {
        'F'
    }
}

/// Decimal rendering of a natural number, without leading zeroes.
pub open spec fn spec_dec(n: nat) -> Seq<char>
    decreases n,
{
    if n < 10 {
        seq![digit_char(n)]
    } else {
        spec_dec(n / 10) + seq![digit_char(n % 10)]
    }
}

/// Lowercase hexadecimal rendering of a natural number, without leading
/// zeroes.
pub open spec fn spec_hex(n: nat) -> Seq<char>
    decreases n,
{
    if n < 16 {
        seq![digit_char(n)]
    } else {
        spec_hex(n / 16) + seq![digit_char(n % 16)]
    }
}

/// Lowercase hexadecimal rendering of a byte, always two digits.
pub open spec fn spec_hex_pad2(n: u8) -> Seq<char> {
    seq![digit_char((n / 16) as nat), digit_char((n % 16) as nat)]
}

/// Uppercase hexadecimal rendering of a byte, always two digits.
pub open spec fn spec_hex_pad2_upper(n: u8) -> Seq<char> {
    seq![digit_char_upper((n / 16) as nat), digit_char_upper((n % 16) as nat)]
}

/// Lowercase hexadecimal rendering of a word, at least two digits.
pub open spec fn spec_hex_word(n: u16) -> Seq<char> {
    if n < 16 {
        seq![digit_char(0), digit_char(n as nat)]
    } else {
        spec_hex(n as nat)
    }
}

/// Signed decimal rendering with an explicit sign, `+` for zero and
/// positive values.
pub open spec fn spec_signed_dec(v: int) -> Seq<char> {
    if v >= 0 {
        seq!['+'] + spec_dec(v as nat)
    } else {
        seq!['-'] + spec_dec((-v) as nat)
    }
}

/// The name of a pointer register.
pub open spec fn spec_pointer_name(p: PointerRegister) -> Seq<char> {
    match p {
        PointerRegister::X => "X"@,
        PointerRegister::Y => "Y"@,
        PointerRegister::Z => "Z"@,
    }
}

fn digit_str(d: u8) -> (r: &'static str)
    requires
        d < 16,
    ensures
        r@ == seq![digit_char(d as nat)],
{
    if d == 0 {
        proof {
            reveal_strlit("0");
        }
        "0"
    } else if d == 1 {
        proof {
            reveal_strlit("1");
        }
        "1"
    } else if d == 2 {
        proof {
            reveal_strlit("2");
        }
        "2"
    } else if d == 3 {
        proof {
            reveal_strlit("3");
        }
        "3"
    } else if d == 4 {
        proof {
            reveal_strlit("4");
        }
        "4"
    } else if d == 5 {
        proof {
            reveal_strlit("5");
        }
        "5"
    } else if d == 6 {
        proof {
            reveal_strlit("6");
        }
        "6"
    } else if d == 7 {
        proof {
            reveal_strlit("7");
        }
        "7"
    } else if d == 8 {
        proof {
            reveal_strlit("8");
        }
        "8"
    } else if d == 9 {
        proof {
            reveal_strlit("9");
        }
        "9"
    } else if d == 10 {
        proof {
            reveal_strlit("a");
        }
        "a"
    } else if d == 11 {
        proof {
            reveal_strlit("b");
        }
        "b"
    } else if d == 12 {
        proof {
            reveal_strlit("c");
        }
        "c"
    } else if d == 13 {
        proof {
            reveal_strlit("d");
        }
        "d"
    } else if d == 14 {
        proof {
            reveal_strlit("e");
        }
        "e"
    } else {
        proof {
            reveal_strlit("f");
        }
        "f"
    }
}

fn digit_str_upper(d: u8) -> (r: &'static str)
    requires
        d < 16,
    ensures
        r@ == seq![digit_char_upper(d as nat)],
{
    if d < 10 {
        digit_str(d)
    } else if d == 10 {
        proof {
            reveal_strlit("A");
        }
        "A"
    } else if d == 11 {
        proof {
            reveal_strlit("B");
        }
        "B"
    } else if d == 12 {
        proof {
            reveal_strlit("C");
        }
        "C"
    } else if d == 13 {
        proof {
            reveal_strlit("D");
        }
        "D"
    } else if d == 14 {
        proof {
            reveal_strlit("E");
        }
        "E"
    } else {
        proof {
            reveal_strlit("F");
        }
        "F"
    }
}

/// Renders a number in decimal.
fn dec_str(n: u16) -> (r: String)
    ensures
        r@ == spec_dec(n as nat),
    decreases n,
{
    if n < 10 {
        String::from_str(digit_str(n as u8))
    } else {
        let mut s = dec_str(n / 10);
        s.append(digit_str((n % 10) as u8));
        s
    }
}

/// Renders a number in lowercase hexadecimal.
fn hex_str(n: u16) -> (r: String)
    ensures
        r@ == spec_hex(n as nat),
    decreases n,
{
    if n < 16 {
        String::from_str(digit_str(n as u8))
    } else {
        let mut s = hex_str(n / 16);
        s.append(digit_str((n % 16) as u8));
        s
    }
}

/// Renders a byte as exactly two lowercase hexadecimal digits.
fn hex_pad2_str(n: u8) -> (r: String)
    ensures
        r@ == spec_hex_pad2(n),
{
    let mut s = String::from_str(digit_str(n / 16));
    s.append(digit_str(n % 16));
    proof {
        assert(s@ =~= spec_hex_pad2(n));
    }
    s
}

/// Renders a byte as exactly two uppercase hexadecimal digits.
fn hex_pad2_upper_str(n: u8) -> (r: String)
    ensures
        r@ == spec_hex_pad2_upper(n),
{
    let mut s = String::from_str(digit_str_upper(n / 16));
    s.append(digit_str_upper(n % 16));
    proof {
        assert(s@ =~= spec_hex_pad2_upper(n));
    }
    s
}

/// Renders a word in lowercase hexadecimal, zero-padded to two digits.
fn hex_word_str(n: u16) -> (r: String)
    ensures
        r@ == spec_hex_word(n),
{
    if n < 16 {
        let mut s = String::from_str(digit_str(0));
        s.append(digit_str(n as u8));
        proof {
            assert(s@ =~= spec_hex_word(n));
        }
        s
    } else {
        hex_str(n)
    }
}

/// Renders a signed value in decimal with an explicit sign.
fn signed_dec_str(v: i16) -> (r: String)
    requires
        -0x7FFF <= v,
    ensures
        r@ == spec_signed_dec(v as int),
{
    if v >= 0 {
        proof {
            reveal_strlit("+");
            assert("+"@ =~= seq!['+']);
        }
        let mut s = String::from_str("+");
        s.append(dec_str(v as u16).as_str());
        s
    } else {
        proof {
            reveal_strlit("-");
            assert("-"@ =~= seq!['-']);
        }
        let mut s = String::from_str("-");
        s.append(dec_str((-v) as u16).as_str());
        s
    }
}

/// The name of a pointer register.
fn pointer_name(p: PointerRegister) -> (r: &'static str)
    ensures
        r@ == spec_pointer_name(p),
{
    match p {
        PointerRegister::X => "X",
        PointerRegister::Y => "Y",
        PointerRegister::Z => "Z",
    }
}

/// Rendering of `mnemonic rd, rr` for two-register instructions.
pub open spec fn spec_reg_pair(mnemonic: Seq<char>, rd: u8, rr: u8) -> Seq<char> {
    mnemonic + "\tr"@ + spec_dec(rd as nat) + ", r"@ + spec_dec(rr as nat)
}

fn reg_pair(mnemonic: &str, rd: u8, rr: u8) -> (r: String)
    ensures
        r@ == spec_reg_pair(mnemonic@, rd, rr),
{
    let mut s = String::from_str(mnemonic);
    s.append("\tr");
    s.append(dec_str(rd as u16).as_str());
    s.append(", r");
    s.append(dec_str(rr as u16).as_str());
    s
}

/// The mnemonic of a two-register operation code.
pub open spec fn spec_two_reg_mnemonic(op: u16) -> Seq<char> {
    if op == 0x1 {
        "cpc"@
    } else if op == 0x2 {
        "sbc"@
    } else if op == 0x3 {
        "add"@
    } else if op == 0x4 {
        "cpse"@
    } else if op == 0x5 {
        "cp"@
    } else if op == 0x6 {
        "sub"@
    } else if op == 0x7 {
        "adc"@
    } else if op == 0x8 {
        "and"@
    } else if op == 0x9 {
        "eor"@
    } else if op == 0xA {
        "or"@
    } else if 0xB <= op <= 0xF {
        "mov"@
    } else if op == MOVW_OP {
        "movw"@
    } else if op == MULS_OP {
        "muls"@
    } else if op == MULSU_OP {
        "mulsu"@
    } else if op == FMUL_OP {
        "fmul"@
    } else if op == FMULS_OP {
        "fmuls"@
    } else if op == FMULSU_OP {
        "fmulsu"@
    } else {
        ".word"@
    }
}

/// Rendering of the two-register family.
pub open spec fn spec_display_two_reg_op(op: u16, rd: u8, rr: u8) -> Seq<char> {
    spec_reg_pair(spec_two_reg_mnemonic(op), rd, rr)
}

fn display_two_reg_op(op: u16, rd: u8, rr: u8) -> (r: String)
    ensures
        r@ == spec_display_two_reg_op(op, rd, rr),
{
    let mnemonic = if op == 0x1 {
        "cpc"
    } else if op == 0x2 {
        "sbc"
    } else if op == 0x3 {
        "add"
    } else if op == 0x4 {
        "cpse"
    } else if op == 0x5 {
        "cp"
    } else if op == 0x6 {
        "sub"
    } else if op == 0x7 {
        "adc"
    } else if op == 0x8 {
        "and"
    } else if op == 0x9 {
        "eor"
    } else if op == 0xA {
        "or"
    } else if op >= 0xB && op <= 0xF {
        "mov"
    } else if op == MOVW_OP {
        "movw"
    } else if op == MULS_OP {
        "muls"
    } else if op == MULSU_OP {
        "mulsu"
    } else if op == FMUL_OP {
        "fmul"
    } else if op == FMULS_OP {
        "fmuls"
    } else if op == FMULSU_OP {
        "fmulsu"
    } else {
        ".word"
    };
    reg_pair(mnemonic, rd, rr)
}

/// Rendering of the status-flag set/clear group (`sec` through `cli`).
pub open spec fn spec_display_set_clear(op: u8) -> Seq<char> {
    if op == 0x0 {
        "sec"@
    } else if op == 0x1 {
        "sez"@
    } else if op == 0x2 {
        "sen"@
    } else if op == 0x3 {
        "sev"@
    } else if op == 0x4 {
        "ses"@
    } else if op == 0x5 {
        "seh"@
    } else if op == 0x6 {
        "set"@
    } else if op == 0x7 {
        "sei"@
    } else if op == 0x8 {
        "clc"@
    } else if op == 0x9 {
        "clz"@
    } else if op == 0xa {
        "cln"@
    } else if op == 0xb {
        "clv"@
    } else if op == 0xc {
        "cls"@
    } else if op == 0xd {
        "clh"@
    } else if op == 0xe {
        "clt"@
    } else {
        "cli"@
    }
}

fn display_set_clear(op: u8) -> (r: String)
    ensures
        r@ == spec_display_set_clear(op),
{
    let text = if op == 0x0 {
        "sec"
    } else if op == 0x1 {
        "sez"
    } else if op == 0x2 {
        "sen"
    } else if op == 0x3 {
        "sev"
    } else if op == 0x4 {
        "ses"
    } else if op == 0x5 {
        "seh"
    } else if op == 0x6 {
        "set"
    } else if op == 0x7 {
        "sei"
    } else if op == 0x8 {
        "clc"
    } else if op == 0x9 {
        "clz"
    } else if op == 0xa {
        "cln"
    } else if op == 0xb {
        "clv"
    } else if op == 0xc {
        "cls"
    } else if op == 0xd {
        "clh"
    } else if op == 0xe {
        "clt"
    } else {
        "cli"
    };
    String::from_str(text)
}

/// Rendering of the one-register family; an operation outside the table
/// falls back to a raw `.word` form.
pub open spec fn spec_display_one_reg_op(op: u16, rd: u8) -> Seq<char> {
    if op == 0x8 {
        spec_display_set_clear(rd)
    } else if op == 0x0 || op == 0x1 || op == 0x2 || op == 0x3 || op == 0x5 || op == 0x6 || op
        == 0x7 {
        let mnemonic = if op == 0x0 {
            "com"@
        } else if op == 0x1 {
            "neg"@
        } else if op == 0x2 {
            "swap"@
        } else if op == 0x3 {
            "inc"@
        } else if op == 0x5 {
            "asr"@
        } else if op == 0x6 {
            "lsr"@
        } else {
            "ror"@
        };
        mnemonic + "\tr"@ + spec_dec(rd as nat)
    } else {
        ".word\t0x"@ + spec_hex((0x9404 + (rd as nat) * 16) as nat)
    }
}

fn display_one_reg_op(op: u16, rd: u8) -> (r: String)
    requires
        rd < 32,
    ensures
        r@ == spec_display_one_reg_op(op, rd),
{
    if op == 0x8 {
        display_set_clear(rd)
    } else if op == 0x0 || op == 0x1 || op == 0x2 || op == 0x3 || op == 0x5 || op == 0x6 || op
        == 0x7 {
        let mnemonic = if op == 0x0 {
            "com"
        } else if op == 0x1 {
            "neg"
        } else if op == 0x2 {
            "swap"
        } else if op == 0x3 {
            "inc"
        } else if op == 0x5 {
            "asr"
        } else if op == 0x6 {
            "lsr"
        } else {
            "ror"
        };
        let mut s = String::from_str(mnemonic);
        s.append("\tr");
        s.append(dec_str(rd as u16).as_str());
        s
    } else {
        proof {
            assert((rd as u16) << 4 == rd * 16) by (bit_vector)
                requires
                    rd < 32,
            ;
        }
        let word = 0x9404 + ((rd as u16) << 4);
        let mut s = String::from_str(".word\t0x");
        s.append(hex_str(word).as_str());
        s
    }
}

/// Rendering of the operand-free family.
pub open spec fn spec_display_zero_reg_op(op: u8) -> Seq<char> {
    if op == 0x0 {
        "ret"@
    } else if op == 0x1 {
        "reti"@
    } else if op == 0x8 {
        "sleep"@
    } else if op == 0x9 {
        "break"@
    } else if op == 0xa {
        "wdr"@
    } else if op == 0xc {
        "lpm"@
    } else if op == 0xd {
        "elpm"@
    } else if op == 0xe {
        "spm"@
    } else if op == 0xf {
        "spm\tz+"@
    } else {
        ".word\t0x"@ + spec_hex(op as nat)
    }
}

fn display_zero_reg_op(op: u8) -> (r: String)
    ensures
        r@ == spec_display_zero_reg_op(op),
{
    if op == 0x0 {
        String::from_str("ret")
    } else if op == 0x1 {
        String::from_str("reti")
    } else if op == 0x8 {
        String::from_str("sleep")
    } else if op == 0x9 {
        String::from_str("break")
    } else if op == 0xa {
        String::from_str("wdr")
    } else if op == 0xc {
        String::from_str("lpm")
    } else if op == 0xd {
        String::from_str("elpm")
    } else if op == 0xe {
        String::from_str("spm")
    } else if op == 0xf {
        String::from_str("spm\tz+")
    } else {
        let mut s = String::from_str(".word\t0x");
        s.append(hex_str(op as u16).as_str());
        s
    }
}

/// Rendering of the register-with-constant family: the register number
/// is shown with the upper-half bias applied, the constant in uppercase
/// hexadecimal.
pub open spec fn spec_display_arith_costant(op: u16, rd: u8, constant: u8) -> Seq<char> {
    let mnemonic = if op == 0x3 {
        "cpi"@
    } else if op == 0x4 {
        "sbci"@
    } else if op == 0x5 {
        "subi"@
    } else if op == 0x6 {
        "ori"@
    } else if op == 0x7 {
        "andi"@
    } else if op == 0xE {
        "ldi"@
    } else if op == 0x96 {
        "adiw"@
    } else if op == 0x97 {
        "sbiw"@
    } else {
        ".word"@
    };
    mnemonic + "\tr"@ + spec_dec((rd + 16) as nat) + ", 0x"@ + spec_hex_pad2_upper(constant)
}

fn display_arith_costant(op: u16, rd: u8, constant: u8) -> (r: String)
    requires
        rd < 16,
    ensures
        r@ == spec_display_arith_costant(op, rd, constant),
{
    let mnemonic = if op == 0x3 {
        "cpi"
    } else if op == 0x4 {
        "sbci"
    } else if op == 0x5 {
        "subi"
    } else if op == 0x6 {
        "ori"
    } else if op == 0x7 {
        "andi"
    } else if op == 0xE {
        // ldi is technically a transfer instruction
        "ldi"
    } else if op == 0x96 {
        "adiw"
    } else if op == 0x97 {
        "sbiw"
    } else {
        ".word"
    };
    let real_rd = rd + 16;
    let mut s = String::from_str(mnemonic);
    s.append("\tr");
    s.append(dec_str(real_rd as u16).as_str());
    s.append(", 0x");
    s.append(hex_pad2_upper_str(constant).as_str());
    s
}

/// The branch mnemonic for a flag selector, by whether the branch fires
/// on a set or a cleared flag.
pub open spec fn spec_branch_mnemonic(op: u8, test_set: bool) -> Seq<char> {
    if test_set {
        if op == 0x0 {
            "brcs"@
        } else if op == 0x1 {
            "breq"@
        } else if op == 0x2 {
            "brmi"@
        } else if op == 0x3 {
            "brvs"@
        } else if op == 0x4 {
            "brlt"@
        } else if op == 0x5 {
            "brhs"@
        } else if op == 0x6 {
            "brts"@
        } else {
            "brie"@
        }
    } else {
        if op == 0x0 {
            "brcc"@
        } else if op == 0x1 {
            "brne"@
        } else if op == 0x2 {
            "brpl"@
        } else if op == 0x3 {
            "brvc"@
        } else if op == 0x4 {
            "brge"@
        } else if op == 0x5 {
            "brhc"@
        } else if op == 0x6 {
            "brtc"@
        } else {
            "brid"@
        }
    }
}

/// Rendering of a conditional branch: the byte offset with an explicit
/// sign.
pub open spec fn spec_display_branch(op: u8, test_set: bool, offset: i8) -> Seq<char> {
    spec_branch_mnemonic(op, test_set) + "\t."@ + spec_signed_dec(offset * 2)
}

fn display_branch(op: u8, test_set: bool, offset: i8) -> (r: String)
    ensures
        r@ == spec_display_branch(op, test_set, offset),
{
    let mnemonic = if test_set {
        if op == 0x0 {
            "brcs"
        } else if op == 0x1 {
            "breq"
        } else if op == 0x2 {
            "brmi"
        } else if op == 0x3 {
            "brvs"
        } else if op == 0x4 {
            "brlt"
        } else if op == 0x5 {
            "brhs"
        } else if op == 0x6 {
            "brts"
        } else {
            "brie"
        }
    } else {
        if op == 0x0 {
            "brcc"
        } else if op == 0x1 {
            "brne"
        } else if op == 0x2 {
            "brpl"
        } else if op == 0x3 {
            "brvc"
        } else if op == 0x4 {
            "brge"
        } else if op == 0x5 {
            "brhc"
        } else if op == 0x6 {
            "brtc"
        } else {
            "brid"
        }
    };
    let display_offset = (offset as i16) * 2;
    let mut s = String::from_str(mnemonic);
    s.append("\t.");
    s.append(signed_dec_str(display_offset).as_str());
    s
}

/// Rendering of a relative call or jump: the byte offset with an
/// explicit sign; an absolute form shows its raw address.
pub open spec fn spec_display_calljmp(is_call: bool, relative: bool, address: u16) -> Seq<char> {
    let op_str = if is_call {
        "call"@
    } else {
        "jmp"@
    };
    if relative {
        let offset: int = if address & 0x800 == 0 {
            (address & 0xFFF) as int
        } else {
            (address & 0xFFF) - 0x1000
        };
        "r"@ + op_str + "\t."@ + spec_signed_dec(offset * 2)
    } else {
        op_str + "\t, 0x"@ + spec_hex(address as nat)
    }
}

fn display_calljmp(is_call: bool, relative: bool, address: u16) -> (r: String)
    ensures
        r@ == spec_display_calljmp(is_call, relative, address),
{
    let op_str = if is_call {
        "call"
    } else {
        "jmp"
    };
    if relative {
        proof {
            crate::memory_bank::lemma_and_mask_le(address, 0xFFF);
        }
        let masked = address & 0xFFF;
        let offset: i16 = if address & 0x800 == 0 {
            masked as i16
        } else {
            (masked as i16) - 0x1000
        };
        let mut s = String::from_str("r");
        s.append(op_str);
        s.append("\t.");
        s.append(signed_dec_str(offset * 2).as_str());
        s
    } else {
        let mut s = String::from_str(op_str);
        s.append("\t, 0x");
        s.append(hex_str(address).as_str());
        s
    }
}

/// Rendering of a displacement load or store: `ld`/`st` with the bare
/// pointer when the displacement is zero, `ldd`/`std` with `+offset`
/// otherwise.
pub open spec fn spec_display_transfer_indirect(
    is_load: bool,
    pointer: PointerRegister,
    dest: u8,
    offset: u8,
) -> Seq<char> {
    let pointer_part = if offset == 0 {
        spec_pointer_name(pointer)
    } else {
        spec_pointer_name(pointer) + "+"@ + spec_dec(offset as nat)
    };
    let extra_d = if offset == 0 {
        ""@
    } else {
        "d"@
    };
    if is_load {
        "ld"@ + extra_d + "\tr"@ + spec_dec(dest as nat) + ", "@ + pointer_part
    } else {
        "st"@ + extra_d + "\t"@ + pointer_part + ", r"@ + spec_dec(dest as nat)
    }
}

fn display_transfer_indirect(
    is_load: bool,
    pointer: PointerRegister,
    dest: u8,
    offset: u8,
) -> (r: String)
    ensures
        r@ == spec_display_transfer_indirect(is_load, pointer, dest, offset),
{
    let mut pointer_part = String::from_str(pointer_name(pointer));
    if offset != 0 {
        pointer_part.append("+");
        pointer_part.append(dec_str(offset as u16).as_str());
    }
    let extra_d = if offset == 0 {
        ""
    } else {
        "d"
    };
    if is_load {
        let mut s = String::from_str("ld");
        s.append(extra_d);
        s.append("\tr");
        s.append(dec_str(dest as u16).as_str());
        s.append(", ");
        s.append(pointer_part.as_str());
        s
    } else {
        let mut s = String::from_str("st");
        s.append(extra_d);
        s.append("\t");
        s.append(pointer_part.as_str());
        s.append(", r");
        s.append(dec_str(dest as u16).as_str());
        s
    }
}

/// Rendering of a load or store with pointer adjustment: `P+` for
/// post-increment, `-P` for pre-decrement.
pub open spec fn spec_display_transfer_change_pointer(
    is_load: bool,
    pointer: PointerRegister,
    dest: u8,
    post_inc: bool,
) -> Seq<char> {
    let pointer_part = if post_inc {
        spec_pointer_name(pointer) + "+"@
    } else {
        "-"@ + spec_pointer_name(pointer)
    };
    if is_load {
        "ld\tr"@ + spec_dec(dest as nat) + ", "@ + pointer_part
    } else {
        "st\t"@ + pointer_part + ", r"@ + spec_dec(dest as nat)
    }
}

fn display_transfer_change_pointer(
    is_load: bool,
    pointer: PointerRegister,
    dest: u8,
    post_inc: bool,
) -> (r: String)
    ensures
        r@ == spec_display_transfer_change_pointer(is_load, pointer, dest, post_inc),
{
    let mut pointer_part = if post_inc {
        let mut p = String::from_str(pointer_name(pointer));
        p.append("+");
        p
    } else {
        let mut p = String::from_str("-");
        p.append(pointer_name(pointer));
        p
    };
    if is_load {
        let mut s = String::from_str("ld\tr");
        s.append(dec_str(dest as u16).as_str());
        s.append(", ");
        s.append(pointer_part.as_str());
        s
    } else {
        let mut s = String::from_str("st\t");
        s.append(pointer_part.as_str());
        s.append(", r");
        s.append(dec_str(dest as u16).as_str());
        s
    }
}

/// The assembly text of a decoded instruction: mnemonic and operands,
/// exactly as the debugger surface shows them.
pub open spec fn spec_render(i: Instruction) -> Seq<char> {
    match i {
        Instruction::Branch { op, test_set, offset } => spec_display_branch(op, test_set, offset),
        Instruction::BitManipOp { address, bit, set } => {
            let mnemonic = if set {
                "sbi"@
            } else {
                "cbi"@
            };
            mnemonic + "\t0x"@ + spec_hex_pad2(address) + ", "@ + spec_dec(bit as nat)
        },
        Instruction::CallJmp { is_call, relative, address } => spec_display_calljmp(
            is_call,
            relative,
            address,
        ),
        Instruction::InOut { is_in, reg, address } => {
            if is_in {
                "in\tr"@ + spec_dec(reg as nat) + ", 0x"@ + spec_hex_pad2(address)
            } else {
                "out\t0x"@ + spec_hex_pad2(address) + ", r"@ + spec_dec(reg as nat)
            }
        },
        Instruction::Nop => "nop"@,
        Instruction::OneRegOp { rd, op } => spec_display_one_reg_op(op as u16, rd),
        Instruction::PushPop { is_pop, reg } => {
            let op_str = if is_pop {
                "pop"@
            } else {
                "push"@
            };
            op_str + "\tr"@ + spec_dec(reg as nat)
        },
        Instruction::RegConstOp { op, rd, constant } => spec_display_arith_costant(
            op,
            rd,
            constant,
        ),
        Instruction::SkipOp { address, bit, set } => {
            let mnemonic = if set {
                "sbis"@
            } else {
                "sbic"@
            };
            mnemonic + "\t0x"@ + spec_hex_pad2(address) + ", "@ + spec_dec(bit as nat)
        },
        Instruction::TransferIndirect {
            is_load,
            pointer,
            dest,
            offset,
        } => spec_display_transfer_indirect(is_load, pointer, dest, offset),
        Instruction::TransferChangePointer {
            is_load,
            pointer,
            dest,
            post_inc,
        } => spec_display_transfer_change_pointer(is_load, pointer, dest, post_inc),
        Instruction::TwoRegOp { op, rd, rr } => spec_display_two_reg_op(op, rd, rr),
        Instruction::ZeroRegOp { op } => spec_display_zero_reg_op(op),
        Instruction::Unsupported { instruction } => ".word\t0x"@ + spec_hex_word(instruction),
    }
}

impl Instruction {
    /// Renders the instruction as assembly text: the mnemonic with its
    /// operands, hex immediates, and signed relative offsets.
    pub fn render(&self) -> (r: String)
        requires
            self.wf(),
        ensures
            r@ == spec_render(*self),
    {
        match *self {
            Instruction::Branch { op, test_set, offset } => display_branch(op, test_set, offset),
            Instruction::BitManipOp { address, bit, set } => {
                let mut s = String::from_str(
                    if set {
                        "sbi"
                    } else {
                        "cbi"
                    },
                );
                s.append("\t0x");
                s.append(hex_pad2_str(address).as_str());
                s.append(", ");
                s.append(dec_str(bit as u16).as_str());
                s
            },
            Instruction::CallJmp { is_call, relative, address } => display_calljmp(
                is_call,
                relative,
                address,
            ),
            Instruction::InOut { is_in, reg, address } => {
                if is_in {
                    let mut s = String::from_str("in\tr");
                    s.append(dec_str(reg as u16).as_str());
                    s.append(", 0x");
                    s.append(hex_pad2_str(address).as_str());
                    s
                } else {
                    let mut s = String::from_str("out\t0x");
                    s.append(hex_pad2_str(address).as_str());
                    s.append(", r");
                    s.append(dec_str(reg as u16).as_str());
                    s
                }
            },
            Instruction::Nop => String::from_str("nop"),
            Instruction::OneRegOp { rd, op } => display_one_reg_op(op as u16, rd),
            Instruction::PushPop { is_pop, reg } => {
                let mut s = String::from_str(
                    if is_pop {
                        "pop"
                    } else {
                        "push"
                    },
                );
                s.append("\tr");
                s.append(dec_str(reg as u16).as_str());
                s
            },
            Instruction::RegConstOp { op, rd, constant } => display_arith_costant(
                op,
                rd,
                constant,
            ),
            Instruction::SkipOp { address, bit, set } => {
                let mut s = String::from_str(
                    if set {
                        "sbis"
                    } else {
                        "sbic"
                    },
                );
                s.append("\t0x");
                s.append(hex_pad2_str(address).as_str());
                s.append(", ");
                s.append(dec_str(bit as u16).as_str());
                s
            },
            Instruction::TransferIndirect { is_load, pointer, dest, offset } => {
                display_transfer_indirect(is_load, pointer, dest, offset)
            },
            Instruction::TransferChangePointer { is_load, pointer, dest, post_inc } => {
                display_transfer_change_pointer(is_load, pointer, dest, post_inc)
            },
            Instruction::TwoRegOp { op, rd, rr } => display_two_reg_op(op, rd, rr),
            Instruction::ZeroRegOp { op } => display_zero_reg_op(op),
            Instruction::Unsupported { instruction } => {
                let mut s = String::from_str(".word\t0x");
                s.append(hex_word_str(instruction).as_str());
                s
            },
        }
    }
}

} // verus!

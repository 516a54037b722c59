//! The 32-bit encodings of the base integer instruction set.
//!
//! The six fixed fields of a word, the five immediate layouts, the closed
//! tables from function-select fields to operations, and the decoder that
//! puts them together.

use crate::bits::{bit_field, extract, sign_extend, sign_extend_field};
use crate::riscv::isa::{
    bare_form, branch_form, immediate_form, jump_form, load_form, register_form, store_form,
    unknown_instruction, upper_form, Decoded, Mnemonic, Xlen,
};
use vstd::arithmetic::power2::{lemma2_to64, lemma_pow2_strictly_increases, pow2};
use vstd::prelude::*;

verus! {

/// Bits 6..0: the major opcode.
pub open spec fn opcode(w: nat) -> nat {
    bit_field(w, 0, 7)
}

/// Bits 11..7: the destination register.
pub open spec fn rd(w: nat) -> nat {
    bit_field(w, 7, 5)
}

/// Bits 14..12: the minor function select.
pub open spec fn funct3(w: nat) -> nat {
    bit_field(w, 12, 3)
}

/// Bits 19..15: the first source register.
pub open spec fn rs1(w: nat) -> nat {
    bit_field(w, 15, 5)
}

/// Bits 24..20: the second source register.
pub open spec fn rs2(w: nat) -> nat {
    bit_field(w, 20, 5)
}

/// Bits 31..25: the major function select.
pub open spec fn funct7(w: nat) -> nat {
    bit_field(w, 25, 7)
}

/// The 12-bit signed immediate of the I layout: bits 31..20.
pub open spec fn imm_i(w: nat) -> int {
    sign_extend(bit_field(w, 20, 12), 12)
}

/// The 12-bit signed immediate of the S layout: bits 31..25 above bits
/// 11..7.
pub open spec fn imm_s(w: nat) -> int {
    sign_extend(bit_field(w, 25, 7) * 32 + bit_field(w, 7, 5), 12)
}

/// The 13-bit signed, even offset of the B layout: bit 31, bit 7, bits
/// 30..25, bits 11..8, and a zero.
pub open spec fn imm_b(w: nat) -> int {
    sign_extend(
        bit_field(w, 31, 1) * 4096 + bit_field(w, 7, 1) * 2048 + bit_field(w, 25, 6) * 32
            + bit_field(w, 8, 4) * 2,
        13,
    )
}

/// The 20-bit immediate of the U layout, as it is written in assembly:
/// bits 31..12, not shifted and not sign-extended.
pub open spec fn imm_u(w: nat) -> int {
    bit_field(w, 12, 20) as int
}

/// The 21-bit signed, even offset of the J layout: bit 31, bits 19..12,
/// bit 20, bits 30..21, and a zero.
pub open spec fn imm_j(w: nat) -> int {
    sign_extend(
        bit_field(w, 31, 1) * 1048576 + bit_field(w, 12, 8) * 4096 + bit_field(w, 20, 1) * 2048
            + bit_field(w, 21, 10) * 2,
        21,
    )
}

/// The conditional branches, by `funct3`.
pub open spec fn branch_mnemonic(funct3: nat) -> Option<Mnemonic> {
    if funct3 == 0 {
        Some(Mnemonic::Beq)
    } else if funct3 == 1 {
        Some(Mnemonic::Bne)
    } else if funct3 == 4 {
        Some(Mnemonic::Blt)
    } else if funct3 == 5 {
        Some(Mnemonic::Bge)
    } else if funct3 == 6 {
        Some(Mnemonic::Bltu)
    } else if funct3 == 7 {
        Some(Mnemonic::Bgeu)
    } else {
        None
    }
}

/// The loads, by `funct3`; `ld` and `lwu` exist with 64-bit registers only.
pub open spec fn load_mnemonic(funct3: nat, xlen: Xlen) -> Option<Mnemonic> {
    if funct3 == 0 {
        Some(Mnemonic::Lb)
    } else if funct3 == 1 {
        Some(Mnemonic::Lh)
    } else if funct3 == 2 {
        Some(Mnemonic::Lw)
    } else if funct3 == 4 {
        Some(Mnemonic::Lbu)
    } else if funct3 == 5 {
        Some(Mnemonic::Lhu)
    } else if funct3 == 3 && xlen == Xlen::Rv64 {
        Some(Mnemonic::Ld)
    } else if funct3 == 6 && xlen == Xlen::Rv64 {
        Some(Mnemonic::Lwu)
    } else {
        None
    }
}

/// The stores, by `funct3`; `sd` exists with 64-bit registers only.
pub open spec fn store_mnemonic(funct3: nat, xlen: Xlen) -> Option<Mnemonic> {
    if funct3 == 0 {
        Some(Mnemonic::Sb)
    } else if funct3 == 1 {
        Some(Mnemonic::Sh)
    } else if funct3 == 2 {
        Some(Mnemonic::Sw)
    } else if funct3 == 3 && xlen == Xlen::Rv64 {
        Some(Mnemonic::Sd)
    } else {
        None
    }
}

/// The operations on a register and a 12-bit immediate, by `funct3`; the
/// two values that select shifts are not in this table.
pub open spec fn immediate_mnemonic(funct3: nat) -> Option<Mnemonic> {
    if funct3 == 0 {
        Some(Mnemonic::Addi)
    } else if funct3 == 2 {
        Some(Mnemonic::Slti)
    } else if funct3 == 3 {
        Some(Mnemonic::Sltiu)
    } else if funct3 == 4 {
        Some(Mnemonic::Xori)
    } else if funct3 == 6 {
        Some(Mnemonic::Ori)
    } else if funct3 == 7 {
        Some(Mnemonic::Andi)
    } else {
        None
    }
}

/// The operations on two registers, by `funct7` and `funct3`.
pub open spec fn register_mnemonic(funct7: nat, funct3: nat) -> Option<Mnemonic> {
    if funct7 == 0 {
        if funct3 == 0 {
            Some(Mnemonic::Add)
        } else if funct3 == 1 {
            Some(Mnemonic::Sll)
        } else if funct3 == 2 {
            Some(Mnemonic::Slt)
        } else if funct3 == 3 {
            Some(Mnemonic::Sltu)
        } else if funct3 == 4 {
            Some(Mnemonic::Xor)
        } else if funct3 == 5 {
            Some(Mnemonic::Srl)
        } else if funct3 == 6 {
            Some(Mnemonic::Or)
        } else if funct3 == 7 {
            Some(Mnemonic::And)
        } else {
            None
        }
    } else if funct7 == 32 {
        if funct3 == 0 {
            Some(Mnemonic::Sub)
        } else if funct3 == 5 {
            Some(Mnemonic::Sra)
        } else {
            None
        }
    } else {
        None
    }
}

/// The 32-bit operations on two registers that exist with 64-bit registers,
/// by `funct7` and `funct3`.
pub open spec fn word_register_mnemonic(funct7: nat, funct3: nat) -> Option<Mnemonic> {
    if funct7 == 0 {
        if funct3 == 0 {
            Some(Mnemonic::Addw)
        } else if funct3 == 1 {
            Some(Mnemonic::Sllw)
        } else if funct3 == 5 {
            Some(Mnemonic::Srlw)
        } else {
            None
        }
    } else if funct7 == 32 {
        if funct3 == 0 {
            Some(Mnemonic::Subw)
        } else if funct3 == 5 {
            Some(Mnemonic::Sraw)
        } else {
            None
        }
    } else {
        None
    }
}

/// The shifts by a constant (`funct3` 1 and 5 of the register-immediate
/// opcode). With 32-bit registers the amount has five bits under a 7-bit
/// function select; with 64-bit registers it has six bits under a 6-bit
/// one. The select is zero for logical shifts and has its second-highest
/// bit set for the arithmetic right shift.
pub open spec fn shift_immediate(w: nat, xlen: Xlen) -> Decoded {
    let select = if xlen == Xlen::Rv32 {
        funct7(w)
    } else {
        bit_field(w, 26, 6)
    };
    let amount = if xlen == Xlen::Rv32 {
        bit_field(w, 20, 5)
    } else {
        bit_field(w, 20, 6)
    };
    let arithmetic: nat = if xlen == Xlen::Rv32 {
        32
    } else {
        16
    };
    if funct3(w) == 1 && select == 0 {
        immediate_form(Mnemonic::Slli, rd(w), rs1(w), amount as int)
    } else if funct3(w) == 5 && select == 0 {
        immediate_form(Mnemonic::Srli, rd(w), rs1(w), amount as int)
    } else if funct3(w) == 5 && select == arithmetic {
        immediate_form(Mnemonic::Srai, rd(w), rs1(w), amount as int)
    } else {
        unknown_instruction()
    }
}

/// The 32-bit operations on a register and an immediate that exist with
/// 64-bit registers: `addiw`, and the shifts of a word by a 5-bit amount.
pub open spec fn word_immediate(w: nat) -> Decoded {
    if funct3(w) == 0 {
        immediate_form(Mnemonic::Addiw, rd(w), rs1(w), imm_i(w))
    } else if funct3(w) == 1 && funct7(w) == 0 {
        immediate_form(Mnemonic::Slliw, rd(w), rs1(w), rs2(w) as int)
    } else if funct3(w) == 5 && funct7(w) == 0 {
        immediate_form(Mnemonic::Srliw, rd(w), rs1(w), rs2(w) as int)
    } else if funct3(w) == 5 && funct7(w) == 32 {
        immediate_form(Mnemonic::Sraiw, rd(w), rs1(w), rs2(w) as int)
    } else {
        unknown_instruction()
    }
}

/// What the 32-bit word `w` decodes to. The major opcode selects the
/// layout, the function-select fields the operation; an opcode or a
/// function select outside the tables gives the unknown instruction.
pub open spec fn decode_word_spec(w: nat, xlen: Xlen) -> Decoded {
    let op = opcode(w);
    if op == 0x37 {
        upper_form(Mnemonic::Lui, rd(w), imm_u(w))
    } else if op == 0x17 {
        upper_form(Mnemonic::Auipc, rd(w), imm_u(w))
    } else if op == 0x6f {
        jump_form(Mnemonic::Jal, rd(w), imm_j(w))
    } else if op == 0x67 {
        if funct3(w) == 0 {
            load_form(Mnemonic::Jalr, rd(w), rs1(w), imm_i(w))
        } else {
            unknown_instruction()
        }
    } else if op == 0x63 {
        match branch_mnemonic(funct3(w)) {
            Some(m) => branch_form(m, rs1(w), rs2(w), imm_b(w)),
            None => unknown_instruction(),
        }
    } else if op == 0x03 {
        match load_mnemonic(funct3(w), xlen) {
            Some(m) => load_form(m, rd(w), rs1(w), imm_i(w)),
            None => unknown_instruction(),
        }
    } else if op == 0x23 {
        match store_mnemonic(funct3(w), xlen) {
            Some(m) => store_form(m, rs1(w), rs2(w), imm_s(w)),
            None => unknown_instruction(),
        }
    } else if op == 0x13 {
        match immediate_mnemonic(funct3(w)) {
            Some(m) => immediate_form(m, rd(w), rs1(w), imm_i(w)),
            None => shift_immediate(w, xlen),
        }
    } else if op == 0x33 {
        match register_mnemonic(funct7(w), funct3(w)) {
            Some(m) => register_form(m, rd(w), rs1(w), rs2(w)),
            None => unknown_instruction(),
        }
    } else if op == 0x1b && xlen == Xlen::Rv64 {
        word_immediate(w)
    } else if op == 0x3b && xlen == Xlen::Rv64 {
        match word_register_mnemonic(funct7(w), funct3(w)) {
            Some(m) => register_form(m, rd(w), rs1(w), rs2(w)),
            None => unknown_instruction(),
        }
    } else if op == 0x0f {
        if funct3(w) == 0 {
            bare_form(Mnemonic::Fence)
        } else {
            unknown_instruction()
        }
    } else if op == 0x73 {
        if w == 0x73 {
            bare_form(Mnemonic::Ecall)
        } else if w == 0x100073 {
            bare_form(Mnemonic::Ebreak)
        } else {
            unknown_instruction()
        }
    } else {
        unknown_instruction()
    }
}

/// The immediates of a 32-bit word are two's-complement numbers whose sign
/// bit is bit 31 of the word: each is negative exactly when that bit is
/// set, lies in the range of its width, and the two offsets are even.
pub proof fn lemma_immediates_are_signed(w: nat)
    requires
        w < 0x1_0000_0000,
    ensures
        imm_i(w) < 0 <==> bit_field(w, 31, 1) == 1,
        imm_s(w) < 0 <==> bit_field(w, 31, 1) == 1,
        imm_b(w) < 0 <==> bit_field(w, 31, 1) == 1,
        imm_j(w) < 0 <==> bit_field(w, 31, 1) == 1,
        -2048 <= imm_i(w) < 2048,
        -2048 <= imm_s(w) < 2048,
        -4096 <= imm_b(w) < 4096,
        -1048576 <= imm_j(w) < 1048576,
        0 <= imm_u(w) < 1048576,
        imm_b(w) % 2 == 0,
        imm_j(w) % 2 == 0,
{
    lemma2_to64();
}

/// How the fields of a shift by a constant lie in each other: the 7-bit
/// function select is the 6-bit one above bit 25, and the 6-bit amount is
/// bit 25 above the 5-bit one.
pub proof fn lemma_shift_fields(w: nat)
    requires
        w < 0x1_0000_0000,
    ensures
        funct7(w) == 2 * bit_field(w, 26, 6) + bit_field(w, 25, 1),
        bit_field(w, 20, 6) == bit_field(w, 20, 5) + 32 * bit_field(w, 25, 1),
{
    lemma2_to64();
    let a = w / 0x200_0000;
    let b = w / 0x10_0000;
    assert(w / 0x400_0000 == a / 2);
    assert(b / 32 == a);
    assert(a < 128);
    assert(b % 64 == b % 32 + 32 * ((b / 32) % 2));
}

/// A shift by a constant that is known with 32-bit registers is the same
/// shift with 64-bit registers.
pub proof fn lemma_wide_shift_extends_narrow(w: nat)
    requires
        w < 0x1_0000_0000,
    ensures
        shift_immediate(w, Xlen::Rv32).mnemonic != Mnemonic::Unknown ==> shift_immediate(
            w,
            Xlen::Rv64,
        ) == shift_immediate(w, Xlen::Rv32),
{
    lemma_shift_fields(w);
    lemma2_to64();
    let bit25 = bit_field(w, 25, 1);
    let select = bit_field(w, 26, 6);
    if funct7(w) == 0 {
        assert(bit25 == 0 && select == 0);
    } else if funct7(w) == 32 {
        assert(bit25 == 0 && select == 16);
    }
}

/// The wider registers keep every meaning of the narrower ones: a 32-bit
/// word that decodes to a known instruction with 32-bit registers decodes
/// to the same instruction with 64-bit registers.
pub proof fn lemma_wide_extends_narrow(w: nat)
    requires
        w < 0x1_0000_0000,
    ensures
        decode_word_spec(w, Xlen::Rv32).mnemonic != Mnemonic::Unknown ==> decode_word_spec(
            w,
            Xlen::Rv64,
        ) == decode_word_spec(w, Xlen::Rv32),
{
    lemma_wide_shift_extends_narrow(w);
}

/// Reads a field of at most seven bits.
pub fn small_field(word: u32, lo: u32, width: u32) -> (field: u8)
    requires
        1 <= width <= 7,
        lo + width <= 32,
    ensures
        field == bit_field(word as nat, lo as nat, width as nat),
        field < pow2(width as nat),
{
    proof {
        lemma2_to64();
        lemma_pow2_strictly_increases(width as nat, 8);
    }
    extract(word, lo, width) as u8
}

/// Reads the immediate of the I layout.
pub fn read_imm_i(word: u32) -> (imm: i32)
    ensures
        imm == imm_i(word as nat),
        -2048 <= imm < 2048,
{
    proof {
        lemma2_to64();
    }
    sign_extend_field(extract(word, 20, 12), 12)
}

/// Reads the immediate of the S layout.
pub fn read_imm_s(word: u32) -> (imm: i32)
    ensures
        imm == imm_s(word as nat),
        -2048 <= imm < 2048,
{
    proof {
        lemma2_to64();
    }
    let high = extract(word, 25, 7);
    let low = extract(word, 7, 5);
    sign_extend_field(high * 32 + low, 12)
}

/// Reads the offset of the B layout.
pub fn read_imm_b(word: u32) -> (imm: i32)
    ensures
        imm == imm_b(word as nat),
        -4096 <= imm < 4096,
{
    proof {
        lemma2_to64();
    }
    let sign = extract(word, 31, 1);
    let bit11 = extract(word, 7, 1);
    let high = extract(word, 25, 6);
    let low = extract(word, 8, 4);
    sign_extend_field(sign * 4096 + bit11 * 2048 + high * 32 + low * 2, 13)
}

/// Reads the immediate of the U layout.
pub fn read_imm_u(word: u32) -> (imm: i32)
    ensures
        imm == imm_u(word as nat),
        0 <= imm < 1048576,
{
    proof {
        lemma2_to64();
    }
    extract(word, 12, 20) as i32
}

/// Reads the offset of the J layout.
pub fn read_imm_j(word: u32) -> (imm: i32)
    ensures
        imm == imm_j(word as nat),
        -1048576 <= imm < 1048576,
{
    proof {
        lemma2_to64();
    }
    let sign = extract(word, 31, 1);
    let high = extract(word, 12, 8);
    let bit11 = extract(word, 20, 1);
    let low = extract(word, 21, 10);
    sign_extend_field(sign * 1048576 + high * 4096 + bit11 * 2048 + low * 2, 21)
}

/// Looks up a conditional branch.
pub fn lookup_branch(funct3: u8) -> (m: Option<Mnemonic>)
    ensures
        m == branch_mnemonic(funct3 as nat),
{
    match funct3 {
        0 => Some(Mnemonic::Beq),
        1 => Some(Mnemonic::Bne),
        4 => Some(Mnemonic::Blt),
        5 => Some(Mnemonic::Bge),
        6 => Some(Mnemonic::Bltu),
        7 => Some(Mnemonic::Bgeu),
        _ => None,
    }
}

/// Looks up a load.
pub fn lookup_load(funct3: u8, xlen: Xlen) -> (m: Option<Mnemonic>)
    ensures
        m == load_mnemonic(funct3 as nat, xlen),
{
    match (funct3, xlen) {
        (0, _) => Some(Mnemonic::Lb),
        (1, _) => Some(Mnemonic::Lh),
        (2, _) => Some(Mnemonic::Lw),
        (4, _) => Some(Mnemonic::Lbu),
        (5, _) => Some(Mnemonic::Lhu),
        (3, Xlen::Rv64) => Some(Mnemonic::Ld),
        (6, Xlen::Rv64) => Some(Mnemonic::Lwu),
        _ => None,
    }
}

/// Looks up a store.
pub fn lookup_store(funct3: u8, xlen: Xlen) -> (m: Option<Mnemonic>)
    ensures
        m == store_mnemonic(funct3 as nat, xlen),
{
    match (funct3, xlen) {
        (0, _) => Some(Mnemonic::Sb),
        (1, _) => Some(Mnemonic::Sh),
        (2, _) => Some(Mnemonic::Sw),
        (3, Xlen::Rv64) => Some(Mnemonic::Sd),
        _ => None,
    }
}

/// Looks up an operation on a register and an immediate.
pub fn lookup_immediate(funct3: u8) -> (m: Option<Mnemonic>)
    ensures
        m == immediate_mnemonic(funct3 as nat),
{
    match funct3 {
        0 => Some(Mnemonic::Addi),
        2 => Some(Mnemonic::Slti),
        3 => Some(Mnemonic::Sltiu),
        4 => Some(Mnemonic::Xori),
        6 => Some(Mnemonic::Ori),
        7 => Some(Mnemonic::Andi),
        _ => None,
    }
}

/// Looks up an operation on two registers.
pub fn lookup_register(funct7: u8, funct3: u8) -> (m: Option<Mnemonic>)
    ensures
        m == register_mnemonic(funct7 as nat, funct3 as nat),
{
    match (funct7, funct3) {
        (0, 0) => Some(Mnemonic::Add),
        (0, 1) => Some(Mnemonic::Sll),
        (0, 2) => Some(Mnemonic::Slt),
        (0, 3) => Some(Mnemonic::Sltu),
        (0, 4) => Some(Mnemonic::Xor),
        (0, 5) => Some(Mnemonic::Srl),
        (0, 6) => Some(Mnemonic::Or),
        (0, 7) => Some(Mnemonic::And),
        (32, 0) => Some(Mnemonic::Sub),
        (32, 5) => Some(Mnemonic::Sra),
        _ => None,
    }
}

/// Looks up a 32-bit operation on two registers.
pub fn lookup_word_register(funct7: u8, funct3: u8) -> (m: Option<Mnemonic>)
    ensures
        m == word_register_mnemonic(funct7 as nat, funct3 as nat),
{
    match (funct7, funct3) {
        (0, 0) => Some(Mnemonic::Addw),
        (0, 1) => Some(Mnemonic::Sllw),
        (0, 5) => Some(Mnemonic::Srlw),
        (32, 0) => Some(Mnemonic::Subw),
        (32, 5) => Some(Mnemonic::Sraw),
        _ => None,
    }
}

/// Decodes a shift by a constant.
pub fn decode_shift_immediate(word: u32, xlen: Xlen) -> (d: Decoded)
    ensures
        d == shift_immediate(word as nat, xlen),
        d.wf(),
{
    proof {
        lemma2_to64();
    }
    let rd = small_field(word, 7, 5);
    let rs1 = small_field(word, 15, 5);
    let funct3 = small_field(word, 12, 3);
    let (select, amount, arithmetic) = match xlen {
        Xlen::Rv32 => (small_field(word, 25, 7), small_field(word, 20, 5), 32u8),
        Xlen::Rv64 => (small_field(word, 26, 6), small_field(word, 20, 6), 16u8),
    };
    let mnemonic = if funct3 == 1 && select == 0 {
        Mnemonic::Slli
    } else if funct3 == 5 && select == 0 {
        Mnemonic::Srli
    } else if funct3 == 5 && select == arithmetic {
        Mnemonic::Srai
    } else {
        return Decoded::unknown();
    };
    Decoded::immediate(mnemonic, rd, rs1, amount as i32)
}

/// Decodes a 32-bit operation on a register and an immediate.
pub fn decode_word_immediate(word: u32) -> (d: Decoded)
    ensures
        d == word_immediate(word as nat),
        d.wf(),
{
    proof {
        lemma2_to64();
    }
    let rd = small_field(word, 7, 5);
    let rs1 = small_field(word, 15, 5);
    let funct3 = small_field(word, 12, 3);
    let funct7 = small_field(word, 25, 7);
    let amount = small_field(word, 20, 5);
    if funct3 == 0 {
        let imm = read_imm_i(word);
        Decoded::immediate(Mnemonic::Addiw, rd, rs1, imm)
    } else {
        let mnemonic = if funct3 == 1 && funct7 == 0 {
            Mnemonic::Slliw
        } else if funct3 == 5 && funct7 == 0 {
            Mnemonic::Srliw
        } else if funct3 == 5 && funct7 == 32 {
            Mnemonic::Sraiw
        } else {
            return Decoded::unknown();
        };
        Decoded::immediate(mnemonic, rd, rs1, amount as i32)
    }
}

/// Decodes one 32-bit instruction word.
pub fn decode_word(word: u32, xlen: Xlen) -> (d: Decoded)
    ensures
        d == decode_word_spec(word as nat, xlen),
        d.wf(),
{
    proof {
        lemma2_to64();
    }
    let op = small_field(word, 0, 7);
    let rd = small_field(word, 7, 5);
    let funct3 = small_field(word, 12, 3);
    let rs1 = small_field(word, 15, 5);
    let rs2 = small_field(word, 20, 5);
    let funct7 = small_field(word, 25, 7);
    if op == 0x37 {
        let imm = read_imm_u(word);
        Decoded::upper(Mnemonic::Lui, rd, imm)
    } else if op == 0x17 {
        let imm = read_imm_u(word);
        Decoded::upper(Mnemonic::Auipc, rd, imm)
    } else if op == 0x6f {
        let imm = read_imm_j(word);
        Decoded::jump(Mnemonic::Jal, rd, imm)
    } else if op == 0x67 {
        if funct3 == 0 {
            let imm = read_imm_i(word);
            Decoded::load(Mnemonic::Jalr, rd, rs1, imm)
        } else {
            Decoded::unknown()
        }
    } else if op == 0x63 {
        match lookup_branch(funct3) {
            Some(mnemonic) => {
                let imm = read_imm_b(word);
                Decoded::branch(mnemonic, rs1, rs2, imm)
            },
            None => Decoded::unknown(),
        }
    } else if op == 0x03 {
        match lookup_load(funct3, xlen) {
            Some(mnemonic) => {
                let imm = read_imm_i(word);
                Decoded::load(mnemonic, rd, rs1, imm)
            },
            None => Decoded::unknown(),
        }
    } else if op == 0x23 {
        match lookup_store(funct3, xlen) {
            Some(mnemonic) => {
                let imm = read_imm_s(word);
                Decoded::store(mnemonic, rs1, rs2, imm)
            },
            None => Decoded::unknown(),
        }
    } else if op == 0x13 {
        match lookup_immediate(funct3) {
            Some(mnemonic) => {
                let imm = read_imm_i(word);
                Decoded::immediate(mnemonic, rd, rs1, imm)
            },
            None => decode_shift_immediate(word, xlen),
        }
    } else if op == 0x33 {
        match lookup_register(funct7, funct3) {
            Some(mnemonic) => Decoded::register(mnemonic, rd, rs1, rs2),
            None => Decoded::unknown(),
        }
    } else if op == 0x1b && xlen == Xlen::Rv64 {
        decode_word_immediate(word)
    } else if op == 0x3b && xlen == Xlen::Rv64 {
        match lookup_word_register(funct7, funct3) {
            Some(mnemonic) => Decoded::register(mnemonic, rd, rs1, rs2),
            None => Decoded::unknown(),
        }
    } else if op == 0x0f {
        if funct3 == 0 {
            Decoded::bare(Mnemonic::Fence)
        } else {
            Decoded::unknown()
        }
    } else if op == 0x73 {
        if word == 0x73 {
            Decoded::bare(Mnemonic::Ecall)
        } else if word == 0x100073 {
            Decoded::bare(Mnemonic::Ebreak)
        } else {
            Decoded::unknown()
        }
    } else {
        Decoded::unknown()
    }
}

} // verus!

//! The 16-bit encodings.
//!
//! Every compressed instruction stands for one instruction of the base set
//! and decodes to it: `c.addi16sp` to an `addi` on the stack pointer,
//! `c.mv` to an `add` with the zero register, and so on. The three-bit
//! register fields name the registers 8 to 15.

use crate::bits::{bit_field, extract, sign_extend, sign_extend_field};
use crate::riscv::isa::{
    bare_form, branch_form, immediate_form, jump_form, load_form, register_form, store_form,
    unknown_instruction, upper_form, Decoded, Mnemonic, Xlen,
};
use vstd::arithmetic::power2::{lemma2_to64, pow2};
use vstd::prelude::*;

verus! {

/// Bits 1..0: the quadrant; 3 marks a 32-bit instruction.
pub open spec fn quadrant(h: nat) -> nat {
    bit_field(h, 0, 2)
}

/// Bits 15..13: the function select.
pub open spec fn c_funct3(h: nat) -> nat {
    bit_field(h, 13, 3)
}

/// Bits 11..7: a full register field (`rd` or `rs1`).
pub open spec fn c_rd(h: nat) -> nat {
    bit_field(h, 7, 5)
}

/// Bits 6..2: a full register field (`rs2`).
pub open spec fn c_rs2(h: nat) -> nat {
    bit_field(h, 2, 5)
}

/// Bits 9..7: a short register field (`rs1'` or `rd'`), for registers 8
/// to 15.
pub open spec fn c_rs1_short(h: nat) -> nat {
    bit_field(h, 7, 3) + 8
}

/// Bits 4..2: a short register field (`rd'` or `rs2'`), for registers 8
/// to 15.
pub open spec fn c_rd_short(h: nat) -> nat {
    bit_field(h, 2, 3) + 8
}

/// Bit 12 above bits 6..2, unsigned: a shift amount.
pub open spec fn c_uimm6(h: nat) -> nat {
    bit_field(h, 12, 1) * 32 + bit_field(h, 2, 5)
}

/// Bit 12 above bits 6..2 as a 6-bit signed immediate.
pub open spec fn c_imm6(h: nat) -> int {
    sign_extend(c_uimm6(h), 6)
}

/// The 6-bit signed immediate as the 20-bit field of a `lui`.
pub open spec fn c_lui_imm(h: nat) -> int {
    if c_imm6(h) < 0 {
        1048576 + c_imm6(h)
    } else {
        c_imm6(h)
    }
}

/// The unsigned offset of `c.addi4spn`, a multiple of 4 below 1024.
pub open spec fn c_addi4spn_imm(h: nat) -> nat {
    bit_field(h, 7, 4) * 64 + bit_field(h, 11, 2) * 16 + bit_field(h, 5, 1) * 8
        + bit_field(h, 6, 1) * 4
}

/// The unsigned offset of `c.lw` and `c.sw`, a multiple of 4 below 128.
pub open spec fn c_word_offset(h: nat) -> nat {
    bit_field(h, 5, 1) * 64 + bit_field(h, 10, 3) * 8 + bit_field(h, 6, 1) * 4
}

/// The unsigned offset of `c.ld` and `c.sd`, a multiple of 8 below 256.
pub open spec fn c_double_offset(h: nat) -> nat {
    bit_field(h, 5, 2) * 64 + bit_field(h, 10, 3) * 8
}

/// The 12-bit signed, even offset of `c.j` and `c.jal`.
pub open spec fn c_jump_offset(h: nat) -> int {
    sign_extend(
        bit_field(h, 12, 1) * 2048 + bit_field(h, 8, 1) * 1024 + bit_field(h, 9, 2) * 256
            + bit_field(h, 6, 1) * 128 + bit_field(h, 7, 1) * 64 + bit_field(h, 2, 1) * 32
            + bit_field(h, 11, 1) * 16 + bit_field(h, 3, 3) * 2,
        12,
    )
}

/// The 9-bit signed, even offset of `c.beqz` and `c.bnez`.
pub open spec fn c_branch_offset(h: nat) -> int {
    sign_extend(
        bit_field(h, 12, 1) * 256 + bit_field(h, 5, 2) * 64 + bit_field(h, 2, 1) * 32
            + bit_field(h, 10, 2) * 8 + bit_field(h, 3, 2) * 2,
        9,
    )
}

/// The 10-bit signed immediate of `c.addi16sp`, a multiple of 16.
pub open spec fn c_addi16sp_imm(h: nat) -> int {
    sign_extend(
        bit_field(h, 12, 1) * 512 + bit_field(h, 3, 2) * 128 + bit_field(h, 5, 1) * 64
            + bit_field(h, 2, 1) * 32 + bit_field(h, 6, 1) * 16,
        10,
    )
}

/// The unsigned offset of `c.lwsp`, a multiple of 4 below 256.
pub open spec fn c_lwsp_offset(h: nat) -> nat {
    bit_field(h, 2, 2) * 64 + bit_field(h, 12, 1) * 32 + bit_field(h, 4, 3) * 4
}

/// The unsigned offset of `c.ldsp`, a multiple of 8 below 512.
pub open spec fn c_ldsp_offset(h: nat) -> nat {
    bit_field(h, 2, 3) * 64 + bit_field(h, 12, 1) * 32 + bit_field(h, 5, 2) * 8
}

/// The unsigned offset of `c.swsp`, a multiple of 4 below 256.
pub open spec fn c_swsp_offset(h: nat) -> nat {
    bit_field(h, 7, 2) * 64 + bit_field(h, 9, 4) * 4
}

/// The unsigned offset of `c.sdsp`, a multiple of 8 below 512.
pub open spec fn c_sdsp_offset(h: nat) -> nat {
    bit_field(h, 7, 3) * 64 + bit_field(h, 10, 3) * 8
}

/// Quadrant 0: `c.addi4spn`, and loads and stores through a short
/// register.
pub open spec fn decode_quadrant0(h: nat, xlen: Xlen) -> Decoded {
    let f = c_funct3(h);
    if f == 0 {
        if c_addi4spn_imm(h) == 0 {
            unknown_instruction()
        } else {
            immediate_form(Mnemonic::Addi, c_rd_short(h), 2, c_addi4spn_imm(h) as int)
        }
    } else if f == 2 {
        load_form(Mnemonic::Lw, c_rd_short(h), c_rs1_short(h), c_word_offset(h) as int)
    } else if f == 3 && xlen == Xlen::Rv64 {
        load_form(Mnemonic::Ld, c_rd_short(h), c_rs1_short(h), c_double_offset(h) as int)
    } else if f == 6 {
        store_form(Mnemonic::Sw, c_rs1_short(h), c_rd_short(h), c_word_offset(h) as int)
    } else if f == 7 && xlen == Xlen::Rv64 {
        store_form(Mnemonic::Sd, c_rs1_short(h), c_rd_short(h), c_double_offset(h) as int)
    } else {
        unknown_instruction()
    }
}

/// The register-register operations of quadrant 1, by bit 12 and bits
/// 6..5; the 32-bit ones exist with 64-bit registers only.
pub open spec fn c_arithmetic_mnemonic(wide: nat, select: nat, xlen: Xlen) -> Option<Mnemonic> {
    if wide == 0 {
        if select == 0 {
            Some(Mnemonic::Sub)
        } else if select == 1 {
            Some(Mnemonic::Xor)
        } else if select == 2 {
            Some(Mnemonic::Or)
        } else if select == 3 {
            Some(Mnemonic::And)
        } else {
            None
        }
    } else if xlen == Xlen::Rv64 && select == 0 {
        Some(Mnemonic::Subw)
    } else if xlen == Xlen::Rv64 && select == 1 {
        Some(Mnemonic::Addw)
    } else {
        None
    }
}

/// Function select 4 of quadrant 1: shifts, `c.andi` and the
/// register-register operations, all on a short register. A shift amount
/// of 32 or more is reserved with 32-bit registers.
pub open spec fn decode_c_arithmetic(h: nat, xlen: Xlen) -> Decoded {
    let kind = bit_field(h, 10, 2);
    let r = c_rs1_short(h);
    if kind == 0 || kind == 1 {
        if xlen == Xlen::Rv32 && bit_field(h, 12, 1) == 1 {
            unknown_instruction()
        } else if kind == 0 {
            immediate_form(Mnemonic::Srli, r, r, c_uimm6(h) as int)
        } else {
            immediate_form(Mnemonic::Srai, r, r, c_uimm6(h) as int)
        }
    } else if kind == 2 {
        immediate_form(Mnemonic::Andi, r, r, c_imm6(h))
    } else {
        match c_arithmetic_mnemonic(bit_field(h, 12, 1), bit_field(h, 5, 2), xlen) {
            Some(m) => register_form(m, r, r, c_rd_short(h)),
            None => unknown_instruction(),
        }
    }
}

/// Quadrant 1: operations with a 6-bit immediate, jumps and branches.
/// Function select 1 is `c.jal` with 32-bit registers and `c.addiw` with
/// 64-bit ones.
pub open spec fn decode_quadrant1(h: nat, xlen: Xlen) -> Decoded {
    let f = c_funct3(h);
    let r = c_rd(h);
    if f == 0 {
        immediate_form(Mnemonic::Addi, r, r, c_imm6(h))
    } else if f == 1 {
        if xlen == Xlen::Rv32 {
            jump_form(Mnemonic::Jal, 1, c_jump_offset(h))
        } else if r != 0 {
            immediate_form(Mnemonic::Addiw, r, r, c_imm6(h))
        } else {
            unknown_instruction()
        }
    } else if f == 2 {
        immediate_form(Mnemonic::Addi, r, 0, c_imm6(h))
    } else if f == 3 {
        if c_uimm6(h) == 0 {
            unknown_instruction()
        } else if r == 2 {
            immediate_form(Mnemonic::Addi, 2, 2, c_addi16sp_imm(h))
        } else {
            upper_form(Mnemonic::Lui, r, c_lui_imm(h))
        }
    } else if f == 4 {
        decode_c_arithmetic(h, xlen)
    } else if f == 5 {
        jump_form(Mnemonic::Jal, 0, c_jump_offset(h))
    } else if f == 6 {
        branch_form(Mnemonic::Beq, c_rs1_short(h), 0, c_branch_offset(h))
    } else {
        branch_form(Mnemonic::Bne, c_rs1_short(h), 0, c_branch_offset(h))
    }
}

/// Function select 4 of quadrant 2: `c.jr`, `c.mv`, `c.ebreak`, `c.jalr`
/// and `c.add`, told apart by bit 12 and by which register fields are
/// zero.
pub open spec fn decode_c_register(h: nat) -> Decoded {
    let r = c_rd(h);
    let s = c_rs2(h);
    if bit_field(h, 12, 1) == 0 {
        if s != 0 {
            register_form(Mnemonic::Add, r, 0, s)
        } else if r != 0 {
            load_form(Mnemonic::Jalr, 0, r, 0)
        } else {
            unknown_instruction()
        }
    } else {
        if s != 0 {
            register_form(Mnemonic::Add, r, r, s)
        } else if r != 0 {
            load_form(Mnemonic::Jalr, 1, r, 0)
        } else {
            bare_form(Mnemonic::Ebreak)
        }
    }
}

/// Quadrant 2: `c.slli`, loads and stores relative to the stack pointer,
/// and the register operations.
pub open spec fn decode_quadrant2(h: nat, xlen: Xlen) -> Decoded {
    let f = c_funct3(h);
    let r = c_rd(h);
    if f == 0 {
        if xlen == Xlen::Rv32 && bit_field(h, 12, 1) == 1 {
            unknown_instruction()
        } else {
            immediate_form(Mnemonic::Slli, r, r, c_uimm6(h) as int)
        }
    } else if f == 2 {
        if r == 0 {
            unknown_instruction()
        } else {
            load_form(Mnemonic::Lw, r, 2, c_lwsp_offset(h) as int)
        }
    } else if f == 3 && xlen == Xlen::Rv64 {
        if r == 0 {
            unknown_instruction()
        } else {
            load_form(Mnemonic::Ld, r, 2, c_ldsp_offset(h) as int)
        }
    } else if f == 4 {
        decode_c_register(h)
    } else if f == 6 {
        store_form(Mnemonic::Sw, 2, c_rs2(h), c_swsp_offset(h) as int)
    } else if f == 7 && xlen == Xlen::Rv64 {
        store_form(Mnemonic::Sd, 2, c_rs2(h), c_sdsp_offset(h) as int)
    } else {
        unknown_instruction()
    }
}

/// What the 16-bit halfword `h` decodes to. The halfword of all zeros is
/// not an instruction, nor is any other pattern outside the tables.
pub open spec fn decode_half_spec(h: nat, xlen: Xlen) -> Decoded {
    let q = quadrant(h);
    if q == 0 {
        decode_quadrant0(h, xlen)
    } else if q == 1 {
        decode_quadrant1(h, xlen)
    } else if q == 2 {
        decode_quadrant2(h, xlen)
    } else {
        unknown_instruction()
    }
}

/// The signed immediates of a halfword are two's-complement numbers whose
/// sign bit is bit 12 of the halfword: each is negative exactly when that
/// bit is set and lies in the range of its width; the offsets are even,
/// and the stack adjustment is a multiple of 16.
pub proof fn lemma_compressed_immediates_are_signed(h: nat)
    requires
        h < 0x1_0000,
    ensures
        c_imm6(h) < 0 <==> bit_field(h, 12, 1) == 1,
        c_jump_offset(h) < 0 <==> bit_field(h, 12, 1) == 1,
        c_branch_offset(h) < 0 <==> bit_field(h, 12, 1) == 1,
        c_addi16sp_imm(h) < 0 <==> bit_field(h, 12, 1) == 1,
        -32 <= c_imm6(h) < 32,
        -2048 <= c_jump_offset(h) < 2048,
        -256 <= c_branch_offset(h) < 256,
        -512 <= c_addi16sp_imm(h) < 512,
        0 <= c_lui_imm(h) < 1048576,
        c_jump_offset(h) % 2 == 0,
        c_branch_offset(h) % 2 == 0,
        c_addi16sp_imm(h) % 16 == 0,
{
    lemma2_to64();
}

/// Reads a field of a halfword.
pub fn half_field(half: u16, lo: u32, width: u32) -> (field: u32)
    requires
        1 <= width <= 5,
        lo + width <= 16,
    ensures
        field == bit_field(half as nat, lo as nat, width as nat),
        field < pow2(width as nat),
        field < 32,
{
    proof {
        lemma2_to64();
        vstd::arithmetic::power2::lemma_pow2_strictly_increases(width as nat, 6);
    }
    extract(half as u32, lo, width)
}

/// Reads the 6-bit signed immediate.
pub fn read_c_imm6(half: u16) -> (imm: i32)
    ensures
        imm == c_imm6(half as nat),
        -32 <= imm < 32,
{
    proof {
        lemma2_to64();
    }
    sign_extend_field(half_field(half, 12, 1) * 32 + half_field(half, 2, 5), 6)
}

/// Reads the 6-bit unsigned immediate.
pub fn read_c_uimm6(half: u16) -> (imm: i32)
    ensures
        imm == c_uimm6(half as nat),
        0 <= imm < 64,
{
    proof {
        lemma2_to64();
    }
    (half_field(half, 12, 1) * 32 + half_field(half, 2, 5)) as i32
}

/// Reads the offset of `c.j` and `c.jal`.
pub fn read_c_jump_offset(half: u16) -> (imm: i32)
    ensures
        imm == c_jump_offset(half as nat),
        -2048 <= imm < 2048,
{
    proof {
        lemma2_to64();
    }
    let high = half_field(half, 12, 1) * 2048 + half_field(half, 8, 1) * 1024;
    let upper = half_field(half, 9, 2) * 256;
    let middle = half_field(half, 6, 1) * 128 + half_field(half, 7, 1) * 64 + half_field(half, 2, 1)
        * 32;
    let low = half_field(half, 11, 1) * 16 + half_field(half, 3, 3) * 2;
    sign_extend_field(high + upper + middle + low, 12)
}

/// Reads the offset of `c.beqz` and `c.bnez`.
pub fn read_c_branch_offset(half: u16) -> (imm: i32)
    ensures
        imm == c_branch_offset(half as nat),
        -256 <= imm < 256,
{
    proof {
        lemma2_to64();
    }
    let high = half_field(half, 12, 1) * 256 + half_field(half, 5, 2) * 64;
    let middle = half_field(half, 2, 1) * 32 + half_field(half, 10, 2) * 8;
    let low = half_field(half, 3, 2) * 2;
    sign_extend_field(high + middle + low, 9)
}

/// Reads the immediate of `c.addi16sp`.
pub fn read_c_addi16sp_imm(half: u16) -> (imm: i32)
    ensures
        imm == c_addi16sp_imm(half as nat),
        -512 <= imm < 512,
{
    proof {
        lemma2_to64();
    }
    let high = half_field(half, 12, 1) * 512 + half_field(half, 3, 2) * 128;
    let middle = half_field(half, 5, 1) * 64 + half_field(half, 2, 1) * 32;
    let low = half_field(half, 6, 1) * 16;
    sign_extend_field(high + middle + low, 10)
}

/// Reads the offset of `c.addi4spn`.
pub fn read_c_addi4spn_imm(half: u16) -> (imm: i32)
    ensures
        imm == c_addi4spn_imm(half as nat),
        0 <= imm < 1024,
{
    proof {
        lemma2_to64();
    }
    let high = half_field(half, 7, 4) * 64 + half_field(half, 11, 2) * 16;
    let low = half_field(half, 5, 1) * 8 + half_field(half, 6, 1) * 4;
    (high + low) as i32
}

/// Reads the offset of `c.lw` and `c.sw`.
pub fn read_c_word_offset(half: u16) -> (imm: i32)
    ensures
        imm == c_word_offset(half as nat),
        0 <= imm < 128,
{
    proof {
        lemma2_to64();
    }
    let bit6 = half_field(half, 5, 1);
    (bit6 * 64 + half_field(half, 10, 3) * 8 + half_field(half, 6, 1) * 4) as i32
}

/// Reads the offset of `c.ld` and `c.sd`.
pub fn read_c_double_offset(half: u16) -> (imm: i32)
    ensures
        imm == c_double_offset(half as nat),
        0 <= imm < 256,
{
    proof {
        lemma2_to64();
    }
    (half_field(half, 5, 2) * 64 + half_field(half, 10, 3) * 8) as i32
}

/// Decodes an instruction of quadrant 0.
pub fn decode_c_quadrant0(half: u16, xlen: Xlen) -> (d: Decoded)
    ensures
        d == decode_quadrant0(half as nat, xlen),
        d.wf(),
{
    proof {
        lemma2_to64();
    }
    let f = half_field(half, 13, 3);
    let rd = (half_field(half, 2, 3) + 8) as u8;
    let rs1 = (half_field(half, 7, 3) + 8) as u8;
    let word_offset = read_c_word_offset(half);
    let double_offset = read_c_double_offset(half);
    if f == 0 {
        let imm = read_c_addi4spn_imm(half);
        if imm == 0 {
            Decoded::unknown()
        } else {
            Decoded::immediate(Mnemonic::Addi, rd, 2, imm)
        }
    } else if f == 2 {
        Decoded::load(Mnemonic::Lw, rd, rs1, word_offset)
    } else if f == 3 && xlen == Xlen::Rv64 {
        Decoded::load(Mnemonic::Ld, rd, rs1, double_offset)
    } else if f == 6 {
        Decoded::store(Mnemonic::Sw, rs1, rd, word_offset)
    } else if f == 7 && xlen == Xlen::Rv64 {
        Decoded::store(Mnemonic::Sd, rs1, rd, double_offset)
    } else {
        Decoded::unknown()
    }
}

/// Looks up a register-register operation of quadrant 1.
pub fn lookup_c_arithmetic(wide: u32, select: u32, xlen: Xlen) -> (m: Option<Mnemonic>)
    ensures
        m == c_arithmetic_mnemonic(wide as nat, select as nat, xlen),
{
    if wide == 0 {
        if select == 0 {
            Some(Mnemonic::Sub)
        } else if select == 1 {
            Some(Mnemonic::Xor)
        } else if select == 2 {
            Some(Mnemonic::Or)
        } else if select == 3 {
            Some(Mnemonic::And)
        } else {
            None
        }
    } else if xlen == Xlen::Rv64 && select == 0 {
        Some(Mnemonic::Subw)
    } else if xlen == Xlen::Rv64 && select == 1 {
        Some(Mnemonic::Addw)
    } else {
        None
    }
}

/// Decodes function select 4 of quadrant 1.
pub fn decode_c_arithmetic_half(half: u16, xlen: Xlen) -> (d: Decoded)
    ensures
        d == decode_c_arithmetic(half as nat, xlen),
        d.wf(),
{
    proof {
        lemma2_to64();
    }
    let kind = half_field(half, 10, 2);
    let r = (half_field(half, 7, 3) + 8) as u8;
    let wide = half_field(half, 12, 1);
    if kind == 0 || kind == 1 {
        if xlen == Xlen::Rv32 && wide == 1 {
            Decoded::unknown()
        } else {
            let imm = read_c_uimm6(half);
            let mnemonic = if kind == 0 {
                Mnemonic::Srli
            } else {
                Mnemonic::Srai
            };
            Decoded::immediate(mnemonic, r, r, imm)
        }
    } else if kind == 2 {
        let imm = read_c_imm6(half);
        Decoded::immediate(Mnemonic::Andi, r, r, imm)
    } else {
        let rs2 = (half_field(half, 2, 3) + 8) as u8;
        match lookup_c_arithmetic(wide, half_field(half, 5, 2), xlen) {
            Some(mnemonic) => Decoded::register(mnemonic, r, r, rs2),
            None => Decoded::unknown(),
        }
    }
}

/// Decodes an instruction of quadrant 1.
pub fn decode_c_quadrant1(half: u16, xlen: Xlen) -> (d: Decoded)
    ensures
        d == decode_quadrant1(half as nat, xlen),
        d.wf(),
{
    proof {
        lemma2_to64();
    }
    let f = half_field(half, 13, 3);
    let r = half_field(half, 7, 5) as u8;
    let short = (half_field(half, 7, 3) + 8) as u8;
    if f == 0 {
        let imm = read_c_imm6(half);
        Decoded::immediate(Mnemonic::Addi, r, r, imm)
    } else if f == 1 {
        if xlen == Xlen::Rv32 {
            let imm = read_c_jump_offset(half);
            Decoded::jump(Mnemonic::Jal, 1, imm)
        } else if r != 0 {
            let imm = read_c_imm6(half);
            Decoded::immediate(Mnemonic::Addiw, r, r, imm)
        } else {
            Decoded::unknown()
        }
    } else if f == 2 {
        let imm = read_c_imm6(half);
        Decoded::immediate(Mnemonic::Addi, r, 0, imm)
    } else if f == 3 {
        if read_c_uimm6(half) == 0 {
            Decoded::unknown()
        } else if r == 2 {
            let imm = read_c_addi16sp_imm(half);
            Decoded::immediate(Mnemonic::Addi, 2, 2, imm)
        } else {
            let signed = read_c_imm6(half);
            let imm = if signed < 0 {
                1048576 + signed
            } else {
                signed
            };
            Decoded::upper(Mnemonic::Lui, r, imm)
        }
    } else if f == 4 {
        decode_c_arithmetic_half(half, xlen)
    } else if f == 5 {
        let imm = read_c_jump_offset(half);
        Decoded::jump(Mnemonic::Jal, 0, imm)
    } else if f == 6 {
        let imm = read_c_branch_offset(half);
        Decoded::branch(Mnemonic::Beq, short, 0, imm)
    } else {
        let imm = read_c_branch_offset(half);
        Decoded::branch(Mnemonic::Bne, short, 0, imm)
    }
}

/// Decodes function select 4 of quadrant 2.
pub fn decode_c_register_half(half: u16) -> (d: Decoded)
    ensures
        d == decode_c_register(half as nat),
        d.wf(),
{
    proof {
        lemma2_to64();
    }
    let r = half_field(half, 7, 5) as u8;
    let s = half_field(half, 2, 5) as u8;
    if half_field(half, 12, 1) == 0 {
        if s != 0 {
            Decoded::register(Mnemonic::Add, r, 0, s)
        } else if r != 0 {
            Decoded::load(Mnemonic::Jalr, 0, r, 0)
        } else {
            Decoded::unknown()
        }
    } else {
        if s != 0 {
            Decoded::register(Mnemonic::Add, r, r, s)
        } else if r != 0 {
            Decoded::load(Mnemonic::Jalr, 1, r, 0)
        } else {
            Decoded::bare(Mnemonic::Ebreak)
        }
    }
}

/// Decodes an instruction of quadrant 2.
pub fn decode_c_quadrant2(half: u16, xlen: Xlen) -> (d: Decoded)
    ensures
        d == decode_quadrant2(half as nat, xlen),
        d.wf(),
{
    proof {
        lemma2_to64();
    }
    let f = half_field(half, 13, 3);
    let r = half_field(half, 7, 5) as u8;
    let s = half_field(half, 2, 5) as u8;
    if f == 0 {
        if xlen == Xlen::Rv32 && half_field(half, 12, 1) == 1 {
            Decoded::unknown()
        } else {
            let imm = read_c_uimm6(half);
            Decoded::immediate(Mnemonic::Slli, r, r, imm)
        }
    } else if f == 2 {
        if r == 0 {
            Decoded::unknown()
        } else {
            let bit5 = half_field(half, 12, 1);
            let imm = (half_field(half, 2, 2) * 64 + bit5 * 32 + half_field(half, 4, 3) * 4) as i32;
            Decoded::load(Mnemonic::Lw, r, 2, imm)
        }
    } else if f == 3 && xlen == Xlen::Rv64 {
        if r == 0 {
            Decoded::unknown()
        } else {
            let bit5 = half_field(half, 12, 1);
            let imm = (half_field(half, 2, 3) * 64 + bit5 * 32 + half_field(half, 5, 2) * 8) as i32;
            Decoded::load(Mnemonic::Ld, r, 2, imm)
        }
    } else if f == 4 {
        decode_c_register_half(half)
    } else if f == 6 {
        let imm = (half_field(half, 7, 2) * 64 + half_field(half, 9, 4) * 4) as i32;
        Decoded::store(Mnemonic::Sw, 2, s, imm)
    } else if f == 7 && xlen == Xlen::Rv64 {
        let imm = (half_field(half, 7, 3) * 64 + half_field(half, 10, 3) * 8) as i32;
        Decoded::store(Mnemonic::Sd, 2, s, imm)
    } else {
        Decoded::unknown()
    }
}

/// Decodes one 16-bit instruction.
pub fn decode_half(half: u16, xlen: Xlen) -> (d: Decoded)
    ensures
        d == decode_half_spec(half as nat, xlen),
        d.wf(),
{
    let q = half_field(half, 0, 2);
    if q == 0 {
        decode_c_quadrant0(half, xlen)
    } else if q == 1 {
        decode_c_quadrant1(half, xlen)
    } else if q == 2 {
        decode_c_quadrant2(half, xlen)
    } else {
        Decoded::unknown()
    }
}

} // verus!

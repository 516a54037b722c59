//! What a RISC-V instruction decodes to, before it is turned into text.

use vstd::prelude::*;

verus! {

/// The width of the integer registers.
#[derive(Debug, Clone, Copy, PartialEq, Eq, Structural)]
pub enum Xlen {
    Rv32,
    Rv64,
}

/// The operations of the base integer instruction set.
#[derive(Debug, Clone, Copy, PartialEq, Eq, Structural)]
pub enum Mnemonic {
    Lui,
    Auipc,
    Jal,
    Jalr,
    Beq,
    Bne,
    Blt,
    Bge,
    Bltu,
    Bgeu,
    Lb,
    Lh,
    Lw,
    Lbu,
    Lhu,
    Lwu,
    Ld,
    Sb,
    Sh,
    Sw,
    Sd,
    Addi,
    Slti,
    Sltiu,
    Xori,
    Ori,
    Andi,
    Slli,
    Srli,
    Srai,
    Add,
    Sub,
    Sll,
    Slt,
    Sltu,
    Xor,
    Srl,
    Sra,
    Or,
    And,
    Addiw,
    Slliw,
    Srliw,
    Sraiw,
    Addw,
    Subw,
    Sllw,
    Srlw,
    Sraw,
    Fence,
    Ecall,
    Ebreak,
    /// A well-formed encoding that names no operation this decoder knows.
    Unknown,
}

/// How an instruction's operands are laid out, and with that which
/// registers it reads and writes.
#[derive(Debug, Clone, Copy, PartialEq, Eq, Structural)]
pub enum Format {
    /// `rd, rs1, rs2`: reads `rs1` and `rs2`, writes `rd`.
    Register,
    /// `rd, rs1, imm`: reads `rs1`, writes `rd`.
    Immediate,
    /// `rd, imm(rs1)`: reads `rs1`, writes `rd`.
    Load,
    /// `rs2, imm(rs1)`: reads `rs1` and `rs2`, writes nothing.
    Store,
    /// `rs1, rs2, imm`: reads `rs1` and `rs2`, writes nothing.
    Branch,
    /// `rd, imm` with the immediate in hexadecimal: writes `rd`.
    Upper,
    /// `rd, imm`: writes `rd`.
    Jump,
    /// No operands.
    Bare,
}

/// One decoded instruction: the operation, the layout of its operands, and
/// the fields that the layout uses (the others are zero).
#[derive(Debug, Clone, Copy, PartialEq, Eq, Structural)]
pub struct Decoded {
    pub mnemonic: Mnemonic,
    pub format: Format,
    pub rd: u8,
    pub rs1: u8,
    pub rs2: u8,
    pub imm: i32,
}

impl Decoded {
    /// The register fields name one of the 32 registers each, and the
    /// immediate of the upper-immediate layout is its unsigned field.
    pub open spec fn wf(&self) -> bool {
        &&& self.rd < 32
        &&& self.rs1 < 32
        &&& self.rs2 < 32
        &&& self.format == Format::Upper ==> self.imm >= 0
    }
}

/// What an encoding that names no known operation decodes to.
pub open spec fn unknown_instruction() -> Decoded {
    Decoded { mnemonic: Mnemonic::Unknown, format: Format::Bare, rd: 0, rs1: 0, rs2: 0, imm: 0 }
}

/// `rd, rs1, rs2`.
pub open spec fn register_form(mnemonic: Mnemonic, rd: nat, rs1: nat, rs2: nat) -> Decoded {
    Decoded {
        mnemonic,
        format: Format::Register,
        rd: rd as u8,
        rs1: rs1 as u8,
        rs2: rs2 as u8,
        imm: 0,
    }
}

/// `rd, rs1, imm`.
pub open spec fn immediate_form(mnemonic: Mnemonic, rd: nat, rs1: nat, imm: int) -> Decoded {
    Decoded {
        mnemonic,
        format: Format::Immediate,
        rd: rd as u8,
        rs1: rs1 as u8,
        rs2: 0,
        imm: imm as i32,
    }
}

/// `rd, imm(rs1)`.
pub open spec fn load_form(mnemonic: Mnemonic, rd: nat, rs1: nat, imm: int) -> Decoded {
    Decoded {
        mnemonic,
        format: Format::Load,
        rd: rd as u8,
        rs1: rs1 as u8,
        rs2: 0,
        imm: imm as i32,
    }
}

/// `rs2, imm(rs1)`.
pub open spec fn store_form(mnemonic: Mnemonic, rs1: nat, rs2: nat, imm: int) -> Decoded {
    Decoded {
        mnemonic,
        format: Format::Store,
        rd: 0,
        rs1: rs1 as u8,
        rs2: rs2 as u8,
        imm: imm as i32,
    }
}

/// `rs1, rs2, imm`.
pub open spec fn branch_form(mnemonic: Mnemonic, rs1: nat, rs2: nat, imm: int) -> Decoded {
    Decoded {
        mnemonic,
        format: Format::Branch,
        rd: 0,
        rs1: rs1 as u8,
        rs2: rs2 as u8,
        imm: imm as i32,
    }
}

/// `rd, imm` with the immediate in hexadecimal.
pub open spec fn upper_form(mnemonic: Mnemonic, rd: nat, imm: int) -> Decoded {
    Decoded {
        mnemonic,
        format: Format::Upper,
        rd: rd as u8,
        rs1: 0,
        rs2: 0,
        imm: imm as i32,
    }
}

/// `rd, imm`.
pub open spec fn jump_form(mnemonic: Mnemonic, rd: nat, imm: int) -> Decoded {
    Decoded {
        mnemonic,
        format: Format::Jump,
        rd: rd as u8,
        rs1: 0,
        rs2: 0,
        imm: imm as i32,
    }
}

/// No operands.
pub open spec fn bare_form(mnemonic: Mnemonic) -> Decoded {
    Decoded { mnemonic, format: Format::Bare, rd: 0, rs1: 0, rs2: 0, imm: 0 }
}

impl Decoded {
    /// `rd, rs1, rs2`.
    pub fn register(mnemonic: Mnemonic, rd: u8, rs1: u8, rs2: u8) -> (d: Self)
        ensures
            d == register_form(mnemonic, rd as nat, rs1 as nat, rs2 as nat),
    {
        Decoded { mnemonic, format: Format::Register, rd, rs1, rs2, imm: 0 }
    }

    /// `rd, rs1, imm`.
    pub fn immediate(mnemonic: Mnemonic, rd: u8, rs1: u8, imm: i32) -> (d: Self)
        ensures
            d == immediate_form(mnemonic, rd as nat, rs1 as nat, imm as int),
    {
        Decoded { mnemonic, format: Format::Immediate, rd, rs1, rs2: 0, imm }
    }

    /// `rd, imm(rs1)`.
    pub fn load(mnemonic: Mnemonic, rd: u8, rs1: u8, imm: i32) -> (d: Self)
        ensures
            d == load_form(mnemonic, rd as nat, rs1 as nat, imm as int),
    {
        Decoded { mnemonic, format: Format::Load, rd, rs1, rs2: 0, imm }
    }

    /// `rs2, imm(rs1)`.
    pub fn store(mnemonic: Mnemonic, rs1: u8, rs2: u8, imm: i32) -> (d: Self)
        ensures
            d == store_form(mnemonic, rs1 as nat, rs2 as nat, imm as int),
    {
        Decoded { mnemonic, format: Format::Store, rd: 0, rs1, rs2, imm }
    }

    /// `rs1, rs2, imm`.
    pub fn branch(mnemonic: Mnemonic, rs1: u8, rs2: u8, imm: i32) -> (d: Self)
        ensures
            d == branch_form(mnemonic, rs1 as nat, rs2 as nat, imm as int),
    {
        Decoded { mnemonic, format: Format::Branch, rd: 0, rs1, rs2, imm }
    }

    /// `rd, imm` with the immediate in hexadecimal.
    pub fn upper(mnemonic: Mnemonic, rd: u8, imm: i32) -> (d: Self)
        ensures
            d == upper_form(mnemonic, rd as nat, imm as int),
    {
        Decoded { mnemonic, format: Format::Upper, rd, rs1: 0, rs2: 0, imm }
    }

    /// `rd, imm`.
    pub fn jump(mnemonic: Mnemonic, rd: u8, imm: i32) -> (d: Self)
        ensures
            d == jump_form(mnemonic, rd as nat, imm as int),
    {
        Decoded { mnemonic, format: Format::Jump, rd, rs1: 0, rs2: 0, imm }
    }

    /// No operands.
    pub fn bare(mnemonic: Mnemonic) -> (d: Self)
        ensures
            d == bare_form(mnemonic),
    {
        Decoded { mnemonic, format: Format::Bare, rd: 0, rs1: 0, rs2: 0, imm: 0 }
    }

    /// The unknown instruction.
    pub fn unknown() -> (d: Self)
        ensures
            d == unknown_instruction(),
    {
        Decoded { mnemonic: Mnemonic::Unknown, format: Format::Bare, rd: 0, rs1: 0, rs2: 0, imm: 0 }
    }
}

} // verus!

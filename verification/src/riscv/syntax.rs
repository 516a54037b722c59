//! RISC-V assembly syntax: the names of operations and registers, the text
//! of the operands, and the registers an instruction touches.

use crate::riscv::isa::{Decoded, Format, Mnemonic};
use crate::text::{append_hex, append_signed, hex_text, signed_text};
use crate::traits::instruction::{BasicInstructionDetail, DetailView};
use crate::types::instruction::{unknown_view, Instruction, InstructionView};
use vstd::prelude::*;
use vstd::string::*;

verus! {

/// The name of an operation as it is written in assembly.
pub open spec fn mnemonic_text(m: Mnemonic) -> Seq<char> {
    match m {
        Mnemonic::Lui => "lui"@,
        Mnemonic::Auipc => "auipc"@,
        Mnemonic::Jal => "jal"@,
        Mnemonic::Jalr => "jalr"@,
        Mnemonic::Beq => "beq"@,
        Mnemonic::Bne => "bne"@,
        Mnemonic::Blt => "blt"@,
        Mnemonic::Bge => "bge"@,
        Mnemonic::Bltu => "bltu"@,
        Mnemonic::Bgeu => "bgeu"@,
        Mnemonic::Lb => "lb"@,
        Mnemonic::Lh => "lh"@,
        Mnemonic::Lw => "lw"@,
        Mnemonic::Lbu => "lbu"@,
        Mnemonic::Lhu => "lhu"@,
        Mnemonic::Lwu => "lwu"@,
        Mnemonic::Ld => "ld"@,
        Mnemonic::Sb => "sb"@,
        Mnemonic::Sh => "sh"@,
        Mnemonic::Sw => "sw"@,
        Mnemonic::Sd => "sd"@,
        Mnemonic::Addi => "addi"@,
        Mnemonic::Slti => "slti"@,
        Mnemonic::Sltiu => "sltiu"@,
        Mnemonic::Xori => "xori"@,
        Mnemonic::Ori => "ori"@,
        Mnemonic::Andi => "andi"@,
        Mnemonic::Slli => "slli"@,
        Mnemonic::Srli => "srli"@,
        Mnemonic::Srai => "srai"@,
        Mnemonic::Add => "add"@,
        Mnemonic::Sub => "sub"@,
        Mnemonic::Sll => "sll"@,
        Mnemonic::Slt => "slt"@,
        Mnemonic::Sltu => "sltu"@,
        Mnemonic::Xor => "xor"@,
        Mnemonic::Srl => "srl"@,
        Mnemonic::Sra => "sra"@,
        Mnemonic::Or => "or"@,
        Mnemonic::And => "and"@,
        Mnemonic::Addiw => "addiw"@,
        Mnemonic::Slliw => "slliw"@,
        Mnemonic::Srliw => "srliw"@,
        Mnemonic::Sraiw => "sraiw"@,
        Mnemonic::Addw => "addw"@,
        Mnemonic::Subw => "subw"@,
        Mnemonic::Sllw => "sllw"@,
        Mnemonic::Srlw => "srlw"@,
        Mnemonic::Sraw => "sraw"@,
        Mnemonic::Fence => "fence"@,
        Mnemonic::Ecall => "ecall"@,
        Mnemonic::Ebreak => "ebreak"@,
        Mnemonic::Unknown => "unknown"@,
    }
}

/// The name of register `r` in the standard calling convention; numbers
/// from 31 on give the name of register 31.
pub open spec fn register_text(r: nat) -> Seq<char> {
    if r == 0 {
        "zero"@
    } else if r == 1 {
        "ra"@
    } else if r == 2 {
        "sp"@
    } else if r == 3 {
        "gp"@
    } else if r == 4 {
        "tp"@
    } else if r == 5 {
        "t0"@
    } else if r == 6 {
        "t1"@
    } else if r == 7 {
        "t2"@
    } else if r == 8 {
        "s0"@
    } else if r == 9 {
        "s1"@
    } else if r == 10 {
        "a0"@
    } else if r == 11 {
        "a1"@
    } else if r == 12 {
        "a2"@
    } else if r == 13 {
        "a3"@
    } else if r == 14 {
        "a4"@
    } else if r == 15 {
        "a5"@
    } else if r == 16 {
        "a6"@
    } else if r == 17 {
        "a7"@
    } else if r == 18 {
        "s2"@
    } else if r == 19 {
        "s3"@
    } else if r == 20 {
        "s4"@
    } else if r == 21 {
        "s5"@
    } else if r == 22 {
        "s6"@
    } else if r == 23 {
        "s7"@
    } else if r == 24 {
        "s8"@
    } else if r == 25 {
        "s9"@
    } else if r == 26 {
        "s10"@
    } else if r == 27 {
        "s11"@
    } else if r == 28 {
        "t3"@
    } else if r == 29 {
        "t4"@
    } else if r == 30 {
        "t5"@
    } else {
        "t6"@
    }
}

/// The operands of `d` in assembly syntax: registers by name, immediates
/// and offsets in signed decimal, the immediate of the upper-immediate
/// layout in hexadecimal, memory operands as offset and base register in
/// parentheses.
pub open spec fn operand_text(d: Decoded) -> Seq<char> {
    match d.format {
        Format::Register => register_text(d.rd as nat) + ", "@ + register_text(d.rs1 as nat)
            + ", "@ + register_text(d.rs2 as nat),
        Format::Immediate => register_text(d.rd as nat) + ", "@ + register_text(d.rs1 as nat)
            + ", "@ + signed_text(d.imm as int),
        Format::Load => register_text(d.rd as nat) + ", "@ + signed_text(d.imm as int) + "("@
            + register_text(d.rs1 as nat) + ")"@,
        Format::Store => register_text(d.rs2 as nat) + ", "@ + signed_text(d.imm as int) + "("@
            + register_text(d.rs1 as nat) + ")"@,
        Format::Branch => register_text(d.rs1 as nat) + ", "@ + register_text(d.rs2 as nat)
            + ", "@ + signed_text(d.imm as int),
        Format::Upper => register_text(d.rd as nat) + ", 0x"@ + hex_text(d.imm as nat),
        Format::Jump => register_text(d.rd as nat) + ", "@ + signed_text(d.imm as int),
        Format::Bare => Seq::empty(),
    }
}

/// The registers that `d` reads, in the order of the encoding's source
/// fields.
pub open spec fn registers_read(d: Decoded) -> Seq<u32> {
    match d.format {
        Format::Register | Format::Store | Format::Branch => seq![d.rs1 as u32, d.rs2 as u32],
        Format::Immediate | Format::Load => seq![d.rs1 as u32],
        Format::Upper | Format::Jump | Format::Bare => Seq::empty(),
    }
}

/// The registers that `d` writes.
pub open spec fn registers_written(d: Decoded) -> Seq<u32> {
    match d.format {
        Format::Register | Format::Immediate | Format::Load | Format::Upper | Format::Jump => seq![
            d.rd as u32,
        ],
        Format::Store | Format::Branch | Format::Bare => Seq::empty(),
    }
}

/// The instruction that `d` becomes at `address`, made of `bytes`. The
/// unknown instruction shows its bytes in hexadecimal and carries no
/// annotation; every other one carries the registers it touches.
pub open spec fn instruction_view(d: Decoded, address: u64, bytes: Seq<u8>) -> InstructionView {
    if d.mnemonic == Mnemonic::Unknown {
        unknown_view(address, bytes)
    } else {
        InstructionView {
            address,
            bytes,
            mnemonic: mnemonic_text(d.mnemonic),
            operands: operand_text(d),
            size: bytes.len(),
            detail: Some(
                DetailView {
                    architecture: "riscv"@,
                    registers_read: registers_read(d),
                    registers_written: registers_written(d),
                },
            ),
        }
    }
}

/// Only the unknown instruction is named `unknown`.
pub proof fn lemma_unknown_name_is_reserved(m: Mnemonic)
    ensures
        mnemonic_text(m) == "unknown"@ <==> m == Mnemonic::Unknown,
{
    reveal_strlit("unknown");
    match m {
        Mnemonic::Lui => {
            reveal_strlit("lui");
        },
        Mnemonic::Auipc => {
            reveal_strlit("auipc");
        },
        Mnemonic::Jal => {
            reveal_strlit("jal");
        },
        Mnemonic::Jalr => {
            reveal_strlit("jalr");
        },
        Mnemonic::Beq => {
            reveal_strlit("beq");
        },
        Mnemonic::Bne => {
            reveal_strlit("bne");
        },
        Mnemonic::Blt => {
            reveal_strlit("blt");
        },
        Mnemonic::Bge => {
            reveal_strlit("bge");
        },
        Mnemonic::Bltu => {
            reveal_strlit("bltu");
        },
        Mnemonic::Bgeu => {
            reveal_strlit("bgeu");
        },
        Mnemonic::Lb => {
            reveal_strlit("lb");
        },
        Mnemonic::Lh => {
            reveal_strlit("lh");
        },
        Mnemonic::Lw => {
            reveal_strlit("lw");
        },
        Mnemonic::Lbu => {
            reveal_strlit("lbu");
        },
        Mnemonic::Lhu => {
            reveal_strlit("lhu");
        },
        Mnemonic::Lwu => {
            reveal_strlit("lwu");
        },
        Mnemonic::Ld => {
            reveal_strlit("ld");
        },
        Mnemonic::Sb => {
            reveal_strlit("sb");
        },
        Mnemonic::Sh => {
            reveal_strlit("sh");
        },
        Mnemonic::Sw => {
            reveal_strlit("sw");
        },
        Mnemonic::Sd => {
            reveal_strlit("sd");
        },
        Mnemonic::Addi => {
            reveal_strlit("addi");
        },
        Mnemonic::Slti => {
            reveal_strlit("slti");
        },
        Mnemonic::Sltiu => {
            reveal_strlit("sltiu");
        },
        Mnemonic::Xori => {
            reveal_strlit("xori");
        },
        Mnemonic::Ori => {
            reveal_strlit("ori");
        },
        Mnemonic::Andi => {
            reveal_strlit("andi");
        },
        Mnemonic::Slli => {
            reveal_strlit("slli");
        },
        Mnemonic::Srli => {
            reveal_strlit("srli");
        },
        Mnemonic::Srai => {
            reveal_strlit("srai");
        },
        Mnemonic::Add => {
            reveal_strlit("add");
        },
        Mnemonic::Sub => {
            reveal_strlit("sub");
        },
        Mnemonic::Sll => {
            reveal_strlit("sll");
        },
        Mnemonic::Slt => {
            reveal_strlit("slt");
        },
        Mnemonic::Sltu => {
            reveal_strlit("sltu");
        },
        Mnemonic::Xor => {
            reveal_strlit("xor");
        },
        Mnemonic::Srl => {
            reveal_strlit("srl");
        },
        Mnemonic::Sra => {
            reveal_strlit("sra");
        },
        Mnemonic::Or => {
            reveal_strlit("or");
        },
        Mnemonic::And => {
            reveal_strlit("and");
        },
        Mnemonic::Addiw => {
            reveal_strlit("addiw");
        },
        Mnemonic::Slliw => {
            reveal_strlit("slliw");
        },
        Mnemonic::Srliw => {
            reveal_strlit("srliw");
        },
        Mnemonic::Sraiw => {
            reveal_strlit("sraiw");
        },
        Mnemonic::Addw => {
            reveal_strlit("addw");
        },
        Mnemonic::Subw => {
            reveal_strlit("subw");
        },
        Mnemonic::Sllw => {
            reveal_strlit("sllw");
        },
        Mnemonic::Srlw => {
            reveal_strlit("srlw");
        },
        Mnemonic::Sraw => {
            reveal_strlit("sraw");
        },
        Mnemonic::Fence => {
            reveal_strlit("fence");
        },
        Mnemonic::Ecall => {
            reveal_strlit("ecall");
        },
        Mnemonic::Ebreak => {
            reveal_strlit("ebreak");
        },
        Mnemonic::Unknown => {
            reveal_strlit("unknown");
        },
    }
    assert(m != Mnemonic::Unknown ==> mnemonic_text(m).len() != 7);
}

/// The name of an operation.
pub fn mnemonic_name(m: Mnemonic) -> (name: &'static str)
    ensures
        name@ == mnemonic_text(m),
{
    match m {
        Mnemonic::Lui => "lui",
        Mnemonic::Auipc => "auipc",
        Mnemonic::Jal => "jal",
        Mnemonic::Jalr => "jalr",
        Mnemonic::Beq => "beq",
        Mnemonic::Bne => "bne",
        Mnemonic::Blt => "blt",
        Mnemonic::Bge => "bge",
        Mnemonic::Bltu => "bltu",
        Mnemonic::Bgeu => "bgeu",
        Mnemonic::Lb => "lb",
        Mnemonic::Lh => "lh",
        Mnemonic::Lw => "lw",
        Mnemonic::Lbu => "lbu",
        Mnemonic::Lhu => "lhu",
        Mnemonic::Lwu => "lwu",
        Mnemonic::Ld => "ld",
        Mnemonic::Sb => "sb",
        Mnemonic::Sh => "sh",
        Mnemonic::Sw => "sw",
        Mnemonic::Sd => "sd",
        Mnemonic::Addi => "addi",
        Mnemonic::Slti => "slti",
        Mnemonic::Sltiu => "sltiu",
        Mnemonic::Xori => "xori",
        Mnemonic::Ori => "ori",
        Mnemonic::Andi => "andi",
        Mnemonic::Slli => "slli",
        Mnemonic::Srli => "srli",
        Mnemonic::Srai => "srai",
        Mnemonic::Add => "add",
        Mnemonic::Sub => "sub",
        Mnemonic::Sll => "sll",
        Mnemonic::Slt => "slt",
        Mnemonic::Sltu => "sltu",
        Mnemonic::Xor => "xor",
        Mnemonic::Srl => "srl",
        Mnemonic::Sra => "sra",
        Mnemonic::Or => "or",
        Mnemonic::And => "and",
        Mnemonic::Addiw => "addiw",
        Mnemonic::Slliw => "slliw",
        Mnemonic::Srliw => "srliw",
        Mnemonic::Sraiw => "sraiw",
        Mnemonic::Addw => "addw",
        Mnemonic::Subw => "subw",
        Mnemonic::Sllw => "sllw",
        Mnemonic::Srlw => "srlw",
        Mnemonic::Sraw => "sraw",
        Mnemonic::Fence => "fence",
        Mnemonic::Ecall => "ecall",
        Mnemonic::Ebreak => "ebreak",
        Mnemonic::Unknown => "unknown",
    }
}

/// The name of register `r`.
pub fn register_name(r: u8) -> (name: &'static str)
    ensures
        name@ == register_text(r as nat),
{
    if r == 0 {
        "zero"
    } else if r == 1 {
        "ra"
    } else if r == 2 {
        "sp"
    } else if r == 3 {
        "gp"
    } else if r == 4 {
        "tp"
    } else if r == 5 {
        "t0"
    } else if r == 6 {
        "t1"
    } else if r == 7 {
        "t2"
    } else if r == 8 {
        "s0"
    } else if r == 9 {
        "s1"
    } else if r == 10 {
        "a0"
    } else if r == 11 {
        "a1"
    } else if r == 12 {
        "a2"
    } else if r == 13 {
        "a3"
    } else if r == 14 {
        "a4"
    } else if r == 15 {
        "a5"
    } else if r == 16 {
        "a6"
    } else if r == 17 {
        "a7"
    } else if r == 18 {
        "s2"
    } else if r == 19 {
        "s3"
    } else if r == 20 {
        "s4"
    } else if r == 21 {
        "s5"
    } else if r == 22 {
        "s6"
    } else if r == 23 {
        "s7"
    } else if r == 24 {
        "s8"
    } else if r == 25 {
        "s9"
    } else if r == 26 {
        "s10"
    } else if r == 27 {
        "s11"
    } else if r == 28 {
        "t3"
    } else if r == 29 {
        "t4"
    } else if r == 30 {
        "t5"
    } else {
        "t6"
    }
}

/// Writes out the operands of `d`.
pub fn render_operands(d: Decoded) -> (text: String)
    requires
        d.wf(),
    ensures
        text@ == operand_text(d),
{
    let mut text = String::new();
    match d.format {
        Format::Register => {
            text.append(register_name(d.rd));
            text.append(", ");
            text.append(register_name(d.rs1));
            text.append(", ");
            text.append(register_name(d.rs2));
            assert(text@ =~= operand_text(d));
        },
        Format::Immediate => {
            text.append(register_name(d.rd));
            text.append(", ");
            text.append(register_name(d.rs1));
            text.append(", ");
            append_signed(&mut text, d.imm as i64);
            assert(text@ =~= operand_text(d));
        },
        Format::Load => {
            text.append(register_name(d.rd));
            text.append(", ");
            append_signed(&mut text, d.imm as i64);
            text.append("(");
            text.append(register_name(d.rs1));
            text.append(")");
            assert(text@ =~= operand_text(d));
        },
        Format::Store => {
            text.append(register_name(d.rs2));
            text.append(", ");
            append_signed(&mut text, d.imm as i64);
            text.append("(");
            text.append(register_name(d.rs1));
            text.append(")");
            assert(text@ =~= operand_text(d));
        },
        Format::Branch => {
            text.append(register_name(d.rs1));
            text.append(", ");
            text.append(register_name(d.rs2));
            text.append(", ");
            append_signed(&mut text, d.imm as i64);
            assert(text@ =~= operand_text(d));
        },
        Format::Upper => {
            text.append(register_name(d.rd));
            text.append(", 0x");
            append_hex(&mut text, d.imm as u64);
            assert(text@ =~= operand_text(d));
        },
        Format::Jump => {
            text.append(register_name(d.rd));
            text.append(", ");
            append_signed(&mut text, d.imm as i64);
            assert(text@ =~= operand_text(d));
        },
        Format::Bare => {},
    }
    text
}

/// Records the registers that `d` touches.
pub fn annotate(d: Decoded) -> (detail: BasicInstructionDetail)
    ensures
        detail.architecture@ == "riscv"@,
        detail.regs_read@ == registers_read(d),
        detail.regs_write@ == registers_written(d),
{
    let detail = BasicInstructionDetail::new("riscv");
    match d.format {
        Format::Register => detail.reads_register(d.rs1 as u32).reads_register(
            d.rs2 as u32,
        ).writes_register(d.rd as u32),
        Format::Immediate | Format::Load => detail.reads_register(d.rs1 as u32).writes_register(
            d.rd as u32,
        ),
        Format::Store | Format::Branch => detail.reads_register(d.rs1 as u32).reads_register(
            d.rs2 as u32,
        ),
        Format::Upper | Format::Jump => detail.writes_register(d.rd as u32),
        Format::Bare => detail,
    }
}

/// Turns `d` into the instruction at `address` that is made of `bytes`.
pub fn build_instruction(d: Decoded, address: u64, bytes: Vec<u8>) -> (ins: Instruction)
    requires
        d.wf(),
    ensures
        ins@ == instruction_view(d, address, bytes@),
        ins.wf(),
{
    match d.mnemonic {
        Mnemonic::Unknown => Instruction::unknown(address, bytes),
        _ => {
            let mnemonic = mnemonic_name(d.mnemonic).to_owned();
            let operands = render_operands(d);
            let detail = annotate(d);
            Instruction::with_detail(address, bytes, mnemonic, operands, Box::new(detail))
        },
    }
}

} // verus!

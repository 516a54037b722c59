use robustone_core::bits::{extract, sign_extend_field};
use robustone_core::riscv::compressed::decode_half;
use robustone_core::riscv::decode::decode_word;
use robustone_core::riscv::syntax::{mnemonic_name, register_name, render_operands};
use robustone_core::riscv::{Decoded, Format, Mnemonic, RiscVHandler, Xlen};
use robustone_core::{ArchitectureDispatcher, ArchitectureHandler, DisasmError, Instruction};

fn decode(bytes: &[u8], arch: &str) -> (Instruction, usize) {
    let xlen = if arch == "riscv64" { Xlen::Rv64 } else { Xlen::Rv32 };
    RiscVHandler::with_xlen(xlen).disassemble(bytes, 0x1000).ok().unwrap()
}

fn check(word: u32, arch: &str, mnemonic: &str, operands: &str) {
    let bytes = word.to_le_bytes();
    let (ins, size) = decode(&bytes, arch);
    assert_eq!(ins.mnemonic, mnemonic, "word {:#010x}", word);
    assert_eq!(ins.operands, operands, "word {:#010x}", word);
    assert_eq!(size, 4);
    assert_eq!(ins.size, 4);
    assert_eq!(ins.bytes, bytes.to_vec());
    assert_eq!(ins.address, 0x1000);
}

fn check_half(half: u16, arch: &str, mnemonic: &str, operands: &str) {
    let bytes = half.to_le_bytes();
    let (ins, size) = decode(&[bytes[0], bytes[1], 0xff, 0xff], arch);
    assert_eq!(ins.mnemonic, mnemonic, "halfword {:#06x}", half);
    assert_eq!(ins.operands, operands, "halfword {:#06x}", half);
    assert_eq!(size, 2);
    assert_eq!(ins.size, 2);
    assert_eq!(ins.bytes, bytes.to_vec());
}

#[test]
fn addi_at_0x1000() {
    let dispatcher = ArchitectureDispatcher::new();
    let (ins, size) =
        dispatcher.disassemble_bytes(&[0x13, 0x05, 0x00, 0x00], "riscv32", 0x1000).ok().unwrap();
    assert_eq!(ins.mnemonic, "addi");
    assert_eq!(ins.operands, "a0, zero, 0");
    assert_eq!(size, 4);
    assert_eq!(ins.size, 4);
    assert_eq!(ins.address, 0x1000);
    assert_eq!(ins.bytes, vec![0x13, 0x05, 0x00, 0x00]);
    assert_eq!(ins.assembly_line(), "0x00001000: addi    a0, zero, 0");
    assert!(!ins.is_unknown());
}

#[test]
fn only_a_prefix_is_consumed() {
    let (ins, size) = decode(&[0x13, 0x05, 0x00, 0x00, 0xaa, 0xbb, 0xcc], "riscv32");
    assert_eq!(size, 4);
    assert_eq!(ins.bytes, vec![0x13, 0x05, 0x00, 0x00]);
    let (ins, size) = decode(&[0x01, 0x00, 0xaa], "riscv32");
    assert_eq!(size, 2);
    assert_eq!(ins.bytes, vec![0x01, 0x00]);
}

#[test]
fn upper_immediates_and_jumps() {
    check(0x12345537, "riscv32", "lui", "a0, 0x12345");
    check(0xfffff537, "riscv32", "lui", "a0, 0xfffff");
    check(0x00000037, "riscv32", "lui", "zero, 0x0");
    check(0x00001517, "riscv32", "auipc", "a0, 0x1");
    check(0x008000ef, "riscv32", "jal", "ra, 8");
    check(0xffdff06f, "riscv32", "jal", "zero, -4");
    check(0x7ffff06f, "riscv32", "jal", "zero, 1048574");
    check(0x8000006f, "riscv32", "jal", "zero, -1048576");
    check(0x00008067, "riscv32", "jalr", "zero, 0(ra)");
    check(0xff8500e7, "riscv32", "jalr", "ra, -8(a0)");
    check(0x00009067, "riscv32", "unknown", "0x67900000");
}

#[test]
fn branches() {
    check(0x00b50863, "riscv32", "beq", "a0, a1, 16");
    check(0xfe051ce3, "riscv32", "bne", "a0, zero, -8");
    check(0x00b54463, "riscv32", "blt", "a0, a1, 8");
    check(0x00b55463, "riscv32", "bge", "a0, a1, 8");
    check(0x00b56463, "riscv32", "bltu", "a0, a1, 8");
    check(0x00b57463, "riscv32", "bgeu", "a0, a1, 8");
    check(0x7e000fe3, "riscv32", "beq", "zero, zero, 4094");
    check(0x80000063, "riscv32", "beq", "zero, zero, -4096");
    check(0x00b52463, "riscv32", "unknown", "0x6324b500");
    check(0x00b53463, "riscv32", "unknown", "0x6334b500");
}

#[test]
fn loads_and_stores() {
    check(0x00812503, "riscv32", "lw", "a0, 8(sp)");
    check(0x00810503, "riscv32", "lb", "a0, 8(sp)");
    check(0x00811503, "riscv32", "lh", "a0, 8(sp)");
    check(0x00814503, "riscv32", "lbu", "a0, 8(sp)");
    check(0x00815503, "riscv32", "lhu", "a0, 8(sp)");
    check(0xffc12503, "riscv32", "lw", "a0, -4(sp)");
    check(0x80012503, "riscv32", "lw", "a0, -2048(sp)");
    check(0x7ff12503, "riscv32", "lw", "a0, 2047(sp)");
    check(0x00813503, "riscv64", "ld", "a0, 8(sp)");
    check(0x00816503, "riscv64", "lwu", "a0, 8(sp)");
    check(0x00813503, "riscv32", "unknown", "0x03358100");
    check(0x00816503, "riscv32", "unknown", "0x03658100");
    check(0x00817503, "riscv64", "unknown", "0x03758100");
    check(0x00a12623, "riscv32", "sw", "a0, 12(sp)");
    check(0x00a10623, "riscv32", "sb", "a0, 12(sp)");
    check(0x00a11623, "riscv32", "sh", "a0, 12(sp)");
    check(0xfea12e23, "riscv32", "sw", "a0, -4(sp)");
    check(0x00113423, "riscv64", "sd", "ra, 8(sp)");
    check(0x00113423, "riscv32", "unknown", "0x23341100");
    check(0x00a14623, "riscv64", "unknown", "0x2346a100");
}

#[test]
fn register_immediate_operations() {
    check(0x00000013, "riscv32", "addi", "zero, zero, 0");
    check(0xfff00513, "riscv32", "addi", "a0, zero, -1");
    check(0x7ff58513, "riscv32", "addi", "a0, a1, 2047");
    check(0x80058513, "riscv32", "addi", "a0, a1, -2048");
    check(0x0055a513, "riscv32", "slti", "a0, a1, 5");
    check(0x0055b513, "riscv32", "sltiu", "a0, a1, 5");
    check(0x0055c513, "riscv32", "xori", "a0, a1, 5");
    check(0x0055e513, "riscv32", "ori", "a0, a1, 5");
    check(0x0055f513, "riscv32", "andi", "a0, a1, 5");
    check(0x00351513, "riscv32", "slli", "a0, a0, 3");
    check(0x00355513, "riscv32", "srli", "a0, a0, 3");
    check(0x40355513, "riscv32", "srai", "a0, a0, 3");
    check(0x01f51513, "riscv32", "slli", "a0, a0, 31");
    check(0x02051513, "riscv32", "unknown", "0x13150502");
    check(0x02051513, "riscv64", "slli", "a0, a0, 32");
    check(0x03f55513, "riscv64", "srli", "a0, a0, 63");
    check(0x43f55513, "riscv64", "srai", "a0, a0, 63");
    check(0x40351513, "riscv32", "unknown", "0x13153540");
    check(0x40351513, "riscv64", "unknown", "0x13153540");
    check(0x80355513, "riscv64", "unknown", "0x13553580");
}

#[test]
fn register_register_operations() {
    check(0x00c58533, "riscv32", "add", "a0, a1, a2");
    check(0x40c58533, "riscv32", "sub", "a0, a1, a2");
    check(0x00c59533, "riscv32", "sll", "a0, a1, a2");
    check(0x00c5a533, "riscv32", "slt", "a0, a1, a2");
    check(0x00c5b533, "riscv32", "sltu", "a0, a1, a2");
    check(0x00c5c533, "riscv32", "xor", "a0, a1, a2");
    check(0x00c5d533, "riscv32", "srl", "a0, a1, a2");
    check(0x40c5d533, "riscv32", "sra", "a0, a1, a2");
    check(0x00c5e533, "riscv32", "or", "a0, a1, a2");
    check(0x00c5f533, "riscv32", "and", "a0, a1, a2");
    check(0x01ff8fb3, "riscv32", "add", "t6, t6, t6");
    check(0x40c59533, "riscv32", "unknown", "0x3395c540");
    check(0x02c58533, "riscv32", "unknown", "0x3385c502");
}

#[test]
fn word_operations_need_64_bit_registers() {
    check(0x0015051b, "riscv64", "addiw", "a0, a0, 1");
    check(0xfff5051b, "riscv64", "addiw", "a0, a0, -1");
    check(0x0035151b, "riscv64", "slliw", "a0, a0, 3");
    check(0x0035551b, "riscv64", "srliw", "a0, a0, 3");
    check(0x4035551b, "riscv64", "sraiw", "a0, a0, 3");
    check(0x0235151b, "riscv64", "unknown", "0x1b153502");
    check(0x00c5853b, "riscv64", "addw", "a0, a1, a2");
    check(0x40c5853b, "riscv64", "subw", "a0, a1, a2");
    check(0x00c5953b, "riscv64", "sllw", "a0, a1, a2");
    check(0x00c5d53b, "riscv64", "srlw", "a0, a1, a2");
    check(0x40c5d53b, "riscv64", "sraw", "a0, a1, a2");
    check(0x00c5a53b, "riscv64", "unknown", "0x3ba5c500");
    check(0x0015051b, "riscv32", "unknown", "0x1b051500");
    check(0x00c5853b, "riscv32", "unknown", "0x3b85c500");
}

#[test]
fn system_and_fence() {
    check(0x00000073, "riscv32", "ecall", "");
    check(0x00100073, "riscv32", "ebreak", "");
    check(0x00200073, "riscv32", "unknown", "0x73002000");
    check(0x0ff0000f, "riscv32", "fence", "");
    check(0x0000100f, "riscv32", "unknown", "0x0f100000");
}

#[test]
fn unknown_opcodes_degrade() {
    check(0xffffffff, "riscv32", "unknown", "0xffffffff");
    check(0x0000007f, "riscv64", "unknown", "0x7f000000");
    check(0x00000057, "riscv32", "unknown", "0x57000000");
    let (ins, _) = decode(&[0xff, 0xff, 0xff, 0xff], "riscv32");
    assert!(ins.is_unknown());
    assert!(ins.detail.is_none());
    assert!(!ins.operands.is_empty());
}

#[test]
fn compressed_quadrant_zero() {
    check_half(0x0028, "riscv32", "addi", "a0, sp, 8");
    check_half(0x1ffc, "riscv32", "addi", "a5, sp, 1020");
    check_half(0x0000, "riscv32", "unknown", "0x0000");
    check_half(0x0004, "riscv32", "unknown", "0x0400");
    check_half(0x4108, "riscv32", "lw", "a0, 0(a0)");
    check_half(0x5ffc, "riscv32", "lw", "a5, 124(a5)");
    check_half(0x6108, "riscv64", "ld", "a0, 0(a0)");
    check_half(0x7ffc, "riscv64", "ld", "a5, 248(a5)");
    check_half(0x6108, "riscv32", "unknown", "0x0861");
    check_half(0xc108, "riscv32", "sw", "a0, 0(a0)");
    check_half(0xc14c, "riscv32", "sw", "a1, 4(a0)");
    check_half(0xe108, "riscv64", "sd", "a0, 0(a0)");
    check_half(0xe108, "riscv32", "unknown", "0x08e1");
    check_half(0x2108, "riscv64", "unknown", "0x0821");
    check_half(0x8108, "riscv64", "unknown", "0x0881");
}

#[test]
fn compressed_quadrant_one() {
    check_half(0x0001, "riscv32", "addi", "zero, zero, 0");
    check_half(0x1141, "riscv32", "addi", "sp, sp, -16");
    check_half(0x0505, "riscv32", "addi", "a0, a0, 1");
    check_half(0x2001, "riscv32", "jal", "ra, 0");
    check_half(0x2505, "riscv32", "jal", "ra, 1568");
    check_half(0x3ffd, "riscv32", "jal", "ra, -2");
    check_half(0x2505, "riscv64", "addiw", "a0, a0, 1");
    check_half(0x2001, "riscv64", "unknown", "0x0120");
    check_half(0x4505, "riscv32", "addi", "a0, zero, 1");
    check_half(0x557d, "riscv32", "addi", "a0, zero, -1");
    check_half(0x7179, "riscv64", "addi", "sp, sp, -48");
    check_half(0x6141, "riscv64", "addi", "sp, sp, 16");
    check_half(0x6101, "riscv64", "unknown", "0x0161");
    check_half(0x6505, "riscv32", "lui", "a0, 0x1");
    check_half(0x757d, "riscv32", "lui", "a0, 0xfffff");
    check_half(0x6501, "riscv32", "unknown", "0x0165");
    check_half(0x8105, "riscv32", "srli", "a0, a0, 1");
    check_half(0x8505, "riscv32", "srai", "a0, a0, 1");
    check_half(0x9105, "riscv32", "unknown", "0x0591");
    check_half(0x9105, "riscv64", "srli", "a0, a0, 33");
    check_half(0x997d, "riscv32", "andi", "a0, a0, -1");
    check_half(0x8d0d, "riscv32", "sub", "a0, a0, a1");
    check_half(0x8d2d, "riscv32", "xor", "a0, a0, a1");
    check_half(0x8d4d, "riscv32", "or", "a0, a0, a1");
    check_half(0x8d6d, "riscv32", "and", "a0, a0, a1");
    check_half(0x9d0d, "riscv64", "subw", "a0, a0, a1");
    check_half(0x9d2d, "riscv64", "addw", "a0, a0, a1");
    check_half(0x9d2d, "riscv32", "unknown", "0x2d9d");
    check_half(0x9d4d, "riscv64", "unknown", "0x4d9d");
    check_half(0xa001, "riscv32", "jal", "zero, 0");
    check_half(0xbffd, "riscv64", "jal", "zero, -2");
    check_half(0xc501, "riscv32", "beq", "a0, zero, 8");
    check_half(0xe501, "riscv32", "bne", "a0, zero, 8");
    check_half(0xfd7d, "riscv32", "bne", "a0, zero, -2");
}

#[test]
fn compressed_quadrant_two() {
    check_half(0x050a, "riscv32", "slli", "a0, a0, 2");
    check_half(0x1502, "riscv32", "unknown", "0x0215");
    check_half(0x1502, "riscv64", "slli", "a0, a0, 32");
    check_half(0x4502, "riscv32", "lw", "a0, 0(sp)");
    check_half(0x4522, "riscv32", "lw", "a0, 8(sp)");
    check_half(0x4002, "riscv32", "unknown", "0x0240");
    check_half(0x6522, "riscv64", "ld", "a0, 8(sp)");
    check_half(0x6522, "riscv32", "unknown", "0x2265");
    check_half(0x6022, "riscv64", "unknown", "0x2260");
    check_half(0x8082, "riscv32", "jalr", "zero, 0(ra)");
    check_half(0x8002, "riscv32", "unknown", "0x0280");
    check_half(0x852e, "riscv32", "add", "a0, zero, a1");
    check_half(0x9002, "riscv32", "ebreak", "");
    check_half(0x9082, "riscv32", "jalr", "ra, 0(ra)");
    check_half(0x952e, "riscv32", "add", "a0, a0, a1");
    check_half(0xc22a, "riscv32", "sw", "a0, 4(sp)");
    check_half(0xf406, "riscv64", "sd", "ra, 40(sp)");
    check_half(0xf406, "riscv32", "unknown", "0x06f4");
    check_half(0x2502, "riscv64", "unknown", "0x0225");
    check_half(0xa502, "riscv64", "unknown", "0x02a5");
}

#[test]
fn truncated_input_is_insufficient() {
    let dispatcher = ArchitectureDispatcher::new();
    for arch in ["riscv", "riscv32", "riscv64"] {
        let err = dispatcher.disassemble_bytes(&[], arch, 0).err().unwrap();
        assert_eq!(err, DisasmError::InsufficientBytes);
        let err = dispatcher.disassemble_bytes(&[0x13], arch, 0).err().unwrap();
        assert_eq!(err, DisasmError::InsufficientBytes);
        let err = dispatcher.disassemble_bytes(&[0x13, 0x05, 0x00], arch, 0).err().unwrap();
        assert_eq!(err, DisasmError::InsufficientBytes);
        let err = dispatcher.disassemble_bytes(&[0x01], arch, 0).err().unwrap();
        assert_eq!(err, DisasmError::InsufficientBytes);
        assert!(dispatcher.disassemble_bytes(&[0x01, 0x00], arch, 0).is_ok());
    }
}

#[test]
fn registers_touched_follow_the_format() {
    let dispatcher = ArchitectureDispatcher::new();
    let touched = |word: u32| {
        let (ins, _) = dispatcher.disassemble_bytes(&word.to_le_bytes(), "riscv64", 0).ok().unwrap();
        let detail = ins.detail.unwrap();
        assert_eq!(detail.architecture_name(), "riscv");
        (detail.registers_read().to_vec(), detail.registers_written().to_vec())
    };
    assert_eq!(touched(0x00c58533), (vec![11, 12], vec![10]));
    assert_eq!(touched(0x00058513), (vec![11], vec![10]));
    assert_eq!(touched(0x00812503), (vec![2], vec![10]));
    assert_eq!(touched(0x00a12623), (vec![2, 10], vec![]));
    assert_eq!(touched(0x00b50863), (vec![10, 11], vec![]));
    assert_eq!(touched(0x12345537), (vec![], vec![10]));
    assert_eq!(touched(0x008000ef), (vec![], vec![1]));
    assert_eq!(touched(0x00000073), (vec![], vec![]));
    assert_eq!(touched(0x00008067), (vec![1], vec![0]));
}

#[test]
fn decoded_fields() {
    let d = decode_word(0xfe051ce3, Xlen::Rv32);
    assert_eq!(
        d,
        Decoded { mnemonic: Mnemonic::Bne, format: Format::Branch, rd: 0, rs1: 10, rs2: 0, imm: -8 }
    );
    let d = decode_half(0x7179, Xlen::Rv32);
    assert_eq!(
        d,
        Decoded { mnemonic: Mnemonic::Addi, format: Format::Immediate, rd: 2, rs1: 2, rs2: 0, imm: -48 }
    );
    let d = decode_word(0xffffffff, Xlen::Rv64);
    assert_eq!(
        d,
        Decoded { mnemonic: Mnemonic::Unknown, format: Format::Bare, rd: 0, rs1: 0, rs2: 0, imm: 0 }
    );
}

#[test]
fn sign_extension_is_twos_complement() {
    assert_eq!(sign_extend_field(0xfff, 12), -1);
    assert_eq!(sign_extend_field(0x800, 12), -2048);
    assert_eq!(sign_extend_field(0x7ff, 12), 2047);
    assert_eq!(sign_extend_field(0, 12), 0);
    assert_eq!(sign_extend_field(0x20, 6), -32);
    assert_eq!(sign_extend_field(0x1f, 6), 31);
    assert_eq!(sign_extend_field(0x1ff8, 13), -8);
    assert_eq!(sign_extend_field(0x100000, 21), -1048576);
    assert_eq!(sign_extend_field(0xfffff, 21), 1048575);
    assert_eq!(sign_extend_field(1, 1), -1);
    assert_eq!(sign_extend_field(0x7fffffff, 31), -1);
    for width in 1..32u32 {
        let top = 1u32 << (width - 1);
        assert_eq!(sign_extend_field(top, width) as i64, top as i64 - (1i64 << width));
        assert_eq!(sign_extend_field(top - 1, width) as i64, top as i64 - 1);
    }
}

#[test]
fn fields_are_cut_out_of_the_word() {
    assert_eq!(extract(0x00c58533, 0, 7), 0x33);
    assert_eq!(extract(0x00c58533, 7, 5), 10);
    assert_eq!(extract(0x00c58533, 15, 5), 11);
    assert_eq!(extract(0x00c58533, 20, 5), 12);
    assert_eq!(extract(0xffffffff, 1, 31), 0x7fffffff);
    assert_eq!(extract(0x80000000, 31, 1), 1);
    assert_eq!(extract(0x12345678, 12, 20), 0x12345);
}

#[test]
fn handler_decodes_without_a_dispatcher() {
    let handler = RiscVHandler::with_xlen(Xlen::Rv64);
    let (ins, size) = handler.disassemble(&[0x06, 0xf4], 16).ok().unwrap();
    assert_eq!(ins.mnemonic, "sd");
    assert_eq!(ins.operands, "ra, 40(sp)");
    assert_eq!(size, 2);
    assert_eq!(ins.address, 16);
}

#[test]
fn register_names() {
    let names: Vec<&str> = (0..32u8).map(register_name).collect();
    assert_eq!(
        names,
        vec![
            "zero", "ra", "sp", "gp", "tp", "t0", "t1", "t2", "s0", "s1", "a0", "a1", "a2", "a3",
            "a4", "a5", "a6", "a7", "s2", "s3", "s4", "s5", "s6", "s7", "s8", "s9", "s10", "s11",
            "t3", "t4", "t5", "t6",
        ]
    );
    assert_eq!(register_name(32), "t6");
    assert_eq!(register_name(255), "t6");
}

#[test]
fn operands_by_format() {
    let d = |format: Format| Decoded { mnemonic: Mnemonic::Add, format, rd: 5, rs1: 6, rs2: 7, imm: 20 };
    assert_eq!(render_operands(d(Format::Register)), "t0, t1, t2");
    assert_eq!(render_operands(d(Format::Immediate)), "t0, t1, 20");
    assert_eq!(render_operands(d(Format::Load)), "t0, 20(t1)");
    assert_eq!(render_operands(d(Format::Store)), "t2, 20(t1)");
    assert_eq!(render_operands(d(Format::Branch)), "t1, t2, 20");
    assert_eq!(render_operands(d(Format::Upper)), "t0, 0x14");
    assert_eq!(render_operands(d(Format::Jump)), "t0, 20");
    assert_eq!(render_operands(d(Format::Bare)), "");
    assert_eq!(mnemonic_name(Mnemonic::Sltiu), "sltiu");
    assert_eq!(mnemonic_name(Mnemonic::Unknown), "unknown");
}

use robustone_core::riscv::{RiscVHandler, Xlen};
use robustone_core::{ArchitectureDispatcher, ArchitectureHandler, DisasmError, Instruction};

#[test]
fn test_architecture_dispatcher_creation() {
    let dispatcher = ArchitectureDispatcher::new();
    let archs = dispatcher.supported_architectures();

    // Ensure RISC-V is present
    assert!(archs.contains(&"riscv"));
}

#[test]
fn test_hex_parsing() {
    let dispatcher = ArchitectureDispatcher::new();

    // Hex parsing should succeed for bare strings.
    let instruction = dispatcher.disassemble("deadbeef", "unknown".to_string());
    assert_eq!(instruction.mnemonic, "unknown");
    assert_eq!(instruction.bytes, vec![0xef, 0xbe, 0xad, 0xde]);
    assert_eq!(instruction.size, 4);

    // Hex parsing should also accept a `0x` prefix.
    let instruction = dispatcher.disassemble("0x1234", "unknown".to_string());
    assert_eq!(instruction.bytes, vec![0x34, 0x12]);
    assert_eq!(instruction.size, 2);
}

struct Fixed {
    name: &'static str,
    claims: &'static str,
    mnemonic: &'static str,
}

impl ArchitectureHandler for Fixed {
    fn disassemble(&self, bytes: &[u8], addr: u64) -> Result<(Instruction, usize), DisasmError> {
        if bytes.is_empty() {
            return Err(DisasmError::InvalidEncoding);
        }
        let ins = Instruction::new(addr, bytes[..1].to_vec(), self.mnemonic.to_string(), String::new());
        Ok((ins, 1))
    }

    fn name(&self) -> &'static str {
        self.name
    }

    fn supports(&self, arch_name: &str) -> bool {
        arch_name == self.claims
    }
}

#[test]
fn first_registered_handler_wins() {
    let mut dispatcher = ArchitectureDispatcher::new();
    dispatcher.register(Box::new(Fixed { name: "toy", claims: "toy", mnemonic: "first" }));
    dispatcher.register(Box::new(Fixed { name: "toy", claims: "toy", mnemonic: "second" }));
    let (ins, size) = dispatcher.disassemble_bytes(&[1, 2, 3], "toy", 64).ok().unwrap();
    assert_eq!(ins.mnemonic, "first");
    assert_eq!(size, 1);
    assert_eq!(ins.size, 1);
    assert_eq!(ins.bytes, vec![1]);
    assert_eq!(ins.address, 64);
    assert_eq!(dispatcher.supported_architectures(), vec!["riscv", "toy", "toy"]);
}

#[test]
fn built_in_handlers_win_over_later_ones() {
    let mut dispatcher = ArchitectureDispatcher::new();
    dispatcher.register(Box::new(Fixed { name: "fake", claims: "riscv32", mnemonic: "fake" }));
    let (ins, size) = dispatcher.disassemble_bytes(&[0x13, 0x05, 0x00, 0x00], "riscv32", 0x1000).ok().unwrap();
    assert_eq!(ins.mnemonic, "addi");
    assert_eq!(size, 4);
}

#[test]
fn unsupported_architecture_is_named() {
    let dispatcher = ArchitectureDispatcher::new();
    let err = dispatcher.disassemble_bytes(&[0x13, 0x05, 0x00, 0x00], "z80", 0).err().unwrap();
    assert_eq!(err, DisasmError::UnsupportedArchitecture("z80".to_string()));
    let err = dispatcher.disassemble_bytes(&[], "", 0).err().unwrap();
    assert_eq!(err, DisasmError::UnsupportedArchitecture(String::new()));
}

#[test]
fn handler_errors_pass_through() {
    let mut dispatcher = ArchitectureDispatcher::new();
    dispatcher.register(Box::new(Fixed { name: "toy", claims: "toy", mnemonic: "x" }));
    let err = dispatcher.disassemble_bytes(&[], "toy", 0).err().unwrap();
    assert_eq!(err, DisasmError::InvalidEncoding);
    let err = dispatcher.disassemble_bytes(&[0x13, 0x05], "riscv32", 0).err().unwrap();
    assert_eq!(err, DisasmError::InsufficientBytes);
}

#[test]
fn introspection() {
    let dispatcher = ArchitectureDispatcher::new();
    assert!(dispatcher.supports_architecture("riscv"));
    assert!(dispatcher.supports_architecture("riscv32"));
    assert!(dispatcher.supports_architecture("riscv64"));
    assert!(!dispatcher.supports_architecture("RISCV32"));
    assert!(!dispatcher.supports_architecture("arm"));
    assert!(dispatcher.get_handler("arm").is_none());
    let handler = dispatcher.get_handler("riscv64").unwrap();
    assert_eq!(handler.name(), "riscv");
    assert!(handler.supports("riscv64"));
    assert!(handler.supports("riscv32"));
    assert!(!handler.supports("arm"));
    let default = ArchitectureDispatcher::default();
    assert_eq!(default.supported_architectures(), vec!["riscv"]);
}

#[test]
fn built_in_handlers_are_registered_once() {
    let dispatcher = ArchitectureDispatcher::new();
    assert_eq!(dispatcher.supported_architectures(), vec!["riscv"]);
    for arch in ["riscv", "riscv32", "riscv64"] {
        assert!(dispatcher.supports_architecture(arch));
        assert_eq!(dispatcher.get_handler(arch).unwrap().name(), "riscv");
    }
}

#[test]
fn one_handler_serves_every_riscv_name() {
    let dispatcher = ArchitectureDispatcher::new();
    for arch in ["riscv", "riscv32", "riscv64"] {
        let (ins, size) = dispatcher.disassemble_bytes(&[0x03, 0x35, 0x81, 0x00], arch, 0).ok().unwrap();
        assert_eq!(ins.mnemonic, "ld");
        assert_eq!(ins.operands, "a0, 8(sp)");
        assert_eq!(size, 4);
        let (ins, size) = dispatcher.disassemble_bytes(&[0x05, 0x25], arch, 0).ok().unwrap();
        assert_eq!(ins.mnemonic, "addiw");
        assert_eq!(ins.operands, "a0, a0, 1");
        assert_eq!(size, 2);
        let (ins, _) = dispatcher.disassemble_bytes(&[0x33, 0x85, 0xc5, 0x00], arch, 0).ok().unwrap();
        assert_eq!(ins.mnemonic, "add");
        assert_eq!(ins.operands, "a0, a1, a2");
    }
}

#[test]
fn handlers_answer_to_their_names() {
    for handler in [RiscVHandler::new(), RiscVHandler::with_xlen(Xlen::Rv32), RiscVHandler::with_xlen(Xlen::Rv64)] {
        assert!(handler.supports("riscv"));
        assert!(handler.supports("riscv32"));
        assert!(handler.supports("riscv64"));
        assert!(!handler.supports("riscv128"));
        assert!(!handler.supports("RISCV"));
        assert!(!handler.supports(""));
        assert_eq!(handler.name(), "riscv");
    }
    assert_eq!(RiscVHandler::new().xlen, Xlen::Rv64);
}

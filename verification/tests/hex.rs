use robustone_core::utils::{architecture_endianness, strip_prefix, Endianness, HexParser, ParseError};
use robustone_core::ArchitectureDispatcher;

#[test]
fn prefix_is_optional() {
    let parser = HexParser::new();
    assert_eq!(parser.parse("0x1234", Endianness::Big), Ok(vec![0x12, 0x34]));
    assert_eq!(parser.parse("1234", Endianness::Big), Ok(vec![0x12, 0x34]));
    assert_eq!(parser.parse("0x1234", Endianness::Little), Ok(vec![0x34, 0x12]));
    assert_eq!(parser.parse("1234", Endianness::Little), Ok(vec![0x34, 0x12]));
    assert_eq!(parser.parse("0x1234", Endianness::Little).unwrap().len(), 2);
}

#[test]
fn digits_in_either_case() {
    let parser = HexParser::new();
    assert_eq!(parser.parse("DeadBEEF", Endianness::Big), Ok(vec![0xde, 0xad, 0xbe, 0xef]));
    assert_eq!(parser.parse("deadbeef", Endianness::Little), Ok(vec![0xef, 0xbe, 0xad, 0xde]));
    assert_eq!(parser.parse("0x0123456789abcdef", Endianness::Big), Ok(vec![0x01, 0x23, 0x45, 0x67, 0x89, 0xab, 0xcd, 0xef]));
    assert_eq!(parser.parse("0xABCDEF", Endianness::Big), Ok(vec![0xab, 0xcd, 0xef]));
    assert_eq!(parser.parse("00", Endianness::Little), Ok(vec![0]));
    assert_eq!(parser.parse("ff", Endianness::Little), Ok(vec![255]));
}

#[test]
fn parse_errors() {
    let parser = HexParser::new();
    assert_eq!(parser.parse("", Endianness::Little), Err(ParseError::Empty));
    assert_eq!(parser.parse("0x", Endianness::Little), Err(ParseError::Empty));
    assert_eq!(parser.parse("1", Endianness::Little), Err(ParseError::OddLength));
    assert_eq!(parser.parse("0x123", Endianness::Little), Err(ParseError::OddLength));
    assert_eq!(parser.parse("x", Endianness::Little), Err(ParseError::OddLength));
    assert_eq!(parser.parse("zz", Endianness::Little), Err(ParseError::InvalidCharacter { index: 0 }));
    assert_eq!(parser.parse("12g4", Endianness::Little), Err(ParseError::InvalidCharacter { index: 2 }));
    assert_eq!(parser.parse("0x123g", Endianness::Little), Err(ParseError::InvalidCharacter { index: 5 }));
    assert_eq!(parser.parse("0X12", Endianness::Little), Err(ParseError::InvalidCharacter { index: 1 }));
    assert_eq!(parser.parse("0x0x12", Endianness::Little), Err(ParseError::InvalidCharacter { index: 3 }));
    assert_eq!(parser.parse("12 4", Endianness::Little), Err(ParseError::InvalidCharacter { index: 2 }));
    assert_eq!(parser.parse("1/", Endianness::Big), Err(ParseError::InvalidCharacter { index: 1 }));
    assert_eq!(parser.parse("1:", Endianness::Big), Err(ParseError::InvalidCharacter { index: 1 }));
    assert_eq!(parser.parse("@1", Endianness::Big), Err(ParseError::InvalidCharacter { index: 0 }));
    assert_eq!(parser.parse("G1", Endianness::Big), Err(ParseError::InvalidCharacter { index: 0 }));
    assert_eq!(parser.parse("`1", Endianness::Big), Err(ParseError::InvalidCharacter { index: 0 }));
}

#[test]
fn text_beyond_ascii() {
    let parser = HexParser::new();
    assert_eq!(parser.parse("12é4", Endianness::Little), Err(ParseError::InvalidCharacter { index: 2 }));
    assert_eq!(parser.parse("é", Endianness::Little), Err(ParseError::OddLength));
    assert_eq!(parser.parse("0xé1", Endianness::Little), Err(ParseError::InvalidCharacter { index: 2 }));
    assert_eq!(parser.parse("日本", Endianness::Little), Err(ParseError::InvalidCharacter { index: 0 }));
    assert_eq!(strip_prefix("0xé1"), "é1");
}

#[test]
fn byte_order_by_architecture() {
    let parser = HexParser::new();
    assert_eq!(architecture_endianness("riscv32"), Endianness::Little);
    assert_eq!(architecture_endianness("unknown"), Endianness::Little);
    assert_eq!(architecture_endianness(""), Endianness::Little);
    for name in ["armbe", "aarch64be", "mips", "mips64", "ppc", "ppc64", "sparc", "sparc64", "s390x"] {
        assert_eq!(architecture_endianness(name), Endianness::Big);
    }
    assert_eq!(parser.parse_for_architecture("12345678", "riscv64"), Ok(vec![0x78, 0x56, 0x34, 0x12]));
    assert_eq!(parser.parse_for_architecture("12345678", "mips"), Ok(vec![0x12, 0x34, 0x56, 0x78]));
    assert_eq!(parser.parse_for_architecture("0x1g", "mips"), Err(ParseError::InvalidCharacter { index: 3 }));
}

#[test]
fn prefix_stripping() {
    assert_eq!(strip_prefix("0x1234"), "1234");
    assert_eq!(strip_prefix("1234"), "1234");
    assert_eq!(strip_prefix("0x"), "");
    assert_eq!(strip_prefix(""), "");
    assert_eq!(strip_prefix("0"), "0");
    assert_eq!(strip_prefix("0X12"), "0X12");
    assert_eq!(strip_prefix("0x0x12"), "0x12");
}

#[test]
fn convenience_path_decodes() {
    let dispatcher = ArchitectureDispatcher::new();
    let ins = dispatcher.disassemble("00000513", "riscv32".to_string());
    assert_eq!(ins.mnemonic, "addi");
    assert_eq!(ins.operands, "a0, zero, 0");
    assert_eq!(ins.bytes, vec![0x13, 0x05, 0x00, 0x00]);
    assert_eq!(ins.size, 4);
    assert_eq!(ins.address, 0);
    let ins = dispatcher.disassemble("13000513", "riscv32".to_string());
    assert_eq!(ins.mnemonic, "addi");
    assert_eq!(ins.operands, "a0, zero, 304");
    let ins = dispatcher.disassemble("0x00113423", "riscv64".to_string());
    assert_eq!(ins.mnemonic, "sd");
    assert_eq!(ins.operands, "ra, 8(sp)");
    let ins = dispatcher.disassemble("0x1141", "riscv".to_string());
    assert_eq!(ins.mnemonic, "addi");
    assert_eq!(ins.operands, "sp, sp, -16");
    assert_eq!(ins.size, 2);
    let ins = dispatcher.disassemble("ffffffff", "riscv32".to_string());
    assert_eq!(ins.mnemonic, "unknown");
    assert_eq!(ins.operands, "0xffffffff");
    assert_eq!(ins.size, 4);
}

#[test]
fn convenience_path_never_fails() {
    let dispatcher = ArchitectureDispatcher::new();
    let cases: [(&str, &str, &str, Vec<u8>); 12] = [
        ("", "riscv32", "(parse error: )", vec![]),
        ("", "", "(parse error: )", vec![]),
        ("0x", "riscv32", "(parse error: 0x)", vec![]),
        ("123", "riscv32", "(parse error: 123)", vec![]),
        ("xyz!", "riscv32", "(parse error: xyz!)", vec![]),
        ("12é4", "nothing", "(parse error: 12é4)", vec![]),
        ("0x0x12", "riscv32", "(parse error: 0x0x12)", vec![]),
        ("deadbeef", "unknown", "0xdeadbeef", vec![0xef, 0xbe, 0xad, 0xde]),
        ("0xDEADbeef", "", "0xDEADbeef", vec![0xef, 0xbe, 0xad, 0xde]),
        ("0x1234", "mips", "0x1234", vec![0x12, 0x34]),
        ("13", "riscv32", "0x13", vec![0x13]),
        ("0513", "riscv64", "0x0513", vec![0x13, 0x05]),
    ];
    for (hex, arch, operands, bytes) in cases {
        let ins = dispatcher.disassemble(hex, arch.to_string());
        assert_eq!(ins.mnemonic, "unknown", "{hex:?} for {arch:?}");
        assert!(ins.is_unknown());
        assert_eq!(ins.operands, operands, "{hex:?} for {arch:?}");
        assert_eq!(ins.size, ins.bytes.len());
        assert_eq!(ins.bytes, bytes, "{hex:?} for {arch:?}");
        assert_eq!(ins.address, 0);
        assert!(ins.detail.is_none());
        assert!(!ins.operands.is_empty());
    }
}

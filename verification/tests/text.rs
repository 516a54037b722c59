use robustone_core::text::{append_dec, append_fill, append_hex, append_signed, digit_str, hex_len, str_eq};

#[test]
fn text_equality() {
    assert!(str_eq("", ""));
    assert!(str_eq("riscv", "riscv"));
    assert!(!str_eq("riscv", "riscv32"));
    assert!(!str_eq("riscv32", "riscv64"));
    assert!(!str_eq("a", ""));
    assert!(str_eq("日本", "日本"));
    assert!(!str_eq("日本", "日木"));
}

#[test]
fn digits() {
    let all: String = (0..16u8).map(digit_str).collect();
    assert_eq!(all, "0123456789abcdef");
    assert_eq!(digit_str(16), "f");
    assert_eq!(digit_str(255), "f");
}

#[test]
fn numbers() {
    let dec = |n: u64| {
        let mut s = String::from(">");
        append_dec(&mut s, n);
        s
    };
    assert_eq!(dec(0), ">0");
    assert_eq!(dec(9), ">9");
    assert_eq!(dec(10), ">10");
    assert_eq!(dec(1234567890), ">1234567890");
    assert_eq!(dec(u64::MAX), ">18446744073709551615");
    let hex = |n: u64| {
        let mut s = String::from(">");
        append_hex(&mut s, n);
        s
    };
    assert_eq!(hex(0), ">0");
    assert_eq!(hex(15), ">f");
    assert_eq!(hex(16), ">10");
    assert_eq!(hex(0xdeadbeef), ">deadbeef");
    assert_eq!(hex(u64::MAX), ">ffffffffffffffff");
    let signed = |n: i64| {
        let mut s = String::from(">");
        append_signed(&mut s, n);
        s
    };
    assert_eq!(signed(0), ">0");
    assert_eq!(signed(-1), ">-1");
    assert_eq!(signed(2047), ">2047");
    assert_eq!(signed(-2048), ">-2048");
    assert_eq!(signed(i64::MAX), ">9223372036854775807");
    assert_eq!(signed(i64::MIN), ">-9223372036854775808");
}

#[test]
fn lengths_and_fill() {
    assert_eq!(hex_len(0), 1);
    assert_eq!(hex_len(15), 1);
    assert_eq!(hex_len(16), 2);
    assert_eq!(hex_len(0xfffffff), 7);
    assert_eq!(hex_len(0x10000000), 8);
    assert_eq!(hex_len(u64::MAX), 16);
    let mut s = String::from("a");
    append_fill(&mut s, "-", 0);
    assert_eq!(s, "a");
    append_fill(&mut s, "-", 3);
    assert_eq!(s, "a---");
    append_fill(&mut s, "é", 2);
    assert_eq!(s, "a---éé");
}

//! Turning hexadecimal text into the bytes to decode.
//!
//! The text is read as one number, most significant digit first, as it
//! would stand in a listing; for a little-endian architecture the bytes
//! come out in the opposite order, which is the order in memory.

use crate::text::str_eq;
use vstd::prelude::*;
use vstd::string::*;
use vstd::utf8::{char_u32_cast, is_ascii_chars_nat_bound};

verus! {

/// The order of the bytes of a number in memory.
#[derive(Debug, Clone, Copy, PartialEq, Eq, Structural)]
pub enum Endianness {
    /// Least significant byte first.
    Little,
    /// Most significant byte first.
    Big,
}

/// Why a text is not a hexadecimal byte string.
#[derive(Debug, Clone, Copy, PartialEq, Eq, Structural)]
pub enum ParseError {
    /// There are no digits.
    Empty,
    /// The number of digits is odd.
    OddLength,
    /// The character at `index` of the text is no hexadecimal digit, and it
    /// is the first such character behind the prefix.
    InvalidCharacter { index: usize },
}

/// Whether the text starts with `0x`.
pub open spec fn has_prefix(s: Seq<char>) -> bool {
    s.len() >= 2 && s[0] == '0' && s[1] == 'x'
}

/// The number of characters that the prefix takes up: 2 or 0.
pub open spec fn prefix_len(s: Seq<char>) -> nat {
    if has_prefix(s) {
        2
    } else {
        0
    }
}

/// The text without its `0x` prefix, if it has one.
pub open spec fn digits_of(s: Seq<char>) -> Seq<char> {
    s.subrange(prefix_len(s) as int, s.len() as int)
}

/// The value of the hexadecimal digit with the given code point, in either
/// case; `None` for every other character.
pub open spec fn code_value(code: u32) -> Option<u8> {
    if 0x30 <= code <= 0x39 {
        Some((code - 0x30) as u8)
    } else if 0x61 <= code <= 0x66 {
        Some((code - 0x61 + 10) as u8)
    } else if 0x41 <= code <= 0x46 {
        Some((code - 0x41 + 10) as u8)
    } else {
        None
    }
}

/// The value of a hexadecimal digit.
pub open spec fn digit_value(c: char) -> Option<u8> {
    code_value(c as u32)
}

/// The byte that the digits at `2 * k` and `2 * k + 1` write.
pub open spec fn byte_at(digits: Seq<char>, k: int) -> u8 {
    (16 * digit_value(digits[2 * k])->0 + digit_value(digits[2 * k + 1])->0) as u8
}

/// The bytes that the digits write, two digits a byte, in the order of the
/// text.
pub open spec fn bytes_in_text_order(digits: Seq<char>) -> Seq<u8> {
    Seq::new(digits.len() / 2, |k: int| byte_at(digits, k))
}

/// The bytes in memory order: as written for a big-endian target, reversed
/// for a little-endian one.
pub open spec fn in_memory_order(bytes: Seq<u8>, endianness: Endianness) -> Seq<u8> {
    match endianness {
        Endianness::Big => bytes,
        Endianness::Little => bytes.reverse(),
    }
}

/// `index` is the place of the first character that is no hexadecimal
/// digit.
pub open spec fn is_first_invalid(digits: Seq<char>, index: int) -> bool {
    &&& 0 <= index < digits.len()
    &&& digit_value(digits[index]) is None
    &&& forall|j: int| 0 <= j < index ==> digit_value(#[trigger] digits[j]) is Some
}

/// What a text parses to: behind an optional `0x`, an even, non-zero
/// number of hexadecimal digits in either case. The checks come in this
/// order: no digits, an odd number of them, a character that is no digit.
pub open spec fn parse_hex(s: Seq<char>, endianness: Endianness) -> Result<Seq<u8>, ParseError> {
    let digits = digits_of(s);
    if digits.len() == 0 {
        Err(ParseError::Empty)
    } else if digits.len() % 2 != 0 {
        Err(ParseError::OddLength)
    } else if exists|i: int| is_first_invalid(digits, i) {
        Err(
            ParseError::InvalidCharacter {
                index: (prefix_len(s) + choose|i: int| is_first_invalid(digits, i)) as usize,
            },
        )
    } else {
        Ok(in_memory_order(bytes_in_text_order(digits), endianness))
    }
}

/// The names of the architectures whose memory is big-endian.
pub open spec fn is_big_endian_name(arch: Seq<char>) -> bool {
    arch == "armbe"@ || arch == "aarch64be"@ || arch == "mips"@ || arch == "mips64"@ || arch
        == "ppc"@ || arch == "ppc64"@ || arch == "sparc"@ || arch == "sparc64"@ || arch
        == "s390x"@
}

/// The byte order of an architecture by its name: big-endian for the names
/// of [`is_big_endian_name`], little-endian for every other name, known
/// or not.
pub open spec fn endianness_of(arch: Seq<char>) -> Endianness {
    if is_big_endian_name(arch) {
        Endianness::Big
    } else {
        Endianness::Little
    }
}

/// At most one place is the first invalid one.
pub proof fn lemma_first_invalid_unique(digits: Seq<char>, a: int, b: int)
    requires
        is_first_invalid(digits, a),
        is_first_invalid(digits, b),
    ensures
        a == b,
{
    if a < b {
        assert(digit_value(digits[a]) is Some);
    } else if b < a {
        assert(digit_value(digits[b]) is Some);
    }
}

/// A `0x` in front changes nothing but the place of an invalid character:
/// for digits that do not themselves start with `0x`, the text with the
/// prefix parses exactly when the text without it does, to the same bytes,
/// and fails in the same way.
pub proof fn lemma_prefix_is_optional(digits: Seq<char>, endianness: Endianness)
    requires
        !has_prefix(digits),
        digits.len() + 2 <= usize::MAX,
    ensures
        digits_of(seq!['0', 'x'] + digits) == digits,
        digits_of(digits) == digits,
        match parse_hex(digits, endianness) {
            Ok(bytes) => parse_hex(seq!['0', 'x'] + digits, endianness) == Ok::<
                Seq<u8>,
                ParseError,
            >(bytes),
            Err(ParseError::InvalidCharacter { index }) => parse_hex(
                seq!['0', 'x'] + digits,
                endianness,
            ) == Err::<Seq<u8>, ParseError>(
                ParseError::InvalidCharacter { index: (index + 2) as usize },
            ),
            Err(e) => parse_hex(seq!['0', 'x'] + digits, endianness) == Err::<
                Seq<u8>,
                ParseError,
            >(e),
        },
{
    let with = seq!['0', 'x'] + digits;
    assert(has_prefix(with));
    assert(digits_of(with) =~= digits);
    assert(digits_of(digits) =~= digits);
    if exists|i: int| is_first_invalid(digits, i) {
        let chosen = choose|i: int| is_first_invalid(digits, i);
        assert(0 <= chosen < digits.len());
    }
}

/// The number of bytes is half the number of digits.
pub proof fn lemma_parsed_length(s: Seq<char>, endianness: Endianness)
    ensures
        parse_hex(s, endianness) matches Ok(bytes) ==> 2 * bytes.len() == digits_of(s).len()
            && bytes.len() >= 1,
{
}

/// The number of characters of `text`.
fn char_count(text: &str, ascii: bool) -> (count: usize)
    requires
        ascii == is_ascii(text),
    ensures
        count == text@.len(),
{
    if ascii {
        proof {
            is_ascii_spec_bytes(text);
        }
        text.as_bytes().len()
    } else {
        text.unicode_len()
    }
}

/// The code point of the character at `at`.
fn code_at(text: &str, ascii: bool, at: usize) -> (code: u32)
    requires
        ascii == is_ascii(text),
        at < text@.len(),
    ensures
        code == text@[at as int] as u32,
{
    if ascii {
        proof {
            is_ascii_chars_nat_bound(text@);
        }
        text.get_ascii(at) as u32
    } else {
        text.get_char(at) as u32
    }
}

/// The value of the hexadecimal digit with code point `code`.
pub fn value_of_code(code: u32) -> (value: Option<u8>)
    ensures
        value == code_value(code),
        value matches Some(v) ==> v < 16,
{
    if 0x30 <= code && code <= 0x39 {
        Some((code - 0x30) as u8)
    } else if 0x61 <= code && code <= 0x66 {
        Some((code - 0x61 + 10) as u8)
    } else if 0x41 <= code && code <= 0x46 {
        Some((code - 0x41 + 10) as u8)
    } else {
        None
    }
}

/// The bytes in the opposite order.
pub fn reversed(bytes: Vec<u8>) -> (out: Vec<u8>)
    ensures
        out@ == bytes@.reverse(),
{
    let mut out: Vec<u8> = Vec::new();
    let mut left: usize = bytes.len();
    while left > 0
        invariant
            left <= bytes@.len(),
            out@.len() == bytes@.len() - left,
            forall|k: int| 0 <= k < out@.len() ==> out@[k] == bytes@[bytes@.len() - 1 - k],
        decreases left,
    {
        left = left - 1;
        out.push(bytes[left]);
    }
    assert(out@ =~= bytes@.reverse());
    out
}

/// The byte order of the architecture called `arch`.
pub fn architecture_endianness(arch: &str) -> (endianness: Endianness)
    ensures
        endianness == endianness_of(arch@),
{
    if str_eq(arch, "armbe") || str_eq(arch, "aarch64be") || str_eq(arch, "mips") || str_eq(
        arch,
        "mips64",
    ) || str_eq(arch, "ppc") || str_eq(arch, "ppc64") || str_eq(arch, "sparc") || str_eq(
        arch,
        "sparc64",
    ) || str_eq(arch, "s390x") {
        Endianness::Big
    } else {
        Endianness::Little
    }
}

/// Two characters with the same code point are the same character.
pub proof fn lemma_same_code_same_char(a: char, b: char)
    requires
        a as u32 == b as u32,
    ensures
        a == b,
{
    char_u32_cast(a, a as u32);
    char_u32_cast(b, b as u32);
}

/// The number of characters that the prefix of `text` takes up.
fn prefix_length(text: &str, ascii: bool, count: usize) -> (start: usize)
    requires
        ascii == is_ascii(text),
        count == text@.len(),
    ensures
        start == prefix_len(text@),
        start <= count,
{
    if count >= 2 && code_at(text, ascii, 0) == 0x30 && code_at(text, ascii, 1) == 0x78 {
        proof {
            lemma_same_code_same_char(text@[0], '0');
            lemma_same_code_same_char(text@[1], 'x');
        }
        2
    } else {
        0
    }
}

/// The text without its `0x` prefix, if it has one.
pub fn strip_prefix(text: &str) -> (digits: &str)
    ensures
        digits@ == digits_of(text@),
{
    let ascii = text.is_ascii();
    let count = char_count(text, ascii);
    let start = prefix_length(text, ascii, count);
    text.substring_char(start, count)
}

/// Reads hexadecimal text.
pub struct HexParser {}

impl HexParser {
    /// A parser.
    pub fn new() -> (parser: Self) {
        HexParser {  }
    }

    /// Reads `hex` and gives its bytes in the memory order of
    /// `endianness` (see [`parse_hex`]).
    pub fn parse(&self, hex: &str, endianness: Endianness) -> (result: Result<Vec<u8>, ParseError>)
        ensures
            match result {
                Ok(bytes) => parse_hex(hex@, endianness) == Ok::<Seq<u8>, ParseError>(bytes@),
                Err(e) => parse_hex(hex@, endianness) == Err::<Seq<u8>, ParseError>(e),
            },
    {
        let ascii = hex.is_ascii();
        let count = char_count(hex, ascii);
        let start = prefix_length(hex, ascii, count);
        let ghost digits = digits_of(hex@);
        if count - start == 0 {
            return Err(ParseError::Empty);
        }
        if (count - start) % 2 != 0 {
            return Err(ParseError::OddLength);
        }
        let mut bytes: Vec<u8> = Vec::new();
        let mut at: usize = start;
        while at < count
            invariant
                ascii == is_ascii(hex),
                count == hex@.len(),
                start == prefix_len(hex@),
                digits == digits_of(hex@),
                start <= at <= count,
                (count - start) % 2 == 0,
                (at - start) % 2 == 0,
                bytes@.len() == (at - start) / 2,
                forall|j: int| 0 <= j < at - start ==> digit_value(#[trigger] digits[j]) is Some,
                forall|k: int| 0 <= k < bytes@.len() ==> bytes@[k] == byte_at(digits, k),
            decreases count - at,
        {
            let high = match value_of_code(code_at(hex, ascii, at)) {
                Some(v) => v,
                None => {
                    proof {
                        assert(is_first_invalid(digits, at - start));
                        let chosen = choose|i: int| is_first_invalid(digits, i);
                        lemma_first_invalid_unique(digits, chosen, at - start);
                    }
                    return Err(ParseError::InvalidCharacter { index: at });
                },
            };
            let low = match value_of_code(code_at(hex, ascii, at + 1)) {
                Some(v) => v,
                None => {
                    proof {
                        assert(is_first_invalid(digits, at + 1 - start));
                        let chosen = choose|i: int| is_first_invalid(digits, i);
                        lemma_first_invalid_unique(digits, chosen, at + 1 - start);
                    }
                    return Err(ParseError::InvalidCharacter { index: at + 1 });
                },
            };
            bytes.push(high * 16 + low);
            at = at + 2;
        }
        proof {
            assert forall|i: int| !is_first_invalid(digits, i) by {
                if 0 <= i < digits.len() {
                    assert(digit_value(digits[i]) is Some);
                }
            }
            assert(bytes@ =~= bytes_in_text_order(digits));
        }
        match endianness {
            Endianness::Big => Ok(bytes),
            Endianness::Little => Ok(reversed(bytes)),
        }
    }

    /// Reads `hex` and gives its bytes in the memory order of the
    /// architecture called `arch`.
    pub fn parse_for_architecture(&self, hex: &str, arch: &str) -> (result: Result<
        Vec<u8>,
        ParseError,
    >)
        ensures
            match result {
                Ok(bytes) => parse_hex(hex@, endianness_of(arch@)) == Ok::<Seq<u8>, ParseError>(
                    bytes@,
                ),
                Err(e) => parse_hex(hex@, endianness_of(arch@)) == Err::<Seq<u8>, ParseError>(e),
            },
    {
        self.parse(hex, architecture_endianness(arch))
    }
}

} // verus!

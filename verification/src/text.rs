//! Text as sequences of characters: comparison, digits, numbers in decimal
//! and hexadecimal, padding.

use vstd::arithmetic::power2::{lemma2_to64, lemma2_to64_rest, lemma_pow2_adds, pow2};
use vstd::prelude::*;
use vstd::string::*;
use vstd::utf8::encode_utf8_decode_utf8;

verus! {

/// The lower-case digit that stands for `d` in bases up to sixteen;
/// numbers from 15 on give `f`.
pub open spec fn digit_char(d: nat) -> char {
    if d == 0 {
        '0'
    } else if d == 1 {
        '1'
    } else if d == 2 {
        '2'
    } else if d == 3 {
        '3'
    } else if d == 4 {
        '4'
    } else if d == 5 {
        '5'
    } else if d == 6 {
        '6'
    } else if d == 7 {
        '7'
    } else if d == 8 {
        '8'
    } else if d == 9 {
        '9'
    } else if d == 10 {
        'a'
    } else if d == 11 {
        'b'
    } else if d == 12 {
        'c'
    } else if d == 13 {
        'd'
    } else if d == 14 {
        'e'
    } else {
        'f'
    }
}

/// `n` in decimal, most significant digit first, without leading zeros.
pub open spec fn dec_text(n: nat) -> Seq<char>
    decreases n,
{
    if n < 10 {
        seq![digit_char(n)]
    } else {
        dec_text(n / 10).push(digit_char(n % 10))
    }
}

/// `n` in lower-case hexadecimal, most significant digit first, without
/// leading zeros or prefix.
pub open spec fn hex_text(n: nat) -> Seq<char>
    decreases n,
{
    if n < 16 {
        seq![digit_char(n)]
    } else {
        hex_text(n / 16).push(digit_char(n % 16))
    }
}

/// `i` in decimal, with a minus sign in front of negative numbers.
pub open spec fn signed_text(i: int) -> Seq<char> {
    if i < 0 {
        seq!['-'] + dec_text((-i) as nat)
    } else {
        dec_text(i as nat)
    }
}

/// `count` copies of `c`.
pub open spec fn fill(c: char, count: nat) -> Seq<char> {
    Seq::new(count, |i: int| c)
}

/// `text` with zeros in front, up to `width` characters; longer text is
/// left as it is.
pub open spec fn zero_padded(text: Seq<char>, width: nat) -> Seq<char> {
    if text.len() >= width {
        text
    } else {
        fill('0', (width - text.len()) as nat) + text
    }
}

/// `text` with spaces behind, up to `width` characters; longer text is
/// left as it is.
pub open spec fn space_padded(text: Seq<char>, width: nat) -> Seq<char> {
    if text.len() >= width {
        text
    } else {
        text + fill(' ', (width - text.len()) as nat)
    }
}

/// Two lower-case hexadecimal digits for every byte, high half first.
pub open spec fn hex_string(bytes: Seq<u8>) -> Seq<char> {
    Seq::new(
        2 * bytes.len(),
        |i: int|
            if i % 2 == 0 {
                digit_char((bytes[i / 2] / 16) as nat)
            } else {
                digit_char((bytes[i / 2] % 16) as nat)
            },
    )
}

/// A number in decimal or hexadecimal has at least one digit.
pub proof fn lemma_number_text_nonempty(n: nat)
    ensures
        dec_text(n).len() >= 1,
        hex_text(n).len() >= 1,
    decreases n,
{
    if n >= 10 {
        lemma_number_text_nonempty(n / 10);
    }
    if n >= 16 {
        lemma_number_text_nonempty(n / 16);
    }
}

/// Whether two strings hold the same characters.
pub fn str_eq(a: &str, b: &str) -> (same: bool)
    ensures
        same == (a@ == b@),
{
    let x = a.as_bytes();
    let y = b.as_bytes();
    proof {
        encode_utf8_decode_utf8(a@);
        encode_utf8_decode_utf8(b@);
    }
    if x.len() != y.len() {
        return false;
    }
    let mut i: usize = 0;
    while i < x.len()
        invariant
            i <= x@.len(),
            x@.len() == y@.len(),
            x@ == a.spec_bytes(),
            y@ == b.spec_bytes(),
            forall|j: int| 0 <= j < i ==> x@[j] == y@[j],
        decreases x@.len() - i,
    {
        if x[i] != y[i] {
            return false;
        }
        i = i + 1;
    }
    assert(x@ =~= y@);
    true
}

/// The one-character string that holds the digit for `d` (see
/// [`digit_char`]).
pub fn digit_str(d: u8) -> (s: &'static str)
    ensures
        s@ == seq![digit_char(d as nat)],
{
    proof {
        reveal_strlit("0");
        reveal_strlit("1");
        reveal_strlit("2");
        reveal_strlit("3");
        reveal_strlit("4");
        reveal_strlit("5");
        reveal_strlit("6");
        reveal_strlit("7");
        reveal_strlit("8");
        reveal_strlit("9");
        reveal_strlit("a");
        reveal_strlit("b");
        reveal_strlit("c");
        reveal_strlit("d");
        reveal_strlit("e");
        reveal_strlit("f");
    }
    let s = if d == 0 {
        "0"
    } else if d == 1 {
        "1"
    } else if d == 2 {
        "2"
    } else if d == 3 {
        "3"
    } else if d == 4 {
        "4"
    } else if d == 5 {
        "5"
    } else if d == 6 {
        "6"
    } else if d == 7 {
        "7"
    } else if d == 8 {
        "8"
    } else if d == 9 {
        "9"
    } else if d == 10 {
        "a"
    } else if d == 11 {
        "b"
    } else if d == 12 {
        "c"
    } else if d == 13 {
        "d"
    } else if d == 14 {
        "e"
    } else {
        "f"
    };
    assert(s@ =~= seq![digit_char(d as nat)]);
    s
}

/// Appends `n` in decimal.
pub fn append_dec(out: &mut String, n: u64)
    ensures
        final(out)@ == old(out)@ + dec_text(n as nat),
    decreases n,
{
    if n >= 10 {
        append_dec(out, n / 10);
    }
    out.append(digit_str((n % 10) as u8));
    assert(out@ =~= old(out)@ + dec_text(n as nat));
}

/// Appends `n` in lower-case hexadecimal.
pub fn append_hex(out: &mut String, n: u64)
    ensures
        final(out)@ == old(out)@ + hex_text(n as nat),
    decreases n,
{
    if n >= 16 {
        append_hex(out, n / 16);
    }
    out.append(digit_str((n % 16) as u8));
    assert(out@ =~= old(out)@ + hex_text(n as nat));
}

/// Appends `i` in decimal, with its sign.
pub fn append_signed(out: &mut String, i: i64)
    ensures
        final(out)@ == old(out)@ + signed_text(i as int),
{
    if i < 0 {
        proof {
            reveal_strlit("-");
        }
        out.append("-");
        let magnitude: u64 = if i == i64::MIN {
            9223372036854775808u64
        } else {
            (-i) as u64
        };
        append_dec(out, magnitude);
        assert(out@ =~= old(out)@ + signed_text(i as int));
    } else {
        append_dec(out, i as u64);
    }
}

/// A number below `16^digits` has at most `digits` hexadecimal digits.
pub proof fn lemma_hex_text_len(n: nat, digits: nat)
    requires
        digits >= 1,
        n < pow2(4 * digits),
    ensures
        hex_text(n).len() <= digits,
    decreases digits,
{
    if n >= 16 {
        lemma_pow2_adds((4 * (digits - 1)) as nat, 4);
        lemma2_to64();
        if digits > 1 {
            lemma_hex_text_len(n / 16, (digits - 1) as nat);
        }
    }
}

/// The number of digits of `n` in hexadecimal.
pub fn hex_len(n: u64) -> (len: usize)
    ensures
        len == hex_text(n as nat).len(),
        1 <= len <= 16,
    decreases n,
{
    proof {
        lemma2_to64_rest();
        lemma_hex_text_len(n as nat, 16);
        lemma_number_text_nonempty(n as nat);
    }
    if n < 16 {
        1
    } else {
        hex_len(n / 16) + 1
    }
}

/// Appends `count` copies of the one character that `piece` holds.
pub fn append_fill(out: &mut String, piece: &str, count: usize)
    requires
        piece@.len() == 1,
    ensures
        final(out)@ == old(out)@ + fill(piece@[0], count as nat),
{
    let mut done: usize = 0;
    assert(out@ =~= old(out)@ + fill(piece@[0], 0));
    while done < count
        invariant
            done <= count,
            piece@.len() == 1,
            out@ == old(out)@ + fill(piece@[0], done as nat),
        decreases count - done,
    {
        out.append(piece);
        done = done + 1;
        assert(out@ =~= old(out)@ + fill(piece@[0], done as nat));
    }
}

} // verus!

//! The decoded instruction.

use crate::text::{
    append_fill, append_hex, hex_len, hex_string, hex_text, space_padded, str_eq, zero_padded,
};
use crate::traits::instruction::{BasicInstructionDetail, Detail, DetailView};
use vstd::prelude::*;
use vstd::string::*;

verus! {

/// One decoded instruction.
///
/// `size` is the number of bytes in `bytes` (see [`Instruction::wf`]); every
/// constructor of this type sets it so.
pub struct Instruction {
    /// Where the instruction was loaded; handed through from the caller.
    pub address: u64,
    /// The bytes that make up this instruction, and no others.
    pub bytes: Vec<u8>,
    /// The operation's short name; `"unknown"` marks bytes that could not
    /// be decoded.
    pub mnemonic: String,
    /// The operands in the architecture's syntax.
    pub operands: String,
    /// The number of bytes consumed.
    pub size: usize,
    /// What the decoder knows beyond the text, if anything.
    pub detail: Option<Box<dyn Detail>>,
}

/// An [`Instruction`] as mathematical values.
pub struct InstructionView {
    pub address: u64,
    pub bytes: Seq<u8>,
    pub mnemonic: Seq<char>,
    pub operands: Seq<char>,
    pub size: nat,
    pub detail: Option<DetailView>,
}

impl View for Instruction {
    type V = InstructionView;

    open spec fn view(&self) -> InstructionView {
        InstructionView {
            address: self.address,
            bytes: self.bytes@,
            mnemonic: self.mnemonic@,
            operands: self.operands@,
            size: self.size as nat,
            detail: match self.detail {
                Some(d) => Some(
                    DetailView {
                        architecture: d.spec_architecture_name(),
                        registers_read: d.spec_registers_read(),
                        registers_written: d.spec_registers_written(),
                    },
                ),
                None => None,
            },
        }
    }
}

/// The operand text of an instruction that could not be decoded: `0x` and
/// the bytes in hexadecimal, in the order in which they stand in memory.
pub open spec fn unknown_operands(bytes: Seq<u8>) -> Seq<char> {
    "0x"@ + hex_string(bytes)
}

/// The instruction that stands for undecodable `bytes` at `address`.
pub open spec fn unknown_view(address: u64, bytes: Seq<u8>) -> InstructionView {
    InstructionView {
        address,
        bytes,
        mnemonic: "unknown"@,
        operands: unknown_operands(bytes),
        size: bytes.len(),
        detail: None,
    }
}

/// One line of a listing: `0x`, the address in at least eight hexadecimal
/// digits, a colon and a space, the mnemonic filled with spaces to at least
/// seven characters, a space, the operands.
pub open spec fn assembly_text(address: u64, mnemonic: Seq<char>, operands: Seq<char>) -> Seq<
    char,
> {
    "0x"@ + zero_padded(hex_text(address as nat), 8) + ": "@ + space_padded(mnemonic, 7) + " "@
        + operands
}

/// The operand text of an unknown instruction is never empty: it is two
/// characters longer than the hexadecimal form of the bytes, which it ends
/// with, and that form has two digits for each byte.
pub proof fn lemma_unknown_operands_hold_hex(bytes: Seq<u8>)
    ensures
        unknown_operands(bytes).len() == 2 + 2 * bytes.len(),
        unknown_operands(bytes).len() > 0,
        unknown_operands(bytes).subrange(2, unknown_operands(bytes).len() as int) == hex_string(
            bytes,
        ),
{
    reveal_strlit("0x");
    assert(unknown_operands(bytes).subrange(2, unknown_operands(bytes).len() as int)
        =~= hex_string(bytes));
}

/// `hex::encode` on a byte slice: the contract claims that the string holds
/// two lower-case hexadecimal digits for each byte, the high half first, in
/// the order of the bytes, and nothing else.
#[verifier::external_body]
fn encode_hex(bytes: &[u8]) -> (text: String)
    ensures
        text@ == hex_string(bytes@),
{
    hex::encode(bytes)
}

impl Instruction {
    /// `size` counts the bytes held.
    pub open spec fn wf(&self) -> bool {
        self.size == self.bytes@.len()
    }

    /// An instruction without annotation; `size` is the number of `bytes`.
    pub fn new(address: u64, bytes: Vec<u8>, mnemonic: String, operands: String) -> (ins: Self)
        ensures
            ins@ == (InstructionView {
                address,
                bytes: bytes@,
                mnemonic: mnemonic@,
                operands: operands@,
                size: bytes@.len(),
                detail: None,
            }),
            ins.wf(),
    {
        let size = bytes.len();
        Self { address, bytes, mnemonic, operands, size, detail: None }
    }

    /// An instruction that carries `detail`; `size` is the number of
    /// `bytes`.
    pub fn with_detail(
        address: u64,
        bytes: Vec<u8>,
        mnemonic: String,
        operands: String,
        detail: Box<dyn Detail>,
    ) -> (ins: Self)
        ensures
            ins@ == (InstructionView {
                address,
                bytes: bytes@,
                mnemonic: mnemonic@,
                operands: operands@,
                size: bytes@.len(),
                detail: Some(
                    DetailView {
                        architecture: detail.spec_architecture_name(),
                        registers_read: detail.spec_registers_read(),
                        registers_written: detail.spec_registers_written(),
                    },
                ),
            }),
            ins.wf(),
    {
        let size = bytes.len();
        let held = Some(detail);
        Self { address, bytes, mnemonic, operands, size, detail: held }
    }

    /// An instruction that carries an empty [`BasicInstructionDetail`] for
    /// `architecture`.
    pub fn with_basic_detail(
        address: u64,
        bytes: Vec<u8>,
        mnemonic: String,
        operands: String,
        architecture: &'static str,
    ) -> (ins: Self)
        ensures
            ins@ == (InstructionView {
                address,
                bytes: bytes@,
                mnemonic: mnemonic@,
                operands: operands@,
                size: bytes@.len(),
                detail: Some(
                    DetailView {
                        architecture: architecture@,
                        registers_read: Seq::empty(),
                        registers_written: Seq::empty(),
                    },
                ),
            }),
            ins.wf(),
    {
        let detail = BasicInstructionDetail::new(architecture);
        Instruction::with_detail(address, bytes, mnemonic, operands, Box::new(detail))
    }

    /// The instruction that stands for bytes that could not be decoded:
    /// mnemonic `unknown`, and as operands the bytes in hexadecimal behind
    /// `0x`.
    pub fn unknown(address: u64, bytes: Vec<u8>) -> (ins: Self)
        ensures
            ins@ == unknown_view(address, bytes@),
            ins.wf(),
    {
        let size = bytes.len();
        let digits = encode_hex(bytes.as_slice());
        let operands = String::from_str("0x").concat(digits.as_str());
        Self { address, bytes, mnemonic: "unknown".to_owned(), operands, size, detail: None }
    }

    /// Whether the mnemonic is `unknown`.
    pub fn is_unknown(&self) -> (yes: bool)
        ensures
            yes == (self.mnemonic@ == "unknown"@),
    {
        str_eq(self.mnemonic.as_str(), "unknown")
    }

    /// The instruction as one line of a listing (see [`assembly_text`]).
    pub fn assembly_line(&self) -> (line: String)
        ensures
            line@ == assembly_text(self.address, self.mnemonic@, self.operands@),
    {
        proof {
            reveal_strlit("0");
            reveal_strlit(" ");
        }
        let mut line = String::from_str("0x");
        let digits = hex_len(self.address);
        if digits < 8 {
            append_fill(&mut line, "0", 8 - digits);
        }
        append_hex(&mut line, self.address);
        assert(line@ =~= "0x"@ + zero_padded(hex_text(self.address as nat), 8));
        line.append(": ");
        line.append(self.mnemonic.as_str());
        let width = self.mnemonic.as_str().unicode_len();
        if width < 7 {
            append_fill(&mut line, " ", 7 - width);
        }
        assert(line@ =~= "0x"@ + zero_padded(hex_text(self.address as nat), 8) + ": "@
            + space_padded(self.mnemonic@, 7));
        line.append(" ");
        line.append(self.operands.as_str());
        line
    }
}

impl Default for Instruction {
    /// The unknown instruction at address 0 with no bytes. Like every
    /// unknown instruction it shows its bytes behind `0x`, so its operands
    /// are `0x` alone and not empty.
    fn default() -> (ins: Self)
        ensures
            ins@ == unknown_view(0, Seq::empty()),
            ins@.operands.len() == 2,
            ins.wf(),
    {
        proof {
            lemma_unknown_operands_hold_hex(Seq::empty());
        }
        Instruction::unknown(0, Vec::new())
    }
}

} // verus!

//! The RISC-V handler: from a byte buffer to one instruction.

use crate::riscv::compressed::{decode_half, decode_half_spec};
use crate::riscv::decode::{decode_word, decode_word_spec};
use crate::riscv::isa::Xlen;
use crate::riscv::syntax::{build_instruction, instruction_view, lemma_unknown_name_is_reserved};
use crate::text::str_eq;
use crate::traits::architecture::{consumes_prefix, ArchitectureHandler};
use crate::types::error::{DisasmError, DisasmErrorView};
use crate::types::instruction::{
    lemma_unknown_operands_hold_hex, unknown_operands, Instruction, InstructionView,
};
use vstd::prelude::*;
use vstd::slice::{slice_subrange, slice_to_vec};

verus! {

/// Whether an instruction that starts with the byte `first` is a 16-bit
/// one: the two lowest bits of an instruction are both set exactly in the
/// 32-bit encodings.
pub open spec fn is_compressed(first: u8) -> bool {
    first % 4 != 3
}

/// The halfword that the first two bytes hold, least significant first.
pub open spec fn half_value(bytes: Seq<u8>) -> nat {
    (bytes[0] + 256 * bytes[1]) as nat
}

/// The word that the first four bytes hold, least significant first.
pub open spec fn word_value(bytes: Seq<u8>) -> nat {
    (bytes[0] + 256 * bytes[1] + 65536 * bytes[2] + 16777216 * bytes[3]) as nat
}

/// The names that a RISC-V handler answers to: `riscv`, `riscv32` and
/// `riscv64`, spelled so. The name does not reach the decoder: a handler
/// decodes for the register width it was made with, whichever of the three
/// it was asked by.
pub open spec fn riscv_supports(arch_name: Seq<char>) -> bool {
    arch_name == "riscv"@ || arch_name == "riscv32"@ || arch_name == "riscv64"@
}

/// What the start of `bytes` decodes to. The first byte tells the width;
/// a buffer that is empty or ends before that width is insufficient.
/// Everything else decodes, if only to the unknown instruction of that
/// width.
pub open spec fn decode_spec(xlen: Xlen, bytes: Seq<u8>, addr: u64) -> Result<
    (InstructionView, usize),
    DisasmErrorView,
> {
    if bytes.len() == 0 {
        Err(DisasmErrorView::InsufficientBytes)
    } else if is_compressed(bytes[0]) {
        if bytes.len() < 2 {
            Err(DisasmErrorView::InsufficientBytes)
        } else {
            Ok(
                (
                    instruction_view(
                        decode_half_spec(half_value(bytes), xlen),
                        addr,
                        bytes.subrange(0, 2),
                    ),
                    2usize,
                ),
            )
        }
    } else {
        if bytes.len() < 4 {
            Err(DisasmErrorView::InsufficientBytes)
        } else {
            Ok(
                (
                    instruction_view(
                        decode_word_spec(word_value(bytes), xlen),
                        addr,
                        bytes.subrange(0, 4),
                    ),
                    4usize,
                ),
            )
        }
    }
}

/// Every successful decode takes a prefix of two or four bytes: the
/// instruction holds exactly these bytes, its size is their number, and
/// that number is what is reported as consumed.
pub proof fn lemma_decode_consumes_prefix(xlen: Xlen, bytes: Seq<u8>, addr: u64)
    ensures
        consumes_prefix(bytes, addr, decode_spec(xlen, bytes, addr)),
        decode_spec(xlen, bytes, addr) matches Ok((ins, consumed)) ==> (consumed == 2 || consumed
            == 4) && ins.bytes.len() == consumed,
        decode_spec(xlen, bytes, addr) matches Ok((ins, consumed)) ==> (consumed == 2
            <==> is_compressed(bytes[0])),
        decode_spec(xlen, bytes, addr) is Err <==> bytes.len() == 0 || (is_compressed(bytes[0])
            && bytes.len() < 2) || (!is_compressed(bytes[0]) && bytes.len() < 4),
{
}

/// Nothing behind the consumed prefix is read: the prefix alone decodes
/// to the same instruction.
pub proof fn lemma_decode_reads_only_the_prefix(xlen: Xlen, bytes: Seq<u8>, addr: u64)
    ensures
        decode_spec(xlen, bytes, addr) matches Ok((ins, consumed)) ==> decode_spec(
            xlen,
            bytes.subrange(0, consumed as int),
            addr,
        ) == decode_spec(xlen, bytes, addr),
{
    if let Ok((ins, consumed)) = decode_spec(xlen, bytes, addr) {
        let prefix = bytes.subrange(0, consumed as int);
        assert(prefix.subrange(0, consumed as int) =~= prefix);
    }
}

/// An instruction that the decoder names `unknown` shows its own bytes:
/// its operands are `0x` and the consumed bytes in hexadecimal, so they are
/// never empty; and it carries no annotation.
pub proof fn lemma_unknown_shows_bytes(xlen: Xlen, bytes: Seq<u8>, addr: u64)
    ensures
        decode_spec(xlen, bytes, addr) matches Ok((ins, consumed)) ==> (ins.mnemonic == "unknown"@
            ==> ins.operands == unknown_operands(ins.bytes) && ins.operands.len() == 2 + 2
            * consumed && ins.detail is None),
{
    if decode_spec(xlen, bytes, addr) is Ok {
        let ins = decode_spec(xlen, bytes, addr)->Ok_0.0;
        lemma_unknown_operands_hold_hex(ins.bytes);
        if is_compressed(bytes[0]) {
            lemma_unknown_name_is_reserved(decode_half_spec(half_value(bytes), xlen).mnemonic);
        } else {
            lemma_unknown_name_is_reserved(decode_word_spec(word_value(bytes), xlen).mnemonic);
        }
    }
}

/// A decoder for RISC-V with registers of one width.
///
/// Every 32-bit encoding that means something with 32-bit registers means
/// the same with 64-bit ones (see
/// [`lemma_wide_extends_narrow`](crate::riscv::decode::lemma_wide_extends_narrow)),
/// so the decoder for the wider registers serves both. Among the 16-bit
/// encodings the two widths part: what is `c.jal` with 32-bit registers is
/// `c.addiw` with 64-bit ones.
pub struct RiscVHandler {
    pub xlen: Xlen,
}

impl RiscVHandler {
    /// The decoder that serves every RISC-V name: the one for 64-bit
    /// registers.
    pub fn new() -> (handler: Self)
        ensures
            handler.xlen == Xlen::Rv64,
    {
        RiscVHandler { xlen: Xlen::Rv64 }
    }

    /// A decoder for registers of the given width.
    pub fn with_xlen(xlen: Xlen) -> (handler: Self)
        ensures
            handler.xlen == xlen,
    {
        RiscVHandler { xlen }
    }
}

impl ArchitectureHandler for RiscVHandler {
    open spec fn spec_name(&self) -> Seq<char> {
        "riscv"@
    }

    open spec fn spec_supports(&self, arch_name: Seq<char>) -> bool {
        riscv_supports(arch_name)
    }

    open spec fn spec_disassemble(&self, bytes: Seq<u8>, addr: u64) -> Result<
        (InstructionView, usize),
        DisasmErrorView,
    > {
        decode_spec(self.xlen, bytes, addr)
    }

    fn disassemble(&self, bytes: &[u8], addr: u64) -> (outcome: Result<
        (Instruction, usize),
        DisasmError,
    >) {
        if bytes.len() == 0 {
            return Err(DisasmError::InsufficientBytes);
        }
        let first = bytes[0];
        if first % 4 != 3 {
            if bytes.len() < 2 {
                return Err(DisasmError::InsufficientBytes);
            }
            let half: u16 = first as u16 + 256 * (bytes[1] as u16);
            let decoded = decode_half(half, self.xlen);
            let taken = slice_to_vec(slice_subrange(bytes, 0, 2));
            Ok((build_instruction(decoded, addr, taken), 2))
        } else {
            if bytes.len() < 4 {
                return Err(DisasmError::InsufficientBytes);
            }
            let word: u32 = first as u32 + 256 * (bytes[1] as u32) + 65536 * (bytes[2] as u32)
                + 16777216 * (bytes[3] as u32);
            let decoded = decode_word(word, self.xlen);
            let taken = slice_to_vec(slice_subrange(bytes, 0, 4));
            Ok((build_instruction(decoded, addr, taken), 4))
        }
    }

    fn name(&self) -> (name: &'static str) {
        "riscv"
    }

    fn supports(&self, arch_name: &str) -> (yes: bool) {
        str_eq(arch_name, "riscv") || str_eq(arch_name, "riscv32") || str_eq(arch_name, "riscv64")
    }
}

} // verus!

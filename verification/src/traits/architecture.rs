//! What every architecture decoder provides.

use crate::types::error::{DisasmError, DisasmErrorView};
use crate::types::instruction::{Instruction, InstructionView};
use vstd::prelude::*;

verus! {

/// What a decode call returned, as mathematical values.
pub open spec fn outcome_view(outcome: Result<(Instruction, usize), DisasmError>) -> Result<
    (InstructionView, usize),
    DisasmErrorView,
> {
    match outcome {
        Ok((ins, consumed)) => Ok((ins@, consumed)),
        Err(e) => Err(e@),
    }
}

/// What holds of every successful decode of `bytes` at `addr`: at least one
/// byte was consumed, the instruction holds exactly the consumed prefix of
/// the buffer, its `size` is the number of bytes consumed, and its address
/// is the one that was handed in.
pub open spec fn consumes_prefix(
    bytes: Seq<u8>,
    addr: u64,
    outcome: Result<(InstructionView, usize), DisasmErrorView>,
) -> bool {
    outcome matches Ok((ins, consumed)) ==> {
        &&& 1 <= consumed <= bytes.len()
        &&& ins.size == consumed
        &&& ins.bytes == bytes.subrange(0, consumed as int)
        &&& ins.address == addr
    }
}

/// A decoder for one architecture family.
///
/// What a handler does is a function of its arguments: `spec_name`,
/// `spec_supports` and `spec_disassemble` say what the three methods
/// return, and an implementation defines them along with the methods. Where
/// it leaves them as they are here, nothing is known of their values. A
/// handler holds no state that a call could change, so one instance can
/// serve many threads.
pub trait ArchitectureHandler: Sync {
    /// The canonical name, as a value.
    open spec fn spec_name(&self) -> Seq<char> {
        arbitrary()
    }

    /// Whether the handler accepts `arch_name`, as a value.
    open spec fn spec_supports(&self, arch_name: Seq<char>) -> bool {
        arbitrary()
    }

    /// The result of decoding the instruction at the start of `bytes`, as a
    /// value.
    open spec fn spec_disassemble(&self, bytes: Seq<u8>, addr: u64) -> Result<
        (InstructionView, usize),
        DisasmErrorView,
    > {
        arbitrary()
    }

    /// Decodes the one instruction at the start of `bytes`. `addr` only
    /// fills the instruction's address. Returns the instruction and the
    /// number of bytes it takes up.
    fn disassemble(&self, bytes: &[u8], addr: u64) -> (outcome: Result<
        (Instruction, usize),
        DisasmError,
    >)
        ensures
            outcome_view(outcome) == self.spec_disassemble(bytes@, addr),
            consumes_prefix(bytes@, addr, outcome_view(outcome)),
    ;

    /// The canonical name of the architecture.
    fn name(&self) -> (name: &'static str)
        ensures
            name@ == self.spec_name(),
    ;

    /// Whether this handler decodes for `arch_name`; the set of accepted
    /// names and their spelling are the handler's own.
    fn supports(&self, arch_name: &str) -> (yes: bool)
        ensures
            yes == self.spec_supports(arch_name@),
    ;
}

} // verus!

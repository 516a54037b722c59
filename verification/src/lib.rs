//! A disassembler for several architectures.
//!
//! An [`ArchitectureHandler`] decodes the instruction at the start of a byte
//! buffer for one architecture family. The [`ArchitectureDispatcher`] keeps
//! handlers in the order in which they were registered and hands each
//! request to the first one that accepts the architecture's name.

pub mod bits;
pub mod prelude;
pub mod riscv;
pub mod text;
pub mod traits;
pub mod types;
pub mod utils;

pub use traits::instruction::Detail;
pub use traits::ArchitectureHandler;
pub use types::error::DisasmError;
pub use types::instruction::Instruction;

use crate::riscv::handler::{decode_spec, lemma_unknown_shows_bytes, riscv_supports};
use crate::riscv::{RiscVHandler, Xlen};
use crate::traits::architecture::{consumes_prefix, outcome_view};
use crate::types::error::DisasmErrorView;
use crate::types::instruction::InstructionView;
use crate::utils::{digits_of, endianness_of, parse_hex, strip_prefix, HexParser};
use vstd::prelude::*;
use vstd::string::*;

verus! {

/// Puts `item` behind the items of `list`.
fn append<T>(item: T, list: &mut Vec<T>)
    ensures
        final(list)@.len() == old(list)@.len() + 1,
        final(list)@[old(list)@.len() as int] == item,
        forall|i: int| 0 <= i < old(list)@.len() ==> final(list)@[i] == old(list)@[i],
{
    list.push(item);
}

/// The instruction that stands for text that is no hexadecimal byte
/// string: no bytes, and the text itself among the operands.
pub open spec fn parse_failure_view(hex: Seq<char>) -> InstructionView {
    InstructionView {
        address: 0,
        bytes: Seq::empty(),
        mnemonic: "unknown"@,
        operands: "(parse error: "@ + hex + ")"@,
        size: 0,
        detail: None,
    }
}

/// The instruction that stands for bytes that no handler decoded: the
/// bytes as they were parsed, and as operands the digits of the text
/// behind `0x`.
pub open spec fn decode_failure_view(hex: Seq<char>, bytes: Seq<u8>) -> InstructionView {
    InstructionView {
        address: 0,
        bytes,
        mnemonic: "unknown"@,
        operands: "0x"@ + digits_of(hex),
        size: bytes.len(),
        detail: None,
    }
}

/// Selects the decoder for an architecture by its name.
///
/// Handlers are asked in the order of their registration; the first that
/// accepts a name gets the request. Nothing is ever removed.
pub struct ArchitectureDispatcher {
    handlers: Vec<Box<dyn ArchitectureHandler>>,
    hex_parser: HexParser,
}

impl ArchitectureDispatcher {
    /// The registered handlers, in the order of their registration.
    pub closed spec fn registry(&self) -> Seq<Box<dyn ArchitectureHandler>> {
        self.handlers@
    }

    /// The handler at `index` is the first that accepts `arch`.
    pub open spec fn routes_to(&self, arch: Seq<char>, index: int) -> bool {
        &&& 0 <= index < self.registry().len()
        &&& self.registry()[index].spec_supports(arch)
        &&& forall|j: int|
            0 <= j < index ==> !(#[trigger] self.registry()[j]).spec_supports(arch)
    }

    /// The place of the handler that requests for `arch` go to, if any
    /// handler accepts that name.
    pub open spec fn route(&self, arch: Seq<char>) -> Option<int> {
        if exists|i: int| self.routes_to(arch, i) {
            Some(choose|i: int| self.routes_to(arch, i))
        } else {
            None
        }
    }

    /// Whether some handler accepts `arch`.
    pub open spec fn spec_supports_architecture(&self, arch: Seq<char>) -> bool {
        exists|i: int|
            0 <= i < self.registry().len() && (#[trigger] self.registry()[i]).spec_supports(arch)
    }

    /// The handler at `index` is a RISC-V decoder for `xlen`: it is named
    /// `riscv`, accepts `riscv`, `riscv32` and `riscv64` and no other name,
    /// and decodes as that decoder does.
    pub open spec fn is_riscv_at(&self, index: int, xlen: Xlen) -> bool {
        &&& self.registry()[index].spec_name() == "riscv"@
        &&& forall|arch: Seq<char>|
            #[trigger] self.registry()[index].spec_supports(arch) == riscv_supports(arch)
        &&& forall|bytes: Seq<u8>, addr: u64|
            #[trigger] self.registry()[index].spec_disassemble(bytes, addr) == decode_spec(
                xlen,
                bytes,
                addr,
            )
    }

    /// What decoding `bytes` for `arch` gives: the answer of the handler
    /// that the name routes to, whatever it is, or the error that names the
    /// architecture where no handler accepts it.
    pub open spec fn spec_disassemble_bytes(
        &self,
        bytes: Seq<u8>,
        arch: Seq<char>,
        address: u64,
    ) -> Result<(InstructionView, usize), DisasmErrorView> {
        match self.route(arch) {
            Some(i) => self.registry()[i].spec_disassemble(bytes, address),
            None => Err(DisasmErrorView::UnsupportedArchitecture(arch)),
        }
    }

    /// What the convenience path gives for the text `hex`: the decoded
    /// instruction at address 0 where the text parses and a handler decodes
    /// the bytes, and an unknown instruction otherwise.
    pub open spec fn spec_disassemble(&self, hex: Seq<char>, arch: Seq<char>) -> InstructionView {
        match parse_hex(hex, endianness_of(arch)) {
            Err(_) => parse_failure_view(hex),
            Ok(bytes) => match self.spec_disassemble_bytes(bytes, arch, 0) {
                Ok((ins, _)) => ins,
                Err(_) => decode_failure_view(hex, bytes),
            },
        }
    }

    /// At most one handler is the first to accept a name.
    pub proof fn lemma_route_unique(&self, arch: Seq<char>, index: int)
        requires
            self.routes_to(arch, index),
        ensures
            self.route(arch) == Some(index),
    {
        let chosen = choose|i: int| self.routes_to(arch, i);
        if chosen < index {
            assert(!self.registry()[chosen].spec_supports(arch));
        } else if index < chosen {
            assert(!self.registry()[index].spec_supports(arch));
        }
    }

    /// Where some handler accepts a name, the name routes to a handler, and
    /// to none that was registered later.
    pub proof fn lemma_route_exists(&self, arch: Seq<char>, index: int)
        requires
            0 <= index < self.registry().len(),
            self.registry()[index].spec_supports(arch),
        ensures
            self.route(arch) is Some,
            self.routes_to(arch, self.route(arch)->0),
            self.route(arch)->0 <= index,
        decreases index,
    {
        if exists|j: int| 0 <= j < index && (#[trigger] self.registry()[j]).spec_supports(arch) {
            let j = choose|j: int|
                0 <= j < index && (#[trigger] self.registry()[j]).spec_supports(arch);
            self.lemma_route_exists(arch, j);
        } else {
            assert(self.routes_to(arch, index));
            self.lemma_route_unique(arch, index);
        }
    }

    /// First match wins: of two handlers that accept the same name, the one
    /// registered later never decodes for it. The request goes to the
    /// earlier one, or to a handler registered before both; where no
    /// handler before the earlier one accepts the name, the result is what
    /// the earlier one decodes.
    pub proof fn lemma_first_match_wins(
        &self,
        arch: Seq<char>,
        bytes: Seq<u8>,
        address: u64,
        earlier: int,
        later: int,
    )
        requires
            0 <= earlier < later < self.registry().len(),
            self.registry()[earlier].spec_supports(arch),
            self.registry()[later].spec_supports(arch),
        ensures
            self.route(arch) is Some,
            self.route(arch)->0 <= earlier,
            self.route(arch)->0 != later,
            (forall|j: int|
                0 <= j < earlier ==> !(#[trigger] self.registry()[j]).spec_supports(arch))
                ==> self.spec_disassemble_bytes(bytes, arch, address)
                == self.registry()[earlier].spec_disassemble(bytes, address),
    {
        self.lemma_route_exists(arch, earlier);
        if forall|j: int|
            0 <= j < earlier ==> !(#[trigger] self.registry()[j]).spec_supports(arch) {
            self.lemma_route_unique(arch, earlier);
        }
    }

    /// A name that no handler accepts always gives the error that carries
    /// that name, whatever the bytes and the address; and only such a name
    /// gives it through the dispatcher's own doing.
    pub proof fn lemma_unsupported_architecture(
        &self,
        arch: Seq<char>,
        bytes: Seq<u8>,
        address: u64,
    )
        ensures
            !self.spec_supports_architecture(arch) ==> self.spec_disassemble_bytes(
                bytes,
                arch,
                address,
            ) == Err::<(InstructionView, usize), DisasmErrorView>(
                DisasmErrorView::UnsupportedArchitecture(arch),
            ),
            self.spec_supports_architecture(arch) <==> self.route(arch) is Some,
    {
        if self.spec_supports_architecture(arch) {
            let i = choose|i: int|
                0 <= i < self.registry().len() && (#[trigger] self.registry()[i]).spec_supports(
                    arch,
                );
            self.lemma_route_exists(arch, i);
        } else {
            if self.route(arch) is Some {
                let i = choose|i: int| self.routes_to(arch, i);
                assert(self.registry()[i].spec_supports(arch));
            }
        }
    }

    /// Registering a handler changes nothing for a name that an earlier
    /// handler accepts: `after` stands for the dispatcher `before` with one
    /// more handler at the end.
    pub proof fn lemma_registration_keeps_routes(before: &Self, after: &Self, arch: Seq<char>)
        requires
            after.registry().len() == before.registry().len() + 1,
            forall|i: int|
                0 <= i < before.registry().len() ==> after.registry()[i] == before.registry()[i],
            before.spec_supports_architecture(arch),
        ensures
            after.route(arch) == before.route(arch),
            forall|bytes: Seq<u8>, address: u64|
                after.spec_disassemble_bytes(bytes, arch, address)
                    == before.spec_disassemble_bytes(bytes, arch, address),
    {
        before.lemma_unsupported_architecture(arch, Seq::empty(), 0);
        let i = before.route(arch)->0;
        assert(before.routes_to(arch, i));
        assert(after.registry()[i] == before.registry()[i]);
        assert forall|j: int| 0 <= j < i implies !(#[trigger] after.registry()[j]).spec_supports(
            arch,
        ) by {
            assert(after.registry()[j] == before.registry()[j]);
            assert(!before.registry()[j].spec_supports(arch));
        }
        assert(after.routes_to(arch, i));
        after.lemma_route_unique(arch, i);
    }

    /// The convenience path always gives a well-formed instruction at
    /// address 0. What it gives for text that does not parse has no bytes;
    /// what it gives for bytes that no handler decodes has the parsed
    /// bytes, and operands that are never empty.
    pub proof fn lemma_convenience_path_total(&self, hex: Seq<char>, arch: Seq<char>)
        ensures
            parse_hex(hex, endianness_of(arch)) is Err ==> self.spec_disassemble(hex, arch)
                == parse_failure_view(hex),
            parse_failure_view(hex).size == 0 && parse_failure_view(hex).bytes.len() == 0,
            parse_failure_view(hex).operands.len() > 0,
            forall|bytes: Seq<u8>| #[trigger]
                decode_failure_view(hex, bytes).size == bytes.len() && decode_failure_view(
                    hex,
                    bytes,
                ).operands.len() >= 2,
            parse_hex(hex, endianness_of(arch)) matches Ok(bytes) ==> (self.spec_disassemble_bytes(
                bytes,
                arch,
                0,
            ) is Err ==> self.spec_disassemble(hex, arch) == decode_failure_view(hex, bytes)),
    {
        reveal_strlit("(parse error: ");
        reveal_strlit("0x");
    }

    /// Where the name goes to a built-in decoder or to none, an instruction
    /// named `unknown` that the convenience path gives never has empty
    /// operands.
    pub proof fn lemma_unknown_has_operands(&self, hex: Seq<char>, arch: Seq<char>)
        requires
            self.route(arch) matches Some(i) ==> self.is_riscv_at(i, Xlen::Rv32)
                || self.is_riscv_at(i, Xlen::Rv64),
        ensures
            self.spec_disassemble(hex, arch).mnemonic == "unknown"@ ==> self.spec_disassemble(
                hex,
                arch,
            ).operands.len() > 0,
    {
        self.lemma_convenience_path_total(hex, arch);
        if let Ok(bytes) = parse_hex(hex, endianness_of(arch)) {
            assert(decode_failure_view(hex, bytes).operands.len() >= 2);
            if let Some(i) = self.route(arch) {
                if self.is_riscv_at(i, Xlen::Rv32) {
                    lemma_unknown_shows_bytes(Xlen::Rv32, bytes, 0);
                } else {
                    lemma_unknown_shows_bytes(Xlen::Rv64, bytes, 0);
                }
            }
        }
    }

    /// A dispatcher with the built-in decoders, each registered once: the
    /// one RISC-V handler, which `riscv`, `riscv32` and `riscv64` all go
    /// to.
    pub fn new() -> (dispatcher: Self)
        ensures
            dispatcher.registry().len() == 1,
            dispatcher.is_riscv_at(0, Xlen::Rv64),
            dispatcher.route("riscv"@) == Some(0int),
            dispatcher.route("riscv32"@) == Some(0int),
            dispatcher.route("riscv64"@) == Some(0int),
    {
        let mut dispatcher = Self { handlers: Vec::new(), hex_parser: HexParser::new() };
        dispatcher.register(Box::new(RiscVHandler::new()));
        proof {
            assert(riscv_supports("riscv"@));
            assert(riscv_supports("riscv32"@));
            assert(riscv_supports("riscv64"@));
            dispatcher.lemma_route_unique("riscv"@, 0);
            dispatcher.lemma_route_unique("riscv32"@, 0);
            dispatcher.lemma_route_unique("riscv64"@, 0);
        }
        dispatcher
    }

    /// Registers `handler` behind the handlers already there. Nothing is
    /// checked or deduplicated: for a name that an earlier handler accepts,
    /// the new one is never asked.
    pub fn register(&mut self, handler: Box<dyn ArchitectureHandler>)
        ensures
            final(self).registry().len() == old(self).registry().len() + 1,
            final(self).registry()[old(self).registry().len() as int] == handler,
            forall|i: int|
                0 <= i < old(self).registry().len() ==> final(self).registry()[i] == old(
                    self,
                ).registry()[i],
    {
        append(handler, &mut self.handlers);
    }

    /// Decodes the instruction at the start of `bytes` for the
    /// architecture `arch`. The first registered handler that accepts the
    /// name decodes, and its result, instruction or error, is returned as
    /// it is. Without such a handler the call fails with
    /// `UnsupportedArchitecture`.
    pub fn disassemble_bytes(&self, bytes: &[u8], arch: &str, address: u64) -> (outcome: Result<
        (Instruction, usize),
        DisasmError,
    >)
        ensures
            outcome_view(outcome) == self.spec_disassemble_bytes(bytes@, arch@, address),
            consumes_prefix(bytes@, address, outcome_view(outcome)),
    {
        let mut at: usize = 0;
        while at < self.handlers.len()
            invariant
                at <= self.handlers@.len(),
                forall|j: int|
                    0 <= j < at ==> !(#[trigger] self.registry()[j]).spec_supports(arch@),
            decreases self.handlers@.len() - at,
        {
            if self.handlers[at].supports(arch) {
                proof {
                    self.lemma_route_unique(arch@, at as int);
                }
                return self.handlers[at].disassemble(bytes, address);
            }
            at = at + 1;
        }
        assert(self.route(arch@) is None);
        Err(DisasmError::UnsupportedArchitecture(arch.to_owned()))
    }

    /// Decodes the instruction that the hexadecimal text `hex` holds, at
    /// address 0. This never fails: text that does not parse and bytes
    /// that do not decode both give an unknown instruction.
    pub fn disassemble(&self, hex: &str, arch: String) -> (ins: Instruction)
        ensures
            ins@ == self.spec_disassemble(hex@, arch@),
            ins.wf(),
    {
        let bytes = match self.hex_parser.parse_for_architecture(hex, arch.as_str()) {
            Ok(bytes) => bytes,
            Err(_) => {
                let mut operands = String::from_str("(parse error: ");
                operands.append(hex);
                operands.append(")");
                return Instruction {
                    address: 0,
                    bytes: Vec::new(),
                    mnemonic: "unknown".to_owned(),
                    operands,
                    size: 0,
                    detail: None,
                };
            },
        };
        match self.disassemble_bytes(bytes.as_slice(), arch.as_str(), 0) {
            Ok((ins, _)) => ins,
            Err(_) => {
                let size = bytes.len();
                let operands = String::from_str("0x").concat(strip_prefix(hex));
                Instruction {
                    address: 0,
                    bytes,
                    mnemonic: "unknown".to_owned(),
                    operands,
                    size,
                    detail: None,
                }
            },
        }
    }

    /// The canonical names of the registered handlers, in the order of
    /// registration; a name stands as often as it was registered.
    pub fn supported_architectures(&self) -> (names: Vec<&'static str>)
        ensures
            names@.len() == self.registry().len(),
            forall|i: int|
                0 <= i < names@.len() ==> (#[trigger] names@[i])@ == self.registry()[i].spec_name(),
    {
        let mut names: Vec<&'static str> = Vec::new();
        let mut at: usize = 0;
        while at < self.handlers.len()
            invariant
                at <= self.handlers@.len(),
                names@.len() == at,
                forall|i: int|
                    0 <= i < at ==> (#[trigger] names@[i])@ == self.registry()[i].spec_name(),
            decreases self.handlers@.len() - at,
        {
            names.push(self.handlers[at].name());
            at = at + 1;
        }
        names
    }

    /// Whether some registered handler accepts `arch_name`.
    pub fn supports_architecture(&self, arch_name: &str) -> (yes: bool)
        ensures
            yes == self.spec_supports_architecture(arch_name@),
    {
        let mut at: usize = 0;
        while at < self.handlers.len()
            invariant
                at <= self.handlers@.len(),
                forall|j: int|
                    0 <= j < at ==> !(#[trigger] self.registry()[j]).spec_supports(arch_name@),
            decreases self.handlers@.len() - at,
        {
            if self.handlers[at].supports(arch_name) {
                assert(self.registry()[at as int].spec_supports(arch_name@));
                return true;
            }
            at = at + 1;
        }
        false
    }

    /// The first registered handler that accepts `arch_name`, if there is
    /// one.
    pub fn get_handler(&self, arch_name: &str) -> (found: Option<&dyn ArchitectureHandler>)
        ensures
            found is Some <==> self.route(arch_name@) is Some,
            found matches Some(h) ==> {
                let i = self.route(arch_name@)->0;
                &&& h.spec_name() == self.registry()[i].spec_name()
                &&& forall|arch: Seq<char>|
                    h.spec_supports(arch) == self.registry()[i].spec_supports(arch)
                &&& forall|bytes: Seq<u8>, addr: u64|
                    h.spec_disassemble(bytes, addr) == self.registry()[i].spec_disassemble(
                        bytes,
                        addr,
                    )
            },
    {
        let mut at: usize = 0;
        while at < self.handlers.len()
            invariant
                at <= self.handlers@.len(),
                forall|j: int|
                    0 <= j < at ==> !(#[trigger] self.registry()[j]).spec_supports(arch_name@),
            decreases self.handlers@.len() - at,
        {
            if self.handlers[at].supports(arch_name) {
                proof {
                    self.lemma_route_unique(arch_name@, at as int);
                }
                let handler = &*self.handlers[at];
                let found = Some(handler);
                return found;
            }
            at = at + 1;
        }
        assert(self.route(arch_name@) is None);
        None
    }
}

impl Default for ArchitectureDispatcher {
    /// The dispatcher with the built-in decoders.
    fn default() -> (dispatcher: Self)
        ensures
            dispatcher.registry().len() == 1,
            dispatcher.is_riscv_at(0, Xlen::Rv64),
            dispatcher.route("riscv"@) == Some(0int),
            dispatcher.route("riscv32"@) == Some(0int),
            dispatcher.route("riscv64"@) == Some(0int),
    {
        ArchitectureDispatcher::new()
    }
}

} // verus!

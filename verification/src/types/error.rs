//! Why a decode call failed.

use vstd::prelude::*;

verus! {

/// The ways in which decoding can fail.
#[derive(Debug, Clone, PartialEq, Eq)]
pub enum DisasmError {
    /// No registered handler accepts the architecture name that was asked
    /// for; the name is carried along.
    UnsupportedArchitecture(String),
    /// The buffer ends before the instruction that its first bytes announce.
    InsufficientBytes,
    /// The bytes are malformed in a way the decoder does not degrade to an
    /// unknown instruction.
    InvalidEncoding,
}

/// A [`DisasmError`] with its text as a sequence of characters.
pub enum DisasmErrorView {
    UnsupportedArchitecture(Seq<char>),
    InsufficientBytes,
    InvalidEncoding,
}

impl View for DisasmError {
    type V = DisasmErrorView;

    open spec fn view(&self) -> DisasmErrorView {
        match self {
            DisasmError::UnsupportedArchitecture(name) => DisasmErrorView::UnsupportedArchitecture(
                name@,
            ),
            DisasmError::InsufficientBytes => DisasmErrorView::InsufficientBytes,
            DisasmError::InvalidEncoding => DisasmErrorView::InvalidEncoding,
        }
    }
}

} // verus!

//! The values a decode call returns.

pub mod error;
pub mod instruction;

pub use error::DisasmError;
pub use instruction::Instruction;

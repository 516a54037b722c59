//! The items that most callers need.

pub use crate::traits::{ArchitectureHandler, BasicInstructionDetail, Detail};
pub use crate::types::{DisasmError, Instruction};
pub use crate::utils::{Endianness, HexParser};

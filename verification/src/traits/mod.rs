//! The capabilities that architecture decoders and their annotations
//! implement.

pub mod architecture;
pub mod instruction;

pub use architecture::ArchitectureHandler;
pub use instruction::{BasicInstructionDetail, Detail};

//! The RISC-V decoder: the base integer instruction set for 32-bit and for
//! 64-bit registers, and the compressed 16-bit encodings of the same
//! operations.

pub mod compressed;
pub mod decode;
pub mod handler;
pub mod isa;
pub mod syntax;


pub use handler::RiscVHandler;
pub use isa::{Decoded, Format, Mnemonic, Xlen};

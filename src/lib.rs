//! Machine instructions of the 32-bit Arm family: a structured model of the
//! instructions, and a codec between that model and Arm and Thumb opcodes.

pub mod arm32;
pub mod error;
pub mod instruction;

pub use error::{Error, ErrorKind};

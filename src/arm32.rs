//! The 32-bit Arm instruction sets: Arm (32-bit opcodes) and Thumb (16-bit
//! opcodes).

pub mod address;
pub mod arm_encoding;
pub mod arm_opcode;
pub mod codec;
pub mod flag;
pub mod instruction;
pub mod predicate;
pub mod register;
pub mod shifter;
pub mod signed;
pub mod text;
pub mod thumb_decoding;
pub mod thumb_encoding;
pub mod thumb_opcode;
pub mod unsigned;

pub use address::Address;
pub use arm_opcode::ArmOpcode;
pub use codec::InstructionCodec;
pub use flag::{Bflag, Sflag, Tflag};
pub use instruction::Instruction;
pub use predicate::Predicate;
pub use register::Register;
pub use shifter::Shifter;
pub use signed::Signed;
pub use thumb_opcode::ThumbOpcode;
pub use unsigned::Unsigned;

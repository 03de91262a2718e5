//! The text form of instructions: one instruction per line, written as a
//! mnemonic and its operands.

pub mod decode;
pub mod encode;
pub mod laws;

pub use decode::decode_instruction;
pub use encode::encode_instruction;

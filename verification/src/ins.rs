//! Instruction words: the opcode field, the opcodes of the base instruction
//! set, and the six field layouts an instruction word can be read in.

use vstd::prelude::*;

pub mod types;

pub use types::BType;
pub use types::IType;
pub use types::JType;
pub use types::RType;
pub use types::SType;
pub use types::UType;

verus! {

/// Selects the opcode, the low seven bits of an instruction word.
pub const OPCODE_MASK: u32 = 0b1111111;

/// Arithmetic with an immediate.
pub const OPCODE_OPIMM: u32 = 0b0010011;

/// Load upper immediate.
pub const OPCODE_LUI: u32 = 0b0110111;

/// Add upper immediate to the address of the instruction.
pub const OPCODE_AUIPC: u32 = 0b0010111;

/// Arithmetic on two registers.
pub const OPCODE_OP: u32 = 0b0110011;

/// Jump and link.
pub const OPCODE_JAL: u32 = 0b1101111;

/// Jump and link by register.
pub const OPCODE_JALR: u32 = 0b1100111;

/// Conditional branches.
pub const OPCODE_BRANCH: u32 = 0b1100011;

/// Loads.
pub const OPCODE_LOAD: u32 = 0b0000011;

/// Stores.
pub const OPCODE_STORE: u32 = 0b0100011;

/// Environment calls and breaks, and control and status registers.
pub const OPCODE_SYSTEM: u32 = 0b1110011;

/// Fences.
pub const OPCODE_MISCMEM: u32 = 0b0001111;

/// The shape of each opcode's instructions.
pub type TypeOpImm = IType;

pub type TypeLui = UType;

pub type TypeAuiPc = UType;

pub type TypeOp = RType;

pub type TypeJal = JType;

pub type TypeJalR = IType;

pub type TypeBranch = BType;

pub type TypeLoad = IType;

pub type TypeStore = SType;

pub type TypeSystem = IType;

pub type TypeMiscMem = IType;

} // verus!

//! A step-at-a-time simulator core for a 32-bit RISC-V machine.
//!
//! The base engine and each extension module answer one question about an
//! instruction word: is it mine? The one that says yes executes it; a word
//! that nobody claims leaves the machine as it was.

use vstd::prelude::*;

pub mod bus;
pub mod bytes;
pub mod dram;
pub mod ins;
pub mod instruction;
pub mod memory;
pub mod rv32i;
pub mod rv_f;
pub mod rv_m;
pub mod rv_zicsr;
pub mod step;
pub mod ui;
pub mod util;

pub use dram::DRam;

verus! {

/// The widths of data, by name.
pub type QUADWORD = i128;

pub type DOUBLEWORD = i64;

pub type WORD = i32;

pub type HALFWORLD = i16;

// ---- Result ----
/// Execution Result
#[derive(Clone, Copy, Debug, PartialEq, Eq, Structural)]
pub enum EResult {
    /// The word was not recognized; nothing changed.
    NotFound,
    /// The word was executed.
    Found,
    /// The word asks for an environment call.
    ECall,
    /// The word asks for an environment break.
    EBreak,
}

// ---- Volatile ----
/// A register file: indexed storage that can be read and written.
pub trait Volatile<T> {
    /// How many registers the file holds.
    spec fn count() -> usize;

    /// The value of register `index`.
    spec fn reg(&self, index: usize) -> T;

    /// Whether register `index` is hard-wired: writes to it are discarded.
    spec fn hardwired(index: usize) -> bool;

    /// Writes `value` to register `index`, unless it is hard-wired. No other
    /// register changes.
    fn set(&mut self, index: usize, value: T)
        requires
            index < Self::count(),
        ensures
            forall|i: usize|
                i < Self::count() ==> #[trigger] final(self).reg(i) == if i == index
                    && !Self::hardwired(i) {
                    value
                } else {
                    old(self).reg(i)
                },
    ;

    fn get(&self, index: usize) -> (value: T)
        requires
            index < Self::count(),
        ensures
            value == self.reg(index),
    ;
}

// ---- Base ----
/// A base engine: a register file that fetches instruction words and
/// executes those of its own instruction set.
pub trait Base<T>: Volatile<T> + Sized {
    /// Whether the base engine recognizes `ins`.
    spec fn recognizes(ins: u32) -> bool;

    /// Fetches the word at the program counter and advances the counter.
    fn fetch(&mut self) -> T;

    /// Attempts to execute an instruction. A word that is not recognized
    /// changes nothing.
    fn execute(&mut self, ins: u32) -> (r: EResult)
        ensures
            (r is NotFound) == !Self::recognizes(ins),
            r is NotFound ==> *final(self) == *old(self),
    ;
}

// ---- Extension ----
/// An instruction-set module beside a base `B`: it is offered the words
/// that the base declined.
pub trait Extension<B>: Sized {
    /// Whether this module claims `ins`.
    spec fn claims(ins: u32) -> bool;

    /// Attempts to execute an instruction. A word that is not claimed
    /// changes neither the module nor the base.
    fn execute(&mut self, ins: u32, base: &mut B) -> (r: EResult)
        ensures
            (r is NotFound) == !Self::claims(ins),
            r is NotFound ==> *final(self) == *old(self) && *final(base) == *old(base),
    ;
}

} // verus!

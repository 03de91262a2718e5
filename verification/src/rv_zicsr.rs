//! The Zicsr extension: control and status registers, read and changed in
//! one step.
//!
//! There are 4096 registers of 32 bits, addressed by the 12 bits of the
//! instruction's immediate field read as an unsigned number. Every form
//! reads the old value of the register into `rd` and writes a new one: the
//! source itself, the old value with the source's bits set, or the old value
//! with the source's bits cleared. The source is register `rs1` of the base,
//! or, in the immediate forms, the five bits of the `rs1` field themselves.

use crate::ins::IType;
use crate::ins::OPCODE_MASK;
use crate::ins::OPCODE_SYSTEM;
use crate::rv32i::CoreState;
use crate::rv32i::RV32I;
use crate::util::field;
use crate::EResult;
use crate::Extension;
use crate::Volatile;
use vstd::prelude::*;

verus! {

/// The Zicsr extension: its 4096 registers.
pub struct RVZICSR {
    registers: [u32; 4096],  // 4096 registers
}

impl View for RVZICSR {
    type V = Seq<u32>;

    closed spec fn view(&self) -> Seq<u32> {
        self.registers@
    }
}

/// Whether `funct3` names one of the six forms: `csrrw`, `csrrs`, `csrrc`,
/// `csrrwi`, `csrrsi`, `csrrci`.
pub open spec fn csr_known(funct3: u8) -> bool {
    funct3 == 1 || funct3 == 2 || funct3 == 3 || funct3 == 5 || funct3 == 6 || funct3 == 7
}

/// The value that a form writes, from the old value and the source.
pub open spec fn csr_next(funct3: u8, old: u32, source: u32) -> u32 {
    if funct3 == 1 || funct3 == 5 {
        source
    } else if funct3 == 2 || funct3 == 6 {
        old | source
    } else {
        old & !source
    }
}

/// The source of a form: a register of the base, or the bits of the `rs1`
/// field in the immediate forms.
pub open spec fn csr_source(funct3: u8, s: CoreState, rs1: u8) -> u32 {
    if funct3 < 4 {
        s.reg(rs1) as u32
    } else {
        rs1 as u32
    }
}

/// The register that `ins` addresses.
pub open spec fn csr_index(ins: u32) -> int {
    field(ins, 20, 12) as int
}

impl RVZICSR {
    /// The registers and the base after the extension executed `ins`, and
    /// what it reports.
    pub open spec fn spec_execute(csrs: Seq<u32>, s: CoreState, ins: u32) -> (
        Seq<u32>,
        CoreState,
        EResult,
    ) {
        let d = IType::spec_decode(ins);
        let old = csrs[csr_index(ins)];
        if Self::claims(ins) {
            (
                csrs.update(
                    csr_index(ins),
                    csr_next(d.funct3, old, csr_source(d.funct3, s, d.rs1)),
                ),
                s.write(d.rd, old as i32),
                EResult::Found,
            )
        } else {
            (csrs, s, EResult::NotFound)
        }
    }

    /// A register file of zeros.
    pub fn new() -> (r: Self)
        ensures
            r@ == Seq::new(4096, |i: int| 0u32),
    {
        let r = Self { registers: [0u32;4096] };
        assert(r@ =~= Seq::new(4096, |i: int| 0u32));
        r
    }
}

impl RVZICSR {
    /// The extension reports a word as not recognized exactly where it does
    /// not claim it, and then the registers and the base are as they were.
    pub proof fn law_declined_is_untouched(csrs: Seq<u32>, s: CoreState, ins: u32)
        ensures
            (Self::spec_execute(csrs, s, ins).2 is NotFound) == !Self::claims(ins),
            Self::spec_execute(csrs, s, ins).2 is NotFound ==> Self::spec_execute(csrs, s, ins).0
                == csrs && Self::spec_execute(csrs, s, ins).1 == s,
    {
    }

    /// Every form hands the old value of the register to `rd`, whatever it
    /// writes.
    pub proof fn law_reads_old_value(csrs: Seq<u32>, s: CoreState, ins: u32)
        requires
            Self::claims(ins),
        ensures
            Self::spec_execute(csrs, s, ins).1 == s.write(
                IType::spec_decode(ins).rd,
                csrs[csr_index(ins)] as i32,
            ),
    {
    }
}

impl Volatile<u32> for RVZICSR {
    open spec fn count() -> usize {
        4096
    }

    open spec fn reg(&self, index: usize) -> u32 {
        self@[index as int]
    }

    open spec fn hardwired(index: usize) -> bool {
        false
    }

    /// Sets register `index` to `value`
    fn set(&mut self, index: usize, value: u32)
        ensures
            final(self)@ == old(self)@.update(index as int, value),
    {
        self.registers[index] = value;
        assert(self@ =~= old(self)@.update(index as int, value));
    }

    /// Gets register `index`
    fn get(&self, index: usize) -> (value: u32) {
        self.registers[index]
    }
}

impl RVZICSR {
    /// There are 4096 registers.
    pub proof fn lemma_registers(&self)
        ensures
            self@.len() == 4096,
    {
    }
}

impl Extension<RV32I> for RVZICSR {
    open spec fn claims(ins: u32) -> bool {
        ins & OPCODE_MASK == OPCODE_SYSTEM && csr_known(IType::spec_decode(ins).funct3)
    }

    fn execute(&mut self, ins: u32, base: &mut RV32I) -> (r: EResult)
        ensures
            (final(self)@, final(base)@, r) == RVZICSR::spec_execute(
                old(self)@,
                old(base)@,
                ins,
            ),
    {
        if ins & OPCODE_MASK != OPCODE_SYSTEM {
            return EResult::NotFound;
        }
        let data = IType::decode(ins);
        let funct3 = data.funct3;
        if !(funct3 == 1 || funct3 == 2 || funct3 == 3 || funct3 == 5 || funct3 == 6 || funct3
            == 7) {
            return EResult::NotFound;
        }
        let csr: usize = (ins >> 20) as usize;
        assert(csr == csr_index(ins) && csr < 4096) by (bit_vector)
            requires
                csr == (ins >> 20) as usize,
        ;
        let source: u32 = if funct3 < 4 {
            base.get(data.rs1 as usize) as u32
        } else {
            data.rs1 as u32
        };
        let old_value = self.get(csr);
        let next: u32 = if funct3 == 1 || funct3 == 5 {
            source
        } else if funct3 == 2 || funct3 == 6 {
            old_value | source
        } else {
            old_value & !source
        };
        self.set(csr, next);
        base.set(data.rd as usize, old_value as i32);
        EResult::Found
    }
}

} // verus!

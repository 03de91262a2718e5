//! The register file of the F extension and its two steps: `execute`, which
//! does what needs no floating-point unit and asks for the rest, and
//! `retire`, which takes the answer.

use crate::bus::Bus;
use crate::ins::IType;
use crate::ins::RType;
use crate::ins::SType;
use crate::ins::OPCODE_MASK;
use crate::rv32i::CoreState;
use crate::rv32i::RV32I;
use crate::rv_f::class_of;
use crate::rv_f::classify;
use crate::rv_f::eq_spec;
use crate::rv_f::float_eq;
use crate::rv_f::float_le;
use crate::rv_f::float_lt;
use crate::rv_f::inject_sign;
use crate::rv_f::inject_spec;
use crate::rv_f::le_spec;
use crate::rv_f::lt_spec;
use crate::rv_f::OPCODE_LOADF;
use crate::rv_f::OPCODE_OPFP;
use crate::rv_f::OPCODE_STOREF;
use crate::rv32i::flag;
use crate::EResult;
use crate::Volatile;
use vstd::prelude::*;

verus! {

/// How a number is rounded to an integer.
#[derive(Clone, Copy, Debug, PartialEq, Eq, Structural)]
pub enum Rounding {
    /// To the nearest integer, a tie to the even one.
    TiesEven,
    /// To the next integer towards zero.
    TowardZero,
    /// To the next integer below.
    Floor,
    /// To the next integer above.
    Ceiling,
}

/// Whether `rm` names a rounding mode.
pub open spec fn is_rounding_mode(rm: u8) -> bool {
    rm <= 4
}

/// The rounding that mode `rm` selects; a mode that is not known selects
/// `TiesEven`.
pub open spec fn rounding_of(rm: u8) -> Rounding {
    if rm == 1 || rm == 4 {
        Rounding::TowardZero
    } else if rm == 2 {
        Rounding::Floor
    } else if rm == 3 {
        Rounding::Ceiling
    } else {
        Rounding::TiesEven
    }
}

/// The rounding that mode `rm` selects, and whether the mode is known.
pub fn round(rm: u8) -> (r: (Rounding, bool))
    ensures
        r.0 == rounding_of(rm),
        r.1 == is_rounding_mode(rm),
{
    if rm == 0 {
        (Rounding::TiesEven, true)
    } else if rm == 1 || rm == 4 {
        (Rounding::TowardZero, true)
    } else if rm == 2 {
        (Rounding::Floor, true)
    } else if rm == 3 {
        (Rounding::Ceiling, true)
    } else {
        (Rounding::TiesEven, false)
    }
}

/// What is asked of the floating-point unit.
#[derive(Clone, Copy, Debug, PartialEq, Eq, Structural)]
pub enum FloatOp {
    /// `fadd.s`: `a + b`.
    Add,
    /// `fsub.s`: `a - b`.
    Sub,
    /// `fmul.s`: `a * b`.
    Mul,
    /// `fdiv.s`: `a / b`.
    Div,
    /// `fsqrt.s`: the square root of `a`.
    Sqrt,
    /// `fmin.s`: the smaller of `a` and `b`.
    Min,
    /// `fmax.s`: the larger of `a` and `b`.
    Max,
    /// `fcvt.w.s`: `a` rounded to a signed integer.
    ToInt,
    /// `fcvt.wu.s`: `a` rounded to an unsigned integer.
    ToUint,
    /// `fcvt.s.w`: the signed integer `a` as a number.
    FromInt,
    /// `fcvt.s.wu`: the unsigned integer `a` as a number.
    FromUint,
}

impl FloatOp {
    /// Whether the result goes to a register of the base rather than to a
    /// float register.
    pub open spec fn to_base(self) -> bool {
        self is ToInt || self is ToUint
    }
}

/// An operation for the floating-point unit, with its operands as bits.
#[derive(Clone, Copy, Debug, PartialEq, Eq, Structural)]
pub struct FloatRequest {
    pub op: FloatOp,
    /// The rounding mode field of the instruction.
    pub rm: u8,
    /// The rounding that `rm` selects.
    pub rounding: Rounding,
    /// The first operand.
    pub a: u32,
    /// The second operand, where the operation has one.
    pub b: u32,
    /// The register that takes the result.
    pub rd: u8,
}

/// How an attempt to execute ended.
#[derive(Clone, Copy, Debug, PartialEq, Eq, Structural)]
pub enum FStep {
    /// Nothing is left to do.
    Done(EResult),
    /// The instruction is claimed; the result of the request is to be handed
    /// to `retire`.
    Compute(FloatRequest),
}

/// What an arithmetic instruction word asks for.
#[derive(Clone, Copy, Debug, PartialEq, Eq, Structural)]
pub enum FpAction {
    /// The word is not claimed.
    Unclaimed,
    /// An operation of the floating-point unit.
    Host(FloatOp),
    /// `fsgnj.s`, `fsgnjn.s`, `fsgnjx.s`.
    Inject,
    /// `fmv.x.w`.
    ToBits,
    /// `fclass.s`.
    Classify,
    /// `feq.s`, `flt.s`, `fle.s`.
    Compare,
    /// `fmv.w.x`.
    FromBits,
}

/// What the fields of an arithmetic instruction word ask for. The upper
/// five bits of `funct7` select the operation and its lower two the format,
/// which must be 0, single precision.
pub open spec fn action_of(funct7: u8, rm: u8, rs2: u8) -> FpAction {
    let funct5 = funct7 / 4;
    if funct7 % 4 != 0 {
        FpAction::Unclaimed
    } else if funct5 == 0 {
        FpAction::Host(FloatOp::Add)
    } else if funct5 == 1 {
        FpAction::Host(FloatOp::Sub)
    } else if funct5 == 2 {
        FpAction::Host(FloatOp::Mul)
    } else if funct5 == 3 {
        FpAction::Host(FloatOp::Div)
    } else if funct5 == 11 && rs2 == 0 {
        FpAction::Host(FloatOp::Sqrt)
    } else if funct5 == 4 && rm < 3 {
        FpAction::Inject
    } else if funct5 == 5 && rm == 0 {
        FpAction::Host(FloatOp::Min)
    } else if funct5 == 5 && rm == 1 {
        FpAction::Host(FloatOp::Max)
    } else if funct5 == 24 && rs2 == 0 {
        FpAction::Host(FloatOp::ToInt)
    } else if funct5 == 24 && rs2 == 1 {
        FpAction::Host(FloatOp::ToUint)
    } else if funct5 == 28 && rs2 == 0 && rm == 0 {
        FpAction::ToBits
    } else if funct5 == 28 && rs2 == 0 && rm == 1 {
        FpAction::Classify
    } else if funct5 == 20 && rm < 3 {
        FpAction::Compare
    } else if funct5 == 26 && rs2 == 0 {
        FpAction::Host(FloatOp::FromInt)
    } else if funct5 == 26 && rs2 == 1 {
        FpAction::Host(FloatOp::FromUint)
    } else if funct5 == 30 && rs2 == 0 && rm == 0 {
        FpAction::FromBits
    } else {
        FpAction::Unclaimed
    }
}

/// Reads the fields of an arithmetic instruction word.
pub fn action(funct7: u8, rm: u8, rs2: u8) -> (r: FpAction)
    ensures
        r == action_of(funct7, rm, rs2),
{
    let funct5 = funct7 / 4;
    let fmt = funct7 % 4;
    if fmt != 0 {
        return FpAction::Unclaimed;
    }
    if funct5 == 0 {
        FpAction::Host(FloatOp::Add)
    } else if funct5 == 1 {
        FpAction::Host(FloatOp::Sub)
    } else if funct5 == 2 {
        FpAction::Host(FloatOp::Mul)
    } else if funct5 == 3 {
        FpAction::Host(FloatOp::Div)
    } else if funct5 == 11 {
        if rs2 == 0 {
            FpAction::Host(FloatOp::Sqrt)
        } else {
            FpAction::Unclaimed
        }
    } else if funct5 == 4 {
        if rm < 3 {
            FpAction::Inject
        } else {
            FpAction::Unclaimed
        }
    } else if funct5 == 5 {
        if rm == 0 {
            FpAction::Host(FloatOp::Min)
        } else if rm == 1 {
            FpAction::Host(FloatOp::Max)
        } else {
            FpAction::Unclaimed
        }
    } else if funct5 == 24 {
        if rs2 == 0 {
            FpAction::Host(FloatOp::ToInt)
        } else if rs2 == 1 {
            FpAction::Host(FloatOp::ToUint)
        } else {
            FpAction::Unclaimed
        }
    } else if funct5 == 28 {
        if rs2 == 0 && rm == 0 {
            FpAction::ToBits
        } else if rs2 == 0 && rm == 1 {
            FpAction::Classify
        } else {
            FpAction::Unclaimed
        }
    } else if funct5 == 20 {
        if rm < 3 {
            FpAction::Compare
        } else {
            FpAction::Unclaimed
        }
    } else if funct5 == 26 {
        if rs2 == 0 {
            FpAction::Host(FloatOp::FromInt)
        } else if rs2 == 1 {
            FpAction::Host(FloatOp::FromUint)
        } else {
            FpAction::Unclaimed
        }
    } else if funct5 == 30 {
        if rs2 == 0 && rm == 0 {
            FpAction::FromBits
        } else {
            FpAction::Unclaimed
        }
    } else {
        FpAction::Unclaimed
    }
}

/// What a comparison yields, by rounding mode field: `fle.s` (0), `flt.s`
/// (1), `feq.s` (2).
pub open spec fn compare_spec(rm: u8, a: u32, b: u32) -> bool {
    if rm == 2 {
        eq_spec(a, b)
    } else if rm == 1 {
        lt_spec(a, b)
    } else {
        le_spec(a, b)
    }
}

/// The F extension: its registers, each the bits of a number.
pub struct RV32F {
    registers: [u32; 32],
}

impl View for RV32F {
    type V = Seq<u32>;

    closed spec fn view(&self) -> Seq<u32> {
        self.registers@
    }
}

impl Default for RV32F {
    /// Thirty-two registers that hold positive zero.
    fn default() -> (r: Self)
        ensures
            r@ == Seq::new(32, |i: int| 0u32),
    {
        let r = Self { registers: [0u32;32] };
        assert(r@ =~= Seq::new(32, |i: int| 0u32));
        r
    }
}

impl Volatile<u32> for RV32F {
    open spec fn count() -> usize {
        32
    }

    open spec fn reg(&self, index: usize) -> u32 {
        self@[index as int]
    }

    open spec fn hardwired(index: usize) -> bool {
        false
    }

    fn set(&mut self, index: usize, value: u32)
        ensures
            final(self)@ == old(self)@.update(index as int, value),
    {
        self.registers[index] = value;
        assert(self@ =~= old(self)@.update(index as int, value));
    }

    fn get(&self, index: usize) -> (value: u32) {
        self.registers[index]
    }
}

impl RV32F {
    /// There are thirty-two registers.
    pub proof fn lemma_registers(&self)
        ensures
            self@.len() == 32,
    {
    }
}

impl RV32F {
    /// Whether the extension claims `ins`.
    pub open spec fn claims(ins: u32) -> bool {
        let op = ins & OPCODE_MASK;
        let r = RType::spec_decode(ins);
        ||| op == OPCODE_LOADF && IType::spec_decode(ins).funct3 == 2
        ||| op == OPCODE_STOREF && SType::spec_decode(ins).funct3 == 2
        ||| op == OPCODE_OPFP && !(action_of(r.funct7, r.funct3, r.rs2) is Unclaimed)
    }

    /// The request that an operation of the floating-point unit gives rise
    /// to: its operands are float registers, but for the conversions from an
    /// integer, whose operand is a register of the base.
    pub open spec fn request_of(f: Seq<u32>, s: CoreState, op: FloatOp, d: RType) -> FloatRequest {
        FloatRequest {
            op,
            rm: d.funct3,
            rounding: rounding_of(d.funct3),
            a: if op is FromInt || op is FromUint {
                s.reg(d.rs1) as u32
            } else {
                f[d.rs1 as int]
            },
            b: f[d.rs2 as int],
            rd: d.rd,
        }
    }

    /// The float registers and the base after `execute`, and how the step
    /// ended.
    pub open spec fn spec_execute(f: Seq<u32>, s: CoreState, ins: u32) -> (
        Seq<u32>,
        CoreState,
        FStep,
    ) {
        let op = ins & OPCODE_MASK;
        let found = FStep::Done(EResult::Found);
        let declined = (f, s, FStep::Done(EResult::NotFound));
        if op == OPCODE_LOADF {
            let d = IType::spec_decode(ins);
            let addr = CoreState::address(s.reg(d.rs1), d.imm);
            if d.funct3 == 2 {
                (f.update(d.rd as int, Bus::spec_load(s.mem, addr, 32)), s, found)
            } else {
                declined
            }
        } else if op == OPCODE_STOREF {
            let d = SType::spec_decode(ins);
            let addr = CoreState::address(s.reg(d.rs1), d.imm);
            if d.funct3 == 2 {
                (
                    f,
                    CoreState { mem: Bus::spec_store(s.mem, addr, 32, f[d.rs2 as int]), ..s },
                    found,
                )
            } else {
                declined
            }
        } else if op == OPCODE_OPFP {
            let d = RType::spec_decode(ins);
            let a = f[d.rs1 as int];
            let b = f[d.rs2 as int];
            match action_of(d.funct7, d.funct3, d.rs2) {
                FpAction::Unclaimed => declined,
                FpAction::Host(op) => (f, s, FStep::Compute(Self::request_of(f, s, op, d))),
                FpAction::Inject => (
                    f.update(d.rd as int, inject_spec(d.funct3, a, b)),
                    s,
                    found,
                ),
                FpAction::ToBits => (f, s.write(d.rd, a as i32), found),
                FpAction::Classify => (f, s.write(d.rd, class_of(a) as i32), found),
                FpAction::Compare => (
                    f,
                    s.write(d.rd, flag(compare_spec(d.funct3, a, b))),
                    found,
                ),
                FpAction::FromBits => (f.update(d.rd as int, s.reg(d.rs1) as u32), s, found),
            }
        } else {
            declined
        }
    }

    /// The float registers and the base after `retire`.
    pub open spec fn spec_retire(f: Seq<u32>, s: CoreState, request: FloatRequest, value: u32) -> (
        Seq<u32>,
        CoreState,
    ) {
        if request.op.to_base() {
            (f, s.write(request.rd, value as i32))
        } else {
            (f.update(request.rd as int, value), s)
        }
    }

    /// Attempts to execute an instruction. A word that is not claimed
    /// changes nothing, and neither does one that needs the floating-point
    /// unit: its effect comes with `retire`.
    pub fn execute(&mut self, ins: u32, base: &mut RV32I) -> (r: FStep)
        ensures
            (final(self)@, final(base)@, r) == Self::spec_execute(old(self)@, old(base)@, ins),
            r matches FStep::Compute(request) ==> request.rd < 32,
            (r == FStep::Done(EResult::NotFound)) == !Self::claims(ins),
            !(r matches FStep::Done(EResult::Found)) ==> *final(self) == *old(self) && *final(base)
                == *old(base),
    {
        let opcode = ins & OPCODE_MASK;
        if opcode == OPCODE_LOADF {
            let ins = IType::decode(ins);
            if ins.funct3 != 2 {
                return FStep::Done(EResult::NotFound);
            }
            let rs1 = (base.get(ins.rs1 as usize).wrapping_add(ins.imm) as u32) as usize;
            let value = base.bus_ref().load(rs1, 32);
            self.set(ins.rd as usize, value);
        } else if opcode == OPCODE_STOREF {
            let ins = SType::decode(ins);
            if ins.funct3 != 2 {
                return FStep::Done(EResult::NotFound);
            }
            let rs1 = (base.get(ins.rs1 as usize).wrapping_add(ins.imm) as u32) as usize;
            let value = self.get(ins.rs2 as usize);
            base.bus().store(rs1, 32, value);
        } else if opcode == OPCODE_OPFP {
            let ins = RType::decode(ins);
            let rm = ins.funct3;
            match action(ins.funct7, rm, ins.rs2) {
                FpAction::Unclaimed => {
                    return FStep::Done(EResult::NotFound);
                },
                FpAction::Host(op) => {
                    let a = match op {
                        FloatOp::FromInt | FloatOp::FromUint => base.get(ins.rs1 as usize) as u32,
                        _ => self.get(ins.rs1 as usize),
                    };
                    let b = self.get(ins.rs2 as usize);
                    return FStep::Compute(
                        FloatRequest { op, rm, rounding: round(rm).0, a, b, rd: ins.rd },
                    );
                },
                FpAction::Inject => {
                    let rs1 = self.get(ins.rs1 as usize);
                    let rs2 = self.get(ins.rs2 as usize);
                    self.set(ins.rd as usize, inject_sign(rm, rs1, rs2));
                },
                FpAction::ToBits => {
                    let rs1 = self.get(ins.rs1 as usize);
                    base.set(ins.rd as usize, rs1 as i32);
                },
                FpAction::Classify => {
                    let rs1 = self.get(ins.rs1 as usize);
                    base.set(ins.rd as usize, classify(rs1) as i32);
                },
                FpAction::Compare => {
                    let rs1 = self.get(ins.rs1 as usize);
                    let rs2 = self.get(ins.rs2 as usize);
                    let value = if rm == 2 {
                        float_eq(rs1, rs2)
                    } else if rm == 1 {
                        float_lt(rs1, rs2)
                    } else {
                        float_le(rs1, rs2)
                    };
                    base.set(ins.rd as usize, value as i32);
                },
                FpAction::FromBits => {
                    let rs1 = base.get(ins.rs1 as usize) as u32;
                    self.set(ins.rd as usize, rs1);
                },
            }
        } else {
            return FStep::Done(EResult::NotFound);
        }
        FStep::Done(EResult::Found)
    }

    /// Writes the result of a request to its destination: a register of the
    /// base for the conversions to an integer, a float register otherwise.
    pub fn retire(&mut self, request: &FloatRequest, value: u32, base: &mut RV32I) -> (r: EResult)
        requires
            request.rd < 32,
        ensures
            (final(self)@, final(base)@) == Self::spec_retire(
                old(self)@,
                old(base)@,
                *request,
                value,
            ),
            r is Found,
    {
        match request.op {
            FloatOp::ToInt | FloatOp::ToUint => {
                base.set(request.rd as usize, value as i32);
            },
            _ => {
                self.set(request.rd as usize, value);
            },
        }
        EResult::Found
    }
}

impl RV32F {
    /// The extension reports a word as not recognized exactly where it does
    /// not claim it; then, and where it asks for the floating-point unit,
    /// the registers and the base are as they were.
    pub proof fn law_declined_is_untouched(f: Seq<u32>, s: CoreState, ins: u32)
        ensures
            ({
                let (after_f, after_s, step) = Self::spec_execute(f, s, ins);
                &&& (step == FStep::Done(EResult::NotFound)) == !Self::claims(ins)
                &&& step != FStep::Done(EResult::Found) ==> after_f == f && after_s == s
            }),
    {
    }
}

} // verus!

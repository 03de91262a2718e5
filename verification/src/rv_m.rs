//! The M extension: integer multiplication, division and remainder.
//!
//! Division never fails. By zero, the quotient is all ones and the remainder
//! is the dividend; the one signed quotient that does not fit, the smallest
//! number divided by minus one, is the smallest number, with remainder zero.

use crate::ins::RType;
use crate::ins::OPCODE_MASK;
use crate::ins::OPCODE_OP;
use crate::rv32i::ins::Instruction;
use crate::rv32i::CoreState;
use crate::rv32i::RV32I;
use crate::Base;
use crate::EResult;
use crate::Extension;
use crate::Volatile;
use vstd::prelude::*;

verus! {

/// Two to the power 32: what separates the low word of a product from its
/// high word.
pub open spec fn word_range() -> int {
    0x1_0000_0000
}

/// The quotient of `a` by `b`, rounded towards zero.
pub open spec fn trunc_div(a: int, b: int) -> int
    recommends
        b != 0,
{
    if a >= 0 {
        if b > 0 {
            a / b
        } else {
            -(a / (-b))
        }
    } else {
        if b > 0 {
            -((-a) / b)
        } else {
            (-a) / (-b)
        }
    }
}

/// What is left of `a` after `trunc_div`: it has the sign of `a`.
pub open spec fn trunc_rem(a: int, b: int) -> int
    recommends
        b != 0,
{
    a - b * trunc_div(a, b)
}

/// What an instruction of the extension computes, by `funct3`: `mul`,
/// `mulh`, `mulhu`, `mulhsu`, `div`, `divu`, `rem`, `remu`.
pub open spec fn m_value(funct3: u8, a: i32, b: i32) -> i32 {
    let ua = (a as u32) as int;
    let ub = (b as u32) as int;
    if funct3 == 0 {
        a.wrapping_mul(b)
    } else if funct3 == 1 {
        ((a * b) / word_range()) as i32
    } else if funct3 == 2 {
        (((ua * ub) / word_range()) as u32) as i32
    } else if funct3 == 3 {
        ((a * ub) / word_range()) as i32
    } else if funct3 == 4 {
        if b == 0 {
            -1i32
        } else if a == i32::MIN && b == -1 {
            i32::MIN
        } else {
            trunc_div(a as int, b as int) as i32
        }
    } else if funct3 == 5 {
        if ub == 0 {
            -1i32
        } else {
            ((ua / ub) as u32) as i32
        }
    } else if funct3 == 6 {
        if b == 0 {
            a
        } else if a == i32::MIN && b == -1 {
            0
        } else {
            trunc_rem(a as int, b as int) as i32
        }
    } else {
        if ub == 0 {
            a
        } else {
            ((ua % ub) as u32) as i32
        }
    }
}

/// The size of `a` without its sign.
pub open spec fn magnitude_of(a: int) -> int {
    if a < 0 {
        -a
    } else {
        a
    }
}

fn magnitude(a: i32) -> (m: u32)
    ensures
        m == magnitude_of(a as int),
{
    if a < 0 {
        (-(a as i64)) as u32
    } else {
        a as u32
    }
}

/// `mulh`: the high word of the product of two signed numbers.
fn high_signed(a: i32, b: i32) -> (v: i32)
    ensures
        v == m_value(1, a, b),
{
    assert(-0x4000_0000_0000_0000 <= a as int * b as int <= 0x4000_0000_0000_0000)
        by (nonlinear_arith);
    let p: i64 = (a as i64) * (b as i64);
    let h: i64 = p >> 32;
    assert(h == p / 0x1_0000_0000 && -0x8000_0000 <= h < 0x8000_0000) by (bit_vector)
        requires
            h == p >> 32,
            -0x4000_0000_0000_0000 <= p <= 0x4000_0000_0000_0000,
    ;
    h as i32
}

/// `mulhu`: the high word of the product of two numbers without a sign.
fn high_unsigned(a: i32, b: i32) -> (v: i32)
    ensures
        v == m_value(2, a, b),
{
    let ua: u64 = (a as u32) as u64;
    let ub: u64 = (b as u32) as u64;
    assert(0 <= ua as int * ub as int <= 0xffff_ffff * 0xffff_ffff) by (nonlinear_arith)
        requires
            ua <= 0xffff_ffff,
            ub <= 0xffff_ffff,
    ;
    (((ua * ub) / 0x1_0000_0000) as u32) as i32
}

/// `mulhsu`: the high word of the product of a signed number and one
/// without a sign.
fn high_mixed(a: i32, b: i32) -> (v: i32)
    ensures
        v == m_value(3, a, b),
{
    let ub: i64 = (b as u32) as i64;
    assert(-0x8000_0000 * 0xffff_ffff <= a as int * ub as int <= 0x7fff_ffff * 0xffff_ffff)
        by (nonlinear_arith)
        requires
            0 <= ub <= 0xffff_ffff,
    ;
    let p: i64 = (a as i64) * ub;
    let h: i64 = p >> 32;
    assert(h == p / 0x1_0000_0000 && -0x8000_0000 <= h < 0x8000_0000) by (bit_vector)
        requires
            h == p >> 32,
            -0x8000_0000 * 0xffff_ffff <= p <= 0x7fff_ffff * 0xffff_ffff,
    ;
    h as i32
}

/// `div`: the signed quotient.
fn quotient(a: i32, b: i32) -> (v: i32)
    ensures
        v == m_value(4, a, b),
{
    if b == 0 {
        -1
    } else if a == i32::MIN && b == -1 {
        i32::MIN
    } else {
        let q: i64 = (magnitude(a) / magnitude(b)) as i64;
        if (a < 0) != (b < 0) {
            (-q) as i32
        } else {
            q as i32
        }
    }
}

/// `rem`: the signed remainder.
fn remainder(a: i32, b: i32) -> (v: i32)
    ensures
        v == m_value(6, a, b),
{
    if b == 0 {
        a
    } else if a == i32::MIN && b == -1 {
        0
    } else {
        let r: i64 = (magnitude(a) % magnitude(b)) as i64;
        proof {
            let (ma, mb) = (magnitude_of(a as int), magnitude_of(b as int));
            vstd::arithmetic::div_mod::lemma_fundamental_div_mod(ma, mb);
            assert(mb * (ma / mb) == (ma / mb) * mb) by (nonlinear_arith);
            assert(b * trunc_div(a as int, b as int) == if a < 0 {
                -(mb * (ma / mb))
            } else {
                mb * (ma / mb)
            }) by (nonlinear_arith)
                requires
                    b != 0,
                    ma == magnitude_of(a as int),
                    mb == magnitude_of(b as int),
            ;
        }
        if a < 0 {
            (-r) as i32
        } else {
            r as i32
        }
    }
}

/// Computes what the instruction with this `funct3` yields.
fn compute(funct3: u8, a: i32, b: i32) -> (v: i32)
    requires
        funct3 < 8,
    ensures
        v == m_value(funct3, a, b),
{
    if funct3 == 0 {
        a.wrapping_mul(b)
    } else if funct3 == 1 {
        high_signed(a, b)
    } else if funct3 == 2 {
        high_unsigned(a, b)
    } else if funct3 == 3 {
        high_mixed(a, b)
    } else if funct3 == 4 {
        quotient(a, b)
    } else if funct3 == 5 {
        if b as u32 == 0 {
            -1
        } else {
            ((a as u32) / (b as u32)) as i32
        }
    } else if funct3 == 6 {
        remainder(a, b)
    } else {
        if b as u32 == 0 {
            a
        } else {
            ((a as u32) % (b as u32)) as i32
        }
    }
}

// ---- On decoded instructions, over any base ----
/// The M extension on decoded instructions, over any base engine.
pub struct RvM;

impl RvM {
    /// Executes a decoded instruction where the extension claims it: a
    /// register-register instruction with `funct7` 1.
    pub fn execute<B: Base<i32>>(&mut self, ins: &Instruction, base: &mut B) -> (r: Option<()>)
        requires
            B::count() == 32,
            ins matches Instruction::Op(d) ==> d.wf(),
        ensures
            r is Some <==> (ins matches Instruction::Op(d) && d.funct7 == 1),
            r is None ==> *final(base) == *old(base),
            r is Some ==> (ins matches Instruction::Op(d) && forall|i: usize|
                i < 32 ==> #[trigger] final(base).reg(i) == if i == d.rd && !B::hardwired(i) {
                    m_value(d.funct3, old(base).reg(d.rs1 as usize), old(base).reg(d.rs2 as usize))
                } else {
                    old(base).reg(i)
                }),
    {
        match ins {
            Instruction::Op(data) => {
                if data.funct7 != 1 {
                    return None;
                }
                let rs1 = base.get(data.rs1 as usize);
                let rs2 = base.get(data.rs2 as usize);
                let value = compute(data.funct3, rs1, rs2);
                base.set(data.rd as usize, value);
                Some(())
            },
            _ => None,
        }
    }
}

// ---- On instruction words, over the base engine ----
/// The M extension on instruction words, over the base integer engine.
pub struct RV32M;

impl RV32M {
    /// The state of the base after the extension executed `ins`, and what it
    /// reports.
    pub open spec fn spec_execute(s: CoreState, ins: u32) -> (CoreState, EResult) {
        let d = RType::spec_decode(ins);
        if Self::claims(ins) {
            (s.write(d.rd, m_value(d.funct3, s.reg(d.rs1), s.reg(d.rs2))), EResult::Found)
        } else {
            (s, EResult::NotFound)
        }
    }
}

impl RV32M {
    /// The extension reports a word as not recognized exactly where it does
    /// not claim it, and then the base is as it was.
    pub proof fn law_declined_is_untouched(s: CoreState, ins: u32)
        ensures
            (Self::spec_execute(s, ins).1 is NotFound) == !Self::claims(ins),
            Self::spec_execute(s, ins).1 is NotFound ==> Self::spec_execute(s, ins).0 == s,
    {
    }
}

/// Multiplication keeps the low word of the product, whatever its size, and
/// division by zero has a result: all ones for the quotient, the dividend
/// for the remainder.
pub proof fn law_defined_everywhere(a: i32)
    ensures
        m_value(0, i32::MIN, -1i32) == i32::MIN,
        m_value(4, a, 0) == -1,
        m_value(5, a, 0) == -1,
        m_value(6, a, 0) == a,
        m_value(7, a, 0) == a,
        m_value(4, i32::MIN, -1i32) == i32::MIN,
        m_value(6, i32::MIN, -1i32) == 0,
{
    assert((0i32 as u32) == 0) by (bit_vector);
}

/// Where a division has a quotient in range, quotient and remainder make up
/// the dividend, and the remainder is smaller than the divisor and has the
/// sign of the dividend.
pub proof fn law_division(a: i32, b: i32)
    requires
        b != 0,
        !(a == i32::MIN && b == -1),
    ensures
        a == b * m_value(4, a, b) + m_value(6, a, b),
        magnitude_of(m_value(6, a, b) as int) < magnitude_of(b as int),
        m_value(6, a, b) == 0 || (m_value(6, a, b) < 0) == (a < 0),
{
    let (ma, mb) = (magnitude_of(a as int), magnitude_of(b as int));
    let (q, r) = (ma / mb, ma % mb);
    vstd::arithmetic::div_mod::lemma_fundamental_div_mod(ma, mb);
    vstd::arithmetic::div_mod::lemma_mod_pos_bound(ma, mb);
    assert(0 <= q <= ma) by (nonlinear_arith)
        requires
            ma == mb * q + r,
            0 <= r < mb,
            0 <= ma,
    ;
    assert(q < 0x8000_0000 || (a == i32::MIN && mb == 1)) by (nonlinear_arith)
        requires
            ma == mb * q + r,
            0 <= r < mb,
            ma <= 0x8000_0000,
            ma == 0x8000_0000 ==> a == i32::MIN,
    ;
    assert(b * trunc_div(a as int, b as int) == if a < 0 {
        -(mb * q)
    } else {
        mb * q
    }) by (nonlinear_arith)
        requires
            b != 0,
            ma == magnitude_of(a as int),
            mb == magnitude_of(b as int),
            q == ma / mb,
    ;
}

/// The bits of a register as a number without a sign.
proof fn lemma_unsigned(y: i32)
    by (bit_vector)
    ensures
        y < 0 ==> (y as u32) == y + 0x1_0000_0000,
        y >= 0 ==> (y as u32) == y,
{
}

/// `mul` and `mulh` together hold the whole product: the high word, and
/// below it the low word as a number without a sign.
pub proof fn law_product(a: i32, b: i32)
    ensures
        a * b == m_value(1, a, b) * word_range() + (m_value(0, a, b) as u32),
{
    let x = a as int * b as int;
    let low = x % word_range();
    assert(-0x4000_0000_0000_0000 <= x <= 0x4000_0000_0000_0000) by (nonlinear_arith)
        requires
            x == a as int * b as int,
    ;
    vstd::arithmetic::div_mod::lemma_fundamental_div_mod(x, word_range());
    lemma_unsigned(m_value(0, a, b));
    assert(m_value(0, a, b) == if low > i32::MAX {
        low - word_range()
    } else {
        low
    });
}

impl Extension<RV32I> for RV32M {
    open spec fn claims(ins: u32) -> bool {
        ins & OPCODE_MASK == OPCODE_OP && RType::spec_decode(ins).funct7 == 1
    }

    fn execute(&mut self, ins: u32, base: &mut RV32I) -> (r: EResult)
        ensures
            (final(base)@, r) == RV32M::spec_execute(old(base)@, ins),
    {
        if ins & OPCODE_MASK != OPCODE_OP {
            return EResult::NotFound;
        }
        let data = RType::decode(ins);
        if data.funct7 != 1 {
            return EResult::NotFound;
        }
        let rs1 = base.get(data.rs1 as usize);
        let rs2 = base.get(data.rs2 as usize);
        let value = compute(data.funct3, rs1, rs2);
        base.set(data.rd as usize, value);
        EResult::Found
    }
}

} // verus!

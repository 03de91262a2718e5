//! The F extension: thirty-two single-precision registers.
//!
//! A register holds the 32 bits of an IEEE 754 single-precision number. What
//! can be said of the bits alone is done here: loads and stores, moves,
//! sign injection, classification and comparison. Arithmetic, square root,
//! minimum, maximum and the conversions between numbers and integers need a
//! floating-point unit, which this module does not have: for those `execute`
//! hands back a `FloatRequest` with the operands, the caller computes the
//! result, and `retire` writes it to its destination.
//!
//! A load or store addresses memory as those of the base do: by register
//! `rs1` of the base plus the immediate.

use crate::ins::IType;
use crate::ins::RType;
use crate::ins::SType;
use vstd::prelude::*;

pub mod rv32;

pub use rv32::FStep;
pub use rv32::FloatOp;
pub use rv32::FloatRequest;
pub use rv32::FpAction;
pub use rv32::Rounding;
pub use rv32::RV32F;

verus! {

/// Float loads.
pub const OPCODE_LOADF: u32 = 0b0000111;

/// Float stores.
pub const OPCODE_STOREF: u32 = 0b0100111;

/// Float arithmetic, moves, conversions and comparisons.
pub const OPCODE_OPFP: u32 = 0b1010011;

/// The shape of each opcode's instructions.
pub type TypeLoadF = IType;

pub type TypeStoreF = SType;

pub type TypeOpFp = RType;

// ---- The bits of a number ----
/// Whether the sign bit is set.
pub open spec fn is_negative(bits: u32) -> bool {
    bits & 0x8000_0000 != 0
}

/// The eight bits of the exponent.
pub open spec fn exponent(bits: u32) -> u32 {
    (bits >> 23) & 0xff
}

/// The twenty-three bits of the fraction.
pub open spec fn fraction(bits: u32) -> u32 {
    bits & 0x7f_ffff
}

/// Not a number: the largest exponent with a fraction.
pub open spec fn is_nan(bits: u32) -> bool {
    exponent(bits) == 255 && fraction(bits) != 0
}

/// An infinity: the largest exponent without a fraction.
pub open spec fn is_infinite(bits: u32) -> bool {
    exponent(bits) == 255 && fraction(bits) == 0
}

/// A normal number: an exponent that is neither the least nor the largest.
pub open spec fn is_normal(bits: u32) -> bool {
    exponent(bits) != 0 && exponent(bits) != 255
}

/// A subnormal number: the least exponent with a fraction.
pub open spec fn is_subnormal(bits: u32) -> bool {
    exponent(bits) == 0 && fraction(bits) != 0
}

/// Where a number that is not NaN stands in the order of all such numbers:
/// its bits below the sign, negated where the sign is set. Both zeros stand
/// at 0.
pub open spec fn rank(bits: u32) -> int {
    if is_negative(bits) {
        -((bits & 0x7fff_ffff) as int)
    } else {
        (bits & 0x7fff_ffff) as int
    }
}

/// The class of a number as a mask with one bit set. From bit 0 up:
/// negative infinity, negative normal, negative subnormal, negative zero,
/// positive zero, positive subnormal, positive normal, positive infinity,
/// signaling NaN, quiet NaN.
pub open spec fn class_of(bits: u32) -> u32 {
    if is_nan(bits) {
        if bits & 0x40_0000 != 0 {
            0x200
        } else {
            0x100
        }
    } else if is_negative(bits) {
        if is_infinite(bits) {
            0x001
        } else if is_normal(bits) {
            0x002
        } else if is_subnormal(bits) {
            0x004
        } else {
            0x008
        }
    } else {
        if is_infinite(bits) {
            0x080
        } else if is_normal(bits) {
            0x040
        } else if is_subnormal(bits) {
            0x020
        } else {
            0x010
        }
    }
}

/// `feq.s`: equal, and neither is NaN.
pub open spec fn eq_spec(a: u32, b: u32) -> bool {
    !is_nan(a) && !is_nan(b) && rank(a) == rank(b)
}

/// `flt.s`: less, and neither is NaN.
pub open spec fn lt_spec(a: u32, b: u32) -> bool {
    !is_nan(a) && !is_nan(b) && rank(a) < rank(b)
}

/// `fle.s`: less or equal, and neither is NaN.
pub open spec fn le_spec(a: u32, b: u32) -> bool {
    !is_nan(a) && !is_nan(b) && rank(a) <= rank(b)
}

/// Sign injection: the bits of `a` below the sign, under the sign of `b`
/// (`fsgnj.s`, `rm` 0), its opposite (`fsgnjn.s`, `rm` 1), or the two signs
/// combined by exclusive or (`fsgnjx.s`, `rm` 2).
pub open spec fn inject_spec(rm: u8, a: u32, b: u32) -> u32 {
    if rm == 0 {
        (a & 0x7fff_ffff) | (b & 0x8000_0000)
    } else if rm == 1 {
        (a & 0x7fff_ffff) | (!b & 0x8000_0000)
    } else {
        a ^ (b & 0x8000_0000)
    }
}

fn nan(bits: u32) -> (r: bool)
    ensures
        r == is_nan(bits),
{
    (bits >> 23) & 0xff == 255 && bits & 0x7f_ffff != 0
}

fn rank_of(bits: u32) -> (r: i64)
    ensures
        r == rank(bits),
{
    let size: i64 = (bits & 0x7fff_ffff) as i64;
    if bits & 0x8000_0000 != 0 {
        -size
    } else {
        size
    }
}

/// `feq.s` on the bits of two numbers.
pub fn float_eq(a: u32, b: u32) -> (r: bool)
    ensures
        r == eq_spec(a, b),
{
    !nan(a) && !nan(b) && rank_of(a) == rank_of(b)
}

/// `flt.s` on the bits of two numbers.
pub fn float_lt(a: u32, b: u32) -> (r: bool)
    ensures
        r == lt_spec(a, b),
{
    !nan(a) && !nan(b) && rank_of(a) < rank_of(b)
}

/// `fle.s` on the bits of two numbers.
pub fn float_le(a: u32, b: u32) -> (r: bool)
    ensures
        r == le_spec(a, b),
{
    !nan(a) && !nan(b) && rank_of(a) <= rank_of(b)
}

/// Sign injection on the bits of two numbers, by rounding mode field.
pub fn inject_sign(rm: u8, a: u32, b: u32) -> (r: u32)
    requires
        rm < 3,
    ensures
        r == inject_spec(rm, a, b),
{
    if rm == 0 {
        (a & 0x7fff_ffff) | (b & 0x8000_0000)
    } else if rm == 1 {
        (a & 0x7fff_ffff) | (!b & 0x8000_0000)
    } else {
        a ^ (b & 0x8000_0000)
    }
}

/// `fclass.s` on the bits of a number.
pub fn classify(bits: u32) -> (mask: u32)
    ensures
        mask == class_of(bits),
{
    let e: u32 = (bits >> 23) & 0xff;
    let f: u32 = bits & 0x7f_ffff;
    let negative = bits & 0x8000_0000 != 0;
    if e == 255 && f != 0 {
        if bits & 0x40_0000 != 0 {
            0x200
        } else {
            0x100
        }
    } else if e == 255 {
        if negative {
            0x001
        } else {
            0x080
        }
    } else if e != 0 {
        if negative {
            0x002
        } else {
            0x040
        }
    } else if f != 0 {
        if negative {
            0x004
        } else {
            0x020
        }
    } else {
        if negative {
            0x008
        } else {
            0x010
        }
    }
}

/// The comparison of a NaN with anything is false; in particular a NaN does
/// not equal itself.
pub proof fn law_nan_is_unordered(a: u32, b: u32)
    requires
        is_nan(a) || is_nan(b),
    ensures
        !eq_spec(a, b),
        !lt_spec(a, b),
        !le_spec(a, b),
{
}

/// The two zeros are equal to each other, and every number that is not NaN
/// equals itself.
pub proof fn law_eq_reflexive(a: u32)
    ensures
        !is_nan(a) ==> eq_spec(a, a),
        eq_spec(0, 0x8000_0000),
{
    assert(exponent(0) == 0 && fraction(0) == 0 && exponent(0x8000_0000) == 0 && fraction(
        0x8000_0000,
    ) == 0 && 0u32 & 0x7fff_ffff == 0 && 0x8000_0000u32 & 0x7fff_ffff == 0) by (bit_vector);
}

/// Every number is in exactly one class: the mask has a single bit set, one
/// of the low ten. Positive zero is in class 4.
pub proof fn law_class_one_hot(bits: u32)
    ensures
        exists|k: u32| k < 10 && class_of(bits) == 1u32 << k,
        class_of(0) == 0x010,
{
    assert(1u32 << 0 == 0x001 && 1u32 << 1 == 0x002 && 1u32 << 2 == 0x004 && 1u32 << 3 == 0x008
        && 1u32 << 4 == 0x010 && 1u32 << 5 == 0x020 && 1u32 << 6 == 0x040 && 1u32 << 7 == 0x080
        && 1u32 << 8 == 0x100 && 1u32 << 9 == 0x200) by (bit_vector);
    assert(exponent(0) == 0 && fraction(0) == 0 && 0u32 & 0x8000_0000 == 0) by (bit_vector);
    let c = class_of(bits);
    let k: u32 = if c == 0x001 {
        0
    } else if c == 0x002 {
        1
    } else if c == 0x004 {
        2
    } else if c == 0x008 {
        3
    } else if c == 0x010 {
        4
    } else if c == 0x020 {
        5
    } else if c == 0x040 {
        6
    } else if c == 0x080 {
        7
    } else if c == 0x100 {
        8
    } else {
        9
    };
    assert(k < 10 && class_of(bits) == 1u32 << k);
}

/// On numbers, less is a strict order, and less or equal is less or equal:
/// nothing is less than itself, of two numbers no more than one is less
/// than the other, and what is less than something less than a third is
/// less than the third.
pub proof fn law_comparisons_order(a: u32, b: u32, c: u32)
    ensures
        !lt_spec(a, a),
        !(lt_spec(a, b) && lt_spec(b, a)),
        lt_spec(a, b) && lt_spec(b, c) ==> lt_spec(a, c),
        le_spec(a, b) == (lt_spec(a, b) || eq_spec(a, b)),
        !is_nan(a) && !is_nan(b) ==> lt_spec(a, b) || eq_spec(a, b) || lt_spec(b, a),
{
}

/// Sign injection changes nothing but the sign: the bits below it are those
/// of the first operand.
pub proof fn law_inject_keeps_size(rm: u8, a: u32, b: u32)
    by (bit_vector)
    ensures
        inject_spec(rm, a, b) & 0x7fff_ffff == a & 0x7fff_ffff,
        inject_spec(0, a, a) == a,
        inject_spec(2, a, a) == a & 0x7fff_ffff,
{
}

} // verus!

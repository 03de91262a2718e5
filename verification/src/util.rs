//! Bit-level helpers shared by every instruction shape.

use vstd::prelude::*;

verus! {

/// The `width` bits of `word` that start at bit `lo`, right-aligned.
pub open spec fn field(word: u32, lo: u32, width: u32) -> u32
    recommends
        0 < width,
        lo + width <= 32,
{
    (word >> lo) & (0xffff_ffffu32 >> ((32 - width) as u32))
}

/// The low `width` bits of `value`, moved up so that they start at bit `lo`.
pub open spec fn place(value: u32, lo: u32, width: u32) -> u32
    recommends
        0 < width,
        lo + width <= 32,
{
    (value & (0xffff_ffffu32 >> ((32 - width) as u32))) << lo
}

/// The low `size` bits of `data` read as a two's complement number: where
/// bit `size - 1` is set every higher bit of the result is set, and where it
/// is clear every higher bit is clear.
pub open spec fn sign_extend_spec(data: u32, size: u32) -> i32
    recommends
        0 < size <= 32,
{
    let upper: u32 = 0xffff_ffffu32 << ((size - 1) as u32);
    if data & (1u32 << ((size - 1) as u32)) != 0 {
        (data | upper) as i32
    } else {
        (data & !upper) as i32
    }
}

/// Replicates bit `size - 1` of `data` into all higher bits of the result.
pub fn sign_extend(data: u32, size: u32) -> (r: i32)
    requires
        0 < size <= 32,
    ensures
        r == sign_extend_spec(data, size),
{
    let shift: u32 = 32 - size;
    let r: i32 = ((data << shift) as i32) >> shift;
    assert(r == sign_extend_spec(data, size)) by (bit_vector)
        requires
            0 < size <= 32,
            shift == 32 - size,
            r == ((data << shift) as i32) >> shift,
    ;
    r
}

/// A sign-extended value lies in the range of a `size`-bit signed number,
/// and its low `size` bits are those of `data`.
pub proof fn law_sign_extend_range(data: u32, size: u32)
    by (bit_vector)
    requires
        0 < size <= 32,
    ensures
        -(1i64 << ((size - 1) as u32)) <= sign_extend_spec(data, size) as i64,
        (sign_extend_spec(data, size) as i64) < (1i64 << ((size - 1) as u32)),
        place(sign_extend_spec(data, size) as u32, 0, size) == field(data, 0, size),
{
}

} // verus!

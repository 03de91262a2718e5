//! Little-endian numbers in a byte sequence.

use vstd::prelude::*;

verus! {

/// The unsigned number that `count` bytes of `bytes` spell from index `at`
/// on, least significant byte first.
pub open spec fn le_value(bytes: Seq<u8>, at: int, count: nat) -> nat
    decreases count,
{
    if count == 0 {
        0
    } else {
        bytes[at] as nat + 256 * le_value(bytes, at + 1, (count - 1) as nat)
    }
}

/// Byte `k` of `value`, counted from the least significant.
pub open spec fn le_byte(value: nat, k: nat) -> u8
    decreases k,
{
    if k == 0 {
        (value % 256) as u8
    } else {
        le_byte(value / 256, (k - 1) as nat)
    }
}

/// `bytes` with the `count` low bytes of `value` written from index `at` on,
/// least significant byte first.
pub open spec fn write_le(bytes: Seq<u8>, at: int, count: nat, value: nat) -> Seq<u8> {
    Seq::new(
        bytes.len(),
        |j: int|
            if at <= j < at + count {
                le_byte(value, (j - at) as nat)
            } else {
                bytes[j]
            },
    )
}

/// `256` to the power `count`.
pub open spec fn byte_range(count: nat) -> nat
    decreases count,
{
    if count == 0 {
        1
    } else {
        256 * byte_range((count - 1) as nat)
    }
}

/// One byte is the number that it spells.
pub proof fn lemma_value_1(bytes: Seq<u8>, at: int)
    ensures
        le_value(bytes, at, 1) == bytes[at],
{
    reveal_with_fuel(le_value, 2);
}

/// Two bytes spell the first plus 256 times the second.
pub proof fn lemma_value_2(bytes: Seq<u8>, at: int)
    ensures
        le_value(bytes, at, 2) == bytes[at] + 256 * bytes[at + 1],
{
    reveal_with_fuel(le_value, 3);
}

/// Four bytes spell the sum of each times the power of 256 of its place.
pub proof fn lemma_value_4(bytes: Seq<u8>, at: int)
    ensures
        le_value(bytes, at, 4) == bytes[at] + 256 * bytes[at + 1] + 65536 * bytes[at + 2] + 16777216
            * bytes[at + 3],
{
    reveal_with_fuel(le_value, 5);
}

/// `bytes` with `count` bytes set one after another from `at` on to the
/// low bytes of `value`.
pub open spec fn set_bytes(bytes: Seq<u8>, at: int, count: nat, value: nat) -> Seq<u8>
    decreases count,
{
    if count == 0 {
        bytes
    } else {
        set_bytes(bytes.update(at, (value % 256) as u8), at + 1, (count - 1) as nat, value / 256)
    }
}

/// Writing a number is setting each of its bytes in turn.
pub proof fn lemma_write(bytes: Seq<u8>, at: int, count: nat, value: nat)
    requires
        0 <= at,
        at + count <= bytes.len(),
        count == 1 || count == 2 || count == 4,
    ensures
        write_le(bytes, at, count, value) == set_bytes(bytes, at, count, value),
        set_bytes(bytes, at, 1, value) == bytes.update(at, (value % 256) as u8),
        set_bytes(bytes, at, 2, value) == set_bytes(bytes, at, 1, value).update(
            at + 1,
            ((value / 256) % 256) as u8,
        ),
        set_bytes(bytes, at, 4, value) == set_bytes(bytes, at, 2, value).update(
            at + 2,
            ((value / 65536) % 256) as u8,
        ).update(at + 3, ((value / 16777216) % 256) as u8),
{
    reveal_with_fuel(le_byte, 5);
    reveal_with_fuel(set_bytes, 5);
    let b0 = (value % 256) as u8;
    let b1 = ((value / 256) % 256) as u8;
    let b2 = ((value / 65536) % 256) as u8;
    let b3 = ((value / 16777216) % 256) as u8;
    if count == 1 {
        assert(write_le(bytes, at, 1, value) =~= bytes.update(at, b0));
    } else if count == 2 {
        assert(write_le(bytes, at, 2, value) =~= bytes.update(at, b0).update(at + 1, b1));
    } else {
        assert(write_le(bytes, at, 4, value) =~= bytes.update(at, b0).update(at + 1, b1).update(
            at + 2,
            b2,
        ).update(at + 3, b3));
    }
}

/// Reading back what was written gives the value again, cut to the bytes
/// that were written; writing touches no other byte and keeps the length.
pub proof fn law_read_after_write(bytes: Seq<u8>, at: int, count: nat, value: nat)
    requires
        0 <= at,
        at + count <= bytes.len(),
    ensures
        byte_range(count) > 0,
        le_value(write_le(bytes, at, count, value), at, count) == value % byte_range(count),
        write_le(bytes, at, count, value).len() == bytes.len(),
        forall|j: int|
            0 <= j < bytes.len() && !(at <= j < at + count) ==> write_le(bytes, at, count, value)[j]
                == bytes[j],
    decreases count,
{
    if count > 0 {
        let rest = (count - 1) as nat;
        let written = write_le(bytes, at, count, value);
        let inner = write_le(bytes, at + 1, rest, value / 256);
        law_read_after_write(bytes, at + 1, rest, value / 256);
        lemma_le_value_agrees(written, inner, at + 1, rest);
        assert(le_byte(value, 0) == value % 256);
        vstd::arithmetic::div_mod::lemma_mod_breakdown(
            value as int,
            256,
            byte_range(rest) as int,
        );
    }
}

proof fn lemma_le_value_agrees(a: Seq<u8>, b: Seq<u8>, at: int, count: nat)
    requires
        forall|j: int| at <= j < at + count ==> a[j] == b[j],
    ensures
        le_value(a, at, count) == le_value(b, at, count),
    decreases count,
{
    if count > 0 {
        lemma_le_value_agrees(a, b, at + 1, (count - 1) as nat);
    }
}

} // verus!

//! A byte store with typed accessors: bytes, halfwords and words, signed or
//! unsigned, least significant byte first.

use crate::bytes::le_value;
use crate::bytes::lemma_value_1;
use crate::bytes::lemma_value_2;
use crate::bytes::lemma_value_4;
use crate::bytes::lemma_write;
use crate::bytes::write_le;
use crate::util::sign_extend;
use crate::util::sign_extend_spec;
use vstd::prelude::*;

verus! {

/// A byte store: a fixed number of bytes, a multiple of four.
pub struct Memory {
    inner: Vec<u8>,
}

impl View for Memory {
    type V = Seq<u8>;

    closed spec fn view(&self) -> Seq<u8> {
        self.inner@
    }
}

impl Memory {
    #[verifier::type_invariant]
    spec fn whole_words(&self) -> bool {
        self.inner@.len() % 4 == 0
    }

    /// A store of `len` zero bytes.
    pub fn new(len: usize) -> (r: Self)
        requires
            len % 4 == 0,
        ensures
            r@ == Seq::new(len as nat, |i: int| 0u8),
    {
        let r = Self { inner: vec![0; len] };
        assert(r.inner@ =~= Seq::new(len as nat, |i: int| 0u8));
        r
    }

    fn get(&self, i: usize) -> (b: u8)
        requires
            i < self@.len(),
        ensures
            b == self@[i as int],
    {
        self.inner[i]
    }

    fn set(&mut self, i: usize, value: u8)
        requires
            i < old(self)@.len(),
        ensures
            final(self)@ == old(self)@.update(i as int, value),
    {
        proof {
            use_type_invariant(&*self);
        }
        self.inner[i] = value;
    }

    /// The two bytes from `i` on as a number.
    fn halfword(&self, i: usize) -> (v: u32)
        requires
            i + 2 <= self@.len(),
        ensures
            v == le_value(self@, i as int, 2),
            v < 0x1_0000,
    {
        proof {
            lemma_value_2(self@, i as int);
            assert(self@.len() == self.inner.len());
        }
        self.get(i) as u32 + self.get(i + 1) as u32 * 256
    }

    // ---- Load ----
    /// The byte at `i`, sign-extended.
    pub fn load_byte(&self, i: usize) -> (v: i32)
        requires
            i < self@.len(),
        ensures
            v == sign_extend_spec(le_value(self@, i as int, 1) as u32, 8),
    {
        proof {
            lemma_value_1(self@, i as int);
        }
        sign_extend(self.get(i) as u32, 8)
    }

    /// The byte at `i`, zero-extended.
    pub fn load_ubyte(&self, i: usize) -> (v: i32)
        requires
            i < self@.len(),
        ensures
            v == le_value(self@, i as int, 1),
    {
        proof {
            lemma_value_1(self@, i as int);
        }
        self.get(i) as i32
    }

    /// The halfword at `i`, sign-extended.
    pub fn load_halfword(&self, i: usize) -> (v: i32)
        requires
            i + 2 <= self@.len(),
        ensures
            v == sign_extend_spec(le_value(self@, i as int, 2) as u32, 16),
    {
        sign_extend(self.halfword(i), 16)
    }

    /// The halfword at `i`, zero-extended.
    pub fn load_uhalfword(&self, i: usize) -> (v: i32)
        requires
            i + 2 <= self@.len(),
        ensures
            v == le_value(self@, i as int, 2),
    {
        self.halfword(i) as i32
    }

    /// The word at `i`, its 32 bits read as a signed number.
    pub fn load_word(&self, i: usize) -> (v: i32)
        requires
            i + 4 <= self@.len(),
        ensures
            v == (le_value(self@, i as int, 4) as u32) as i32,
    {
        proof {
            lemma_value_4(self@, i as int);
            assert(self@.len() == self.inner.len());
        }
        let word: u32 = self.get(i) as u32 + self.get(i + 1) as u32 * 256 + self.get(i + 2) as u32
            * 65536 + self.get(i + 3) as u32 * 16777216;
        word as i32
    }

    // ---- Store ----
    /// Writes the low byte of `word` at `i`.
    pub fn store_byte(&mut self, i: usize, word: i32)
        requires
            i < old(self)@.len(),
        ensures
            final(self)@ == write_le(old(self)@, i as int, 1, (word as u32) as nat),
    {
        let value = word as u32;
        proof {
            lemma_write(self@, i as int, 1, value as nat);
        }
        self.set(i, (value % 256) as u8);
    }

    /// Writes the low halfword of `word` from `i` on.
    pub fn store_halfword(&mut self, i: usize, word: i32)
        requires
            i + 2 <= old(self)@.len(),
        ensures
            final(self)@ == write_le(old(self)@, i as int, 2, (word as u32) as nat),
    {
        let value = word as u32;
        proof {
            lemma_write(self@, i as int, 2, value as nat);
            assert(self@.len() == self.inner.len());
        }
        self.set(i, (value % 256) as u8);
        self.set(i + 1, ((value / 256) % 256) as u8);
    }

    /// Writes `word` from `i` on.
    pub fn store_word(&mut self, i: usize, word: i32)
        requires
            i + 4 <= old(self)@.len(),
        ensures
            final(self)@ == write_le(old(self)@, i as int, 4, (word as u32) as nat),
    {
        let value = word as u32;
        proof {
            lemma_write(self@, i as int, 4, value as nat);
            assert(self@.len() == self.inner.len());
        }
        self.set(i, (value % 256) as u8);
        self.set(i + 1, ((value / 256) % 256) as u8);
        self.set(i + 2, ((value / 65536) % 256) as u8);
        self.set(i + 3, ((value / 16777216) % 256) as u8);
    }
}

} // verus!

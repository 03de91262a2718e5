//! The memory store: a fixed number of bytes, read and written in units of
//! one, two or four bytes, least significant byte first.

use crate::bytes::le_value;
use crate::bytes::lemma_value_1;
use crate::bytes::lemma_value_2;
use crate::bytes::lemma_value_4;
use crate::bytes::lemma_write;
use crate::bytes::write_le;
use vstd::prelude::*;

verus! {

/// Whether `size` is a width in bits that the store reads and writes.
pub open spec fn is_width(size: u8) -> bool {
    size == 8 || size == 16 || size == 32
}

/// The memory store: a fixed number of bytes, a multiple of four.
#[derive(Debug)]
pub struct DRam {
    inner: Vec<u8>,
}

impl View for DRam {
    type V = Seq<u8>;

    closed spec fn view(&self) -> Seq<u8> {
        self.inner@
    }
}

impl DRam {
    #[verifier::type_invariant]
    spec fn whole_words(&self) -> bool {
        self.inner@.len() % 4 == 0
    }

    /// A store of `len` zero bytes.
    pub fn new(len: usize) -> (r: Self)
        requires
            len % 4 == 0,
        ensures
            r@ == Seq::new(len as nat, |i: int| 0u8),
    {
        let r = Self { inner: vec![0; len] };
        assert(r.inner@ =~= Seq::new(len as nat, |i: int| 0u8));
        r
    }

    /// The number of bytes, always a multiple of four.
    pub fn size(&self) -> (n: usize)
        ensures
            n == self@.len(),
            n % 4 == 0,
    {
        proof {
            use_type_invariant(self);
        }
        self.inner.len()
    }

    /// The bytes can be counted in a `usize`.
    pub proof fn lemma_size(&self)
        ensures
            self@.len() <= usize::MAX,
    {
        assert(self@.len() == self.inner.len());
    }

    fn get(&self, i: usize) -> (b: u8)
        requires
            i < self@.len(),
        ensures
            b == self@[i as int],
    {
        self.inner[i]
    }

    fn set(&mut self, i: usize, value: u8)
        requires
            i < old(self)@.len(),
        ensures
            final(self)@ == old(self)@.update(i as int, value),
    {
        proof {
            use_type_invariant(&*self);
        }
        self.inner[i] = value;
    }

    // ---- Load ----
    /// The `size`-bit number stored from byte `i` on.
    pub fn load(&self, i: usize, size: u8) -> (v: u32)
        requires
            is_width(size),
            i + size / 8 <= self@.len(),
        ensures
            v == le_value(self@, i as int, (size / 8) as nat),
    {
        proof {
            self.lemma_size();
            lemma_value_1(self@, i as int);
            lemma_value_2(self@, i as int);
            lemma_value_4(self@, i as int);
        }
        if size == 8 {
            self.get(i) as u32
        } else if size == 16 {
            self.get(i) as u32 + self.get(i + 1) as u32 * 256
        } else {
            self.get(i) as u32 + self.get(i + 1) as u32 * 256 + self.get(i + 2) as u32 * 65536
                + self.get(i + 3) as u32 * 16777216
        }
    }

    // ---- Store ----
    /// Writes the low `size` bits of `value` from byte `i` on.
    pub fn store(&mut self, i: usize, size: u8, value: u32)
        requires
            is_width(size),
            i + size / 8 <= old(self)@.len(),
        ensures
            final(self)@ == write_le(old(self)@, i as int, (size / 8) as nat, value as nat),
    {
        proof {
            self.lemma_size();
            lemma_write(self@, i as int, (size / 8) as nat, value as nat);
        }
        self.set(i, (value % 256) as u8);
        if size >= 16 {
            self.set(i + 1, ((value / 256) % 256) as u8);
        }
        if size == 32 {
            self.set(i + 2, ((value / 65536) % 256) as u8);
            self.set(i + 3, ((value / 16777216) % 256) as u8);
        }
    }
}

} // verus!

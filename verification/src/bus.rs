//! The bus: maps the addresses of the machine onto the memory store and
//! decides what an access outside the store does.

use crate::bytes::le_value;
use crate::bytes::write_le;
use crate::dram::is_width;
use crate::dram::DRam;
use vstd::prelude::*;

verus! {

/// The address of the first byte of the memory store.
pub const DRAM_ADDR: usize = 0x0;

/// The bus of the machine. It owns the memory store; every access to memory
/// goes through it.
#[derive(Debug)]
pub struct Bus {
    pub dram: DRam,
}

impl View for Bus {
    type V = Seq<u8>;

    open spec fn view(&self) -> Seq<u8> {
        self.dram@
    }
}

impl Bus {
    /// Whether every byte of a `size`-bit access at `addr` lies in a store
    /// that holds `mem`.
    pub open spec fn in_range(mem: Seq<u8>, addr: int, size: u8) -> bool {
        DRAM_ADDR <= addr && addr - DRAM_ADDR + size / 8 <= mem.len()
    }

    /// What a `size`-bit load at `addr` yields: the stored number where the
    /// access is in range, zero elsewhere.
    pub open spec fn spec_load(mem: Seq<u8>, addr: int, size: u8) -> u32 {
        if Self::in_range(mem, addr, size) {
            le_value(mem, addr - DRAM_ADDR, (size / 8) as nat) as u32
        } else {
            0
        }
    }

    /// The store after a `size`-bit store of `value` at `addr`: written where
    /// the access is in range, untouched elsewhere.
    pub open spec fn spec_store(mem: Seq<u8>, addr: int, size: u8, value: u32) -> Seq<u8> {
        if Self::in_range(mem, addr, size) {
            write_le(mem, addr - DRAM_ADDR, (size / 8) as nat, value as nat)
        } else {
            mem
        }
    }

    /// A bus over the given memory store.
    pub fn new(dram: DRam) -> (r: Self)
        ensures
            r.dram == dram,
    {
        Self { dram }
    }

    /// The number of bytes of the memory store.
    pub fn size(&self) -> (n: usize)
        ensures
            n == self@.len(),
    {
        self.dram.size()
    }

    /// Reads the `size`-bit number at `addr`; zero where the access is not in
    /// range.
    pub fn load(&self, addr: usize, size: u8) -> (v: u32)
        requires
            is_width(size),
        ensures
            v == Self::spec_load(self@, addr as int, size),
    {
        let len = self.dram.size();
        let bytes: usize = (size / 8) as usize;
        if addr >= DRAM_ADDR && addr - DRAM_ADDR < len && bytes <= len - (addr - DRAM_ADDR) {
            self.dram.load(addr - DRAM_ADDR, size)
        } else {
            0
        }
    }

    /// Writes the low `size` bits of `value` at `addr`; nothing where the
    /// access is not in range.
    pub fn store(&mut self, addr: usize, size: u8, value: u32)
        requires
            is_width(size),
        ensures
            final(self)@ == Self::spec_store(old(self)@, addr as int, size, value),
    {
        let len = self.dram.size();
        let bytes: usize = (size / 8) as usize;
        if addr >= DRAM_ADDR && addr - DRAM_ADDR < len && bytes <= len - (addr - DRAM_ADDR) {
            self.dram.store(addr - DRAM_ADDR, size, value);
        }
    }
}

/// An access at or beyond the size of the store does nothing: a load there
/// yields zero and a store there leaves every byte as it was. So does one
/// that begins inside the store and ends beyond it.
pub proof fn law_out_of_range(mem: Seq<u8>, addr: int, size: u8, value: u32)
    requires
        addr + size / 8 > mem.len(),
    ensures
        Bus::spec_load(mem, addr, size) == 0,
        Bus::spec_store(mem, addr, size, value) == mem,
{
}

/// A load in range reads back what a store of the same width at the same
/// address wrote, cut to that width, and the store keeps the size of the
/// memory.
pub proof fn law_load_after_store(mem: Seq<u8>, addr: int, size: u8, value: u32)
    requires
        is_width(size),
        Bus::in_range(mem, addr, size),
    ensures
        Bus::spec_store(mem, addr, size, value).len() == mem.len(),
        Bus::spec_load(Bus::spec_store(mem, addr, size, value), addr, size) == value as nat
            % crate::bytes::byte_range((size / 8) as nat),
{
    crate::bytes::law_read_after_write(mem, addr - DRAM_ADDR, (size / 8) as nat, value as nat);
    reveal_with_fuel(crate::bytes::byte_range, 5);
}

} // verus!

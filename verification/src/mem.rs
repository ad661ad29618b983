//! The flat 64 KiB byte-addressable memory map.
//!
//! All 16-bit reads are little-endian (low byte at the lower address), and
//! address arithmetic wraps at the top of the address space, so every access
//! is total: there is no out-of-range address.

use vstd::prelude::*;

verus! {

/// The number of addressable bytes.
pub const MEMORY_SIZE: usize = 0x10000;

/// The address one past `a`, wrapping at the top of the 64 KiB space.
pub open spec fn wrap_inc(a: u16) -> u16 {
    crate::util::wrap_add16(a, 1)
}

/// The 256-byte page an address belongs to (its high byte).
pub open spec fn page_of(a: u16) -> u16 {
    a / 256
}

/// The little-endian 16-bit value stored at `addr` and its wrapping successor.
pub open spec fn word_at(m: Seq<u8>, addr: u16) -> u16
    recommends
        m.len() == MEMORY_SIZE,
{
    (m[addr as int] + 256 * m[wrap_inc(addr) as int]) as u16
}

/// A flat 64 KiB memory image.
pub struct MemoryMap {
    pub mem: Vec<u8>,
}

impl MemoryMap {
    /// The memory always spans exactly the 64 KiB address space.
    pub open spec fn wf(&self) -> bool {
        self.mem@.len() == MEMORY_SIZE
    }

    /// Reads one byte.
    pub fn read_u8_at(&self, addr: &u16) -> (r: u8)
        requires
            self.wf(),
        ensures
            r == self.mem@[*addr as int],
    {
        self.mem[*addr as usize]
    }

    /// Reads a little-endian 16-bit value from two consecutive bytes,
    /// wrapping from the top of memory back to address zero.
    pub fn read_u16_at(&self, addr: &u16) -> (r: u16)
        requires
            self.wf(),
        ensures
            r == word_at(self.mem@, *addr),
    {
        let lo = self.mem[*addr as usize];
        let hi = self.mem[addr.wrapping_add(1) as usize];
        (lo as u16) + 256 * (hi as u16)
    }

    /// Reads the byte at `addr`, then reads the byte at the address it names.
    pub fn deref_u8_at(&self, addr: &u16) -> (r: u8)
        requires
            self.wf(),
        ensures
            r == self.mem@[self.mem@[*addr as int] as int],
    {
        let indirect_addr = self.read_u8_at(addr);
        self.read_u8_at(&(indirect_addr as u16))
    }

    /// Reads the 16-bit pointer at `addr`, then the 16-bit value it points to.
    pub fn deref_u16_at(&self, addr: &u16) -> (r: u16)
        requires
            self.wf(),
        ensures
            r == word_at(self.mem@, word_at(self.mem@, *addr)),
    {
        let indirect_addr = self.read_u16_at(addr);
        self.read_u16_at(&indirect_addr)
    }

    /// Writes one byte.
    pub fn write_u8_at(&mut self, addr: &u16, val: u8)
        requires
            old(self).wf(),
        ensures
            final(self).wf(),
            final(self).mem@ == old(self).mem@.update(*addr as int, val),
    {
        self.mem[*addr as usize] = val;
    }

    /// Writes `bytes` sequentially starting at `start_addr`.  The caller keeps
    /// the run inside the address space; nothing else changes.
    pub fn write_at(&mut self, start_addr: &u16, bytes: &[u8])
        requires
            old(self).wf(),
            *start_addr + bytes@.len() <= MEMORY_SIZE,
        ensures
            final(self).wf(),
            final(self).mem@.len() == old(self).mem@.len(),
            forall|i: int|
                0 <= i < bytes@.len() ==> final(self).mem@[*start_addr + i] == bytes@[i],
            forall|a: int|
                0 <= a < MEMORY_SIZE && !(*start_addr <= a < *start_addr + bytes@.len())
                    ==> final(self).mem@[a] == old(self).mem@[a],
    {
        let mut i: usize = 0;
        while i < bytes.len()
            invariant
                self.wf(),
                i <= bytes@.len(),
                *start_addr + bytes@.len() <= MEMORY_SIZE,
                self.mem@.len() == old(self).mem@.len(),
                forall|j: int| 0 <= j < i ==> self.mem@[*start_addr + j] == bytes@[j],
                forall|a: int|
                    0 <= a < MEMORY_SIZE && !(*start_addr <= a < *start_addr + i)
                        ==> self.mem@[a] == old(self).mem@[a],
            decreases bytes@.len() - i,
        {
            let idx: usize = (*start_addr as usize) + i;
            self.mem[idx] = bytes[i];
            i = i + 1;
        }
    }

    /// True iff the two addresses lie in different 256-byte pages.  Crossing a
    /// page during index arithmetic costs some instructions one extra cycle;
    /// it never changes which address is accessed.
    pub fn crosses_page_boundary(addr_one: &u16, addr_two: &u16) -> (r: bool)
        ensures
            r == (page_of(*addr_one) != page_of(*addr_two)),
    {
        *addr_one / 256 != *addr_two / 256
    }
}

impl Default for MemoryMap {
    /// A memory image of 64 KiB, all zero.
    fn default() -> (r: Self)
        ensures
            r.wf(),
            forall|a: int| 0 <= a < MEMORY_SIZE ==> r.mem@[a] == 0u8,
    {
        let mut mem: Vec<u8> = Vec::new();
        while mem.len() < MEMORY_SIZE
            invariant
                mem@.len() <= MEMORY_SIZE,
                forall|a: int| 0 <= a < mem@.len() ==> mem@[a] == 0u8,
            decreases MEMORY_SIZE - mem@.len(),
        {
            mem.push(0u8);
        }
        MemoryMap { mem }
    }
}

} // verus!

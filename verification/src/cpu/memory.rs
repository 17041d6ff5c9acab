//! Word-addressable memory with bounds-checked access.
//!
//! Every read and write is checked against the configured size; an access
//! past the end yields a `MemoryViolation` carrying the offending address
//! truncated to sixteen bits.

use vstd::prelude::*;

verus! {

use crate::error::CpuError;

/// Number of 16-bit words in a default memory.
pub const DEFAULT_MEMORY_WORDS: usize = 32768;

/// Word-addressable memory with a fixed size chosen at construction.
pub struct Memory {
    /// The memory cells, one 16-bit word each.
    pub data: Vec<u16>,
}

impl View for Memory {
    type V = Seq<u16>;

    open spec fn view(&self) -> Seq<u16> {
        self.data@
    }
}

impl Memory {
    /// Creates a memory of the default size, zero filled.
    pub fn new() -> (r: Memory)
        ensures
            r@.len() == DEFAULT_MEMORY_WORDS,
            forall|i: int| 0 <= i < r@.len() ==> r@[i] == 0u16,
    {
        Memory::with_size(DEFAULT_MEMORY_WORDS)
    }

    /// Creates a memory of `size` words, zero filled.
    pub fn with_size(size: usize) -> (r: Memory)
        ensures
            r@.len() == size,
            forall|i: int| 0 <= i < r@.len() ==> r@[i] == 0u16,
    {
        Memory { data: vec![0u16; size] }
    }

    /// The memory size in words.
    pub fn size(&self) -> (r: usize)
        ensures
            r == self@.len(),
    {
        self.data.len()
    }

    /// Reads the word at `address`; an address at or past the size is a
    /// memory violation.
    pub fn read(&self, address: usize) -> (r: Result<u16, CpuError>)
        ensures
            address < self@.len() ==> r == Ok::<u16, CpuError>(self@[address as int]),
            address >= self@.len() ==> r == Err::<u16, CpuError>(
                CpuError::MemoryViolation(address as u16),
            ),
    {
        if address < self.data.len() {
            Ok(self.data[address])
        } else {
            Err(CpuError::MemoryViolation(address as u16))
        }
    }

    /// Writes `value` at `address`; an address at or past the size is a
    /// memory violation and leaves the contents unchanged.
    pub fn write(&mut self, address: usize, value: u16) -> (r: Result<(), CpuError>)
        ensures
            address < old(self)@.len() ==> r == Ok::<(), CpuError>(()) && final(self)@ == old(
                self,
            )@.update(address as int, value),
            address >= old(self)@.len() ==> r == Err::<(), CpuError>(
                CpuError::MemoryViolation(address as u16),
            ) && final(self)@ == old(self)@,
    {
        if address < self.data.len() {
            self.data[address] = value;
            Ok(())
        } else {
            Err(CpuError::MemoryViolation(address as u16))
        }
    }

    /// What `read_range` returns: the words from `address` up to `count`
    /// further on, clipped to the memory size.
    pub open spec fn spec_read_range(mem: Seq<u16>, address: int, count: int) -> Seq<u16> {
        let lo = if address < mem.len() {
            address
        } else {
            mem.len() as int
        };
        let hi = if address + count < mem.len() {
            address + count
        } else {
            mem.len() as int
        };
        if lo <= hi {
            mem.subrange(lo, hi)
        } else {
            Seq::empty()
        }
    }

    /// Reads up to `count` words starting at `address`, stopping at the end
    /// of memory.
    pub fn read_range(&self, address: usize, count: usize) -> (r: Vec<u16>)
        ensures
            r@ == Memory::spec_read_range(self@, address as int, count as int),
    {
        let mut r: Vec<u16> = Vec::new();
        let mut i: usize = 0;
        while i < count && address < self.data.len() && i < self.data.len() - address
            invariant
                i <= count,
                address + i <= self@.len() || i == 0,
                r@.len() == i,
                forall|j: int| 0 <= j < i ==> r@[j] == self@[address + j],
            decreases count - i,
        {
            r.push(self.data[address + i]);
            i = i + 1;
        }
        proof {
            assert(r@ =~= Memory::spec_read_range(self@, address as int, count as int));
        }
        r
    }

    /// Writes the words of `values` starting at `address`; fails if the
    /// starting address is out of bounds, and clips the tail that would run
    /// past the end.
    pub fn write_range(&mut self, address: usize, values: &[u16]) -> (r: Result<(), CpuError>)
        ensures
            address >= old(self)@.len() ==> r == Err::<(), CpuError>(
                CpuError::MemoryViolation(address as u16),
            ) && final(self)@ == old(self)@,
            address < old(self)@.len() ==> {
                &&& r == Ok::<(), CpuError>(())
                &&& final(self)@.len() == old(self)@.len()
                &&& forall|i: int|
                    0 <= i < old(self)@.len() ==> final(self)@[i] == (
                    if address <= i < address + values@.len() {
                        values@[i - address]
                    } else {
                        old(self)@[i]
                    })
            },
    {
        if address >= self.data.len() {
            return Err(CpuError::MemoryViolation(address as u16));
        }
        let mut i: usize = 0;
        while i < values.len() && i < self.data.len() - address
            invariant
                address < self@.len(),
                self@.len() == old(self)@.len(),
                i <= values@.len(),
                address + i <= self@.len(),
                forall|j: int|
                    0 <= j < self@.len() ==> self@[j] == (if address <= j < address + i {
                        values@[j - address]
                    } else {
                        old(self)@[j]
                    }),
            decreases values@.len() - i,
    {
            let slot = address + i;
            self.data[slot] = values[i];
            i = i + 1;
        }
        Ok(())
    }

    /// Sets every word to zero; the size is unchanged.
    pub fn clear(&mut self)
        ensures
            final(self)@.len() == old(self)@.len(),
            forall|i: int| 0 <= i < final(self)@.len() ==> final(self)@[i] == 0u16,
    {
        let n = self.data.len();
        self.data = vec![0u16; n];
    }

    /// Borrows the whole contents as a slice.
    pub fn as_slice(&self) -> (r: &[u16])
        ensures
            r@ == self@,
    {
        self.data.as_slice()
    }

    /// Borrows the whole contents as a mutable slice; writes through it
    /// become the new contents.
    pub fn as_mut_slice(&mut self) -> (r: &mut [u16])
        ensures
            r@ == old(self)@,
            final(self)@ == final(r)@,
    {
        self.data.as_mut_slice()
    }
}

} // verus!

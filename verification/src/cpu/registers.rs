//! The register file: three index registers and the three status flags.
//!
//! Index register tag 0 means "no index register": it reads as zero and
//! writes to it are ignored, as are tags above 3.

use vstd::prelude::*;

verus! {

/// The three index registers.
#[derive(Debug, Clone, Copy, PartialEq, Eq, Structural)]
pub struct IndexRegisters {
    pub xr1: u16,
    pub xr2: u16,
    pub xr3: u16,
}

/// The value an index-register file yields for a tag: tag 0 and tags above
/// 3 read as zero.
pub open spec fn spec_xr_get(xr: IndexRegisters, tag: u8) -> u16 {
    if tag == 1 {
        xr.xr1
    } else if tag == 2 {
        xr.xr2
    } else if tag == 3 {
        xr.xr3
    } else {
        0u16
    }
}

/// The index-register file after a write through a tag: tag 0 and tags
/// above 3 leave it unchanged.
pub open spec fn spec_xr_set(xr: IndexRegisters, tag: u8, value: u16) -> IndexRegisters {
    if tag == 1 {
        IndexRegisters { xr1: value, ..xr }
    } else if tag == 2 {
        IndexRegisters { xr2: value, ..xr }
    } else if tag == 3 {
        IndexRegisters { xr3: value, ..xr }
    } else {
        xr
    }
}

impl IndexRegisters {
    /// Creates the register file with every register zero.
    pub fn new() -> (r: IndexRegisters)
        ensures
            r == (IndexRegisters { xr1: 0u16, xr2: 0u16, xr3: 0u16 }),
    {
        IndexRegisters { xr1: 0, xr2: 0, xr3: 0 }
    }

    /// Reads the register selected by `tag`; tag 0 and invalid tags read as
    /// zero.
    pub fn get(&self, tag: u8) -> (r: u16)
        ensures
            r == spec_xr_get(*self, tag),
    {
        if tag == 1 {
            self.xr1
        } else if tag == 2 {
            self.xr2
        } else if tag == 3 {
            self.xr3
        } else {
            0
        }
    }

    /// Writes the register selected by `tag`; tag 0 and invalid tags are
    /// ignored.
    pub fn set(&mut self, tag: u8, value: u16)
        ensures
            *final(self) == spec_xr_set(*old(self), tag, value),
    {
        if tag == 1 {
            self.xr1 = value;
        } else if tag == 2 {
            self.xr2 = value;
        } else if tag == 3 {
            self.xr3 = value;
        }
    }

    /// Zeroes every index register.
    pub fn reset(&mut self)
        ensures
            *final(self) == (IndexRegisters { xr1: 0u16, xr2: 0u16, xr3: 0u16 }),
    {
        self.xr1 = 0;
        self.xr2 = 0;
        self.xr3 = 0;
    }
}

/// The carry, overflow and wait flags.
#[derive(Debug, Clone, Copy, PartialEq, Eq, Structural)]
pub struct StatusFlags {
    pub carry: bool,
    pub overflow: bool,
    pub wait: bool,
}

/// Carry and overflow packed into bits 15 and 14 of a status word; the wait
/// flag is never part of a status word.
pub open spec fn spec_flags_word(f: StatusFlags) -> u16 {
    ((if f.carry {
        0x8000int
    } else {
        0int
    }) + (if f.overflow {
        0x4000int
    } else {
        0int
    })) as u16
}

/// The flags read back from a status word: carry from bit 15, overflow from
/// bit 14, wait always clear.
pub open spec fn spec_flags_from_word(word: u16) -> StatusFlags {
    StatusFlags { carry: word / 0x8000 % 2 == 1, overflow: word / 0x4000 % 2 == 1, wait: false }
}

impl StatusFlags {
    /// Creates the flags, all clear.
    pub fn new() -> (r: StatusFlags)
        ensures
            r == (StatusFlags { carry: false, overflow: false, wait: false }),
    {
        StatusFlags { carry: false, overflow: false, wait: false }
    }

    /// Clears every flag.
    pub fn reset(&mut self)
        ensures
            *final(self) == (StatusFlags { carry: false, overflow: false, wait: false }),
    {
        self.carry = false;
        self.overflow = false;
        self.wait = false;
    }

    /// Packs carry and overflow into bits 15 and 14 of a word.
    pub fn to_word(&self) -> (r: u16)
        ensures
            r == spec_flags_word(*self),
    {
        let mut word: u16 = 0;
        if self.carry {
            word = 0x8000;
        }
        if self.overflow {
            word = word + 0x4000;
        }
        word
    }

    /// Unpacks carry and overflow from bits 15 and 14 of a word; the wait
    /// flag is always clear afterwards.
    pub fn from_word(word: u16) -> (r: StatusFlags)
        ensures
            r == spec_flags_from_word(word),
    {
        StatusFlags {
            carry: word / 0x8000 % 2 == 1,
            overflow: word / 0x4000 % 2 == 1,
            wait: false,
        }
    }
}

} // verus!

//! Section attribute flags and address alignment.

use vstd::prelude::*;

verus! {

/// Returns `address` aligned upward to `alignment`: the unique multiple of
/// `alignment` in `[address, address + alignment)`.
pub fn align_address(address: usize, alignment: usize) -> (r: usize)
    requires
        alignment > 0,
        (alignment & (alignment - 1) as usize) == 0,
        address + alignment - 1 <= usize::MAX,
    ensures
        r as int % alignment as int == 0,
        address <= r < address + alignment,
{
    let rem = address % alignment;
    if rem == 0 {
        address
    } else {
        let r = address + (alignment - rem);
        proof {
            let a = address as int;
            let m = alignment as int;
            let q = a / m;
            vstd::arithmetic::div_mod::lemma_fundamental_div_mod(a, m);
            vstd::arithmetic::div_mod::lemma_mod_add_multiples_vanish(a - rem, m);
            vstd::arithmetic::div_mod::lemma_mod_multiples_basic(q, m);
        }
        r
    }
}

/// Section attribute flags, one bit each.
#[derive(Debug, Clone, Copy, PartialEq, Eq, Structural)]
pub struct SectionFlags {
    pub bits: u8,
}

impl SectionFlags {
    /// No attributes.
    pub fn empty() -> (r: SectionFlags)
        ensures
            r.bits == 0,
    {
        SectionFlags { bits: 0 }
    }

    /// The section occupies memory at run time.
    pub fn allocate() -> (r: SectionFlags)
        ensures
            r.bits == 0x01,
    {
        SectionFlags { bits: 0x01 }
    }

    /// The section is writable.
    pub fn write() -> (r: SectionFlags)
        ensures
            r.bits == 0x02,
    {
        SectionFlags { bits: 0x02 }
    }

    /// The section holds executable code.
    pub fn execute() -> (r: SectionFlags)
        ensures
            r.bits == 0x04,
    {
        SectionFlags { bits: 0x04 }
    }

    /// The section may be merged.
    pub fn merge() -> (r: SectionFlags)
        ensures
            r.bits == 0x08,
    {
        SectionFlags { bits: 0x08 }
    }

    /// The section holds strings.
    pub fn string() -> (r: SectionFlags)
        ensures
            r.bits == 0x10,
    {
        SectionFlags { bits: 0x10 }
    }

    /// The section is a member of a group.
    pub fn group() -> (r: SectionFlags)
        ensures
            r.bits == 0x20,
    {
        SectionFlags { bits: 0x20 }
    }

    /// The section holds thread-local storage.
    pub fn tls() -> (r: SectionFlags)
        ensures
            r.bits == 0x40,
    {
        SectionFlags { bits: 0x40 }
    }

    /// Both flag sets combined.
    pub fn union(self, other: SectionFlags) -> (r: SectionFlags)
        ensures
            r.bits == self.bits | other.bits,
    {
        SectionFlags { bits: self.bits | other.bits }
    }

    /// Whether every flag of `other` is set in `self`.
    pub fn contains(self, other: SectionFlags) -> (r: bool)
        ensures
            r == ((self.bits & other.bits) == other.bits),
    {
        (self.bits & other.bits) == other.bits
    }
}

/// Section address, length and attributes.
pub struct Section {
    pub name: String,
    pub address: usize,
    pub length: usize,
    pub attributes: SectionFlags,
}

} // verus!

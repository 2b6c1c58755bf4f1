//! Memory protection bookkeeping: section attributes become protection
//! flags on pages, and byte access is checked against them.

use vstd::prelude::*;
use crate::memory::{Address, SectionFlags};
use crate::util::dec_string;
use crate::util::dec_str;

verus! {

/// Memory protection flags, one bit each.
#[derive(Debug, Clone, Copy, PartialEq, Eq, Structural)]
pub struct Protection {
    pub bits: u32,
}

impl Protection {
    /// No access.
    pub fn empty() -> (r: Protection)
        ensures
            r.bits == 0,
    {
        Protection { bits: 0 }
    }

    /// Readable.
    pub fn read() -> (r: Protection)
        ensures
            r.bits == 0x01,
    {
        Protection { bits: 0x01 }
    }

    /// Writable.
    pub fn write() -> (r: Protection)
        ensures
            r.bits == 0x02,
    {
        Protection { bits: 0x02 }
    }

    /// Executable.
    pub fn execute() -> (r: Protection)
        ensures
            r.bits == 0x04,
    {
        Protection { bits: 0x04 }
    }

    /// Accessible from user mode.
    pub fn user() -> (r: Protection)
        ensures
            r.bits == 0x08,
    {
        Protection { bits: 0x08 }
    }

    /// Globally mapped.
    pub fn global() -> (r: Protection)
        ensures
            r.bits == 0x10,
    {
        Protection { bits: 0x10 }
    }

    /// Accessed.
    pub fn accessed() -> (r: Protection)
        ensures
            r.bits == 0x20,
    {
        Protection { bits: 0x20 }
    }

    /// Dirty.
    pub fn dirty() -> (r: Protection)
        ensures
            r.bits == 0x40,
    {
        Protection { bits: 0x40 }
    }

    /// Never executable.
    pub fn noexecute() -> (r: Protection)
        ensures
            r.bits == 0x80,
    {
        Protection { bits: 0x80 }
    }

    /// Both flag sets combined.
    pub fn union(self, other: Protection) -> (r: Protection)
        ensures
            r.bits == self.bits | other.bits,
    {
        Protection { bits: self.bits | other.bits }
    }

    /// Whether every flag of `other` is set in `self`.
    pub fn contains(self, other: Protection) -> (r: bool)
        ensures
            r == ((self.bits & other.bits) == other.bits),
    {
        (self.bits & other.bits) == other.bits
    }
}

/// The protection a section's attributes ask for: allocated sections are
/// readable and writable, executable sections are executable.
pub open spec fn spec_attributes_to_protection(sf: SectionFlags) -> u32 {
    (if sf.bits & 0x01 == 0x01 {
        0x03u32
    } else {
        0u32
    }) | (if sf.bits & 0x04 == 0x04 {
        0x04u32
    } else {
        0u32
    })
}

/// Converts section attributes to memory protection flags.
pub fn attributes_to_protection(section_flags: SectionFlags) -> (r: Protection)
    ensures
        r.bits == spec_attributes_to_protection(section_flags),
{
    let rw: u32 = if section_flags.contains(SectionFlags::allocate()) {
        0x03
    } else {
        0
    };
    let x: u32 = if section_flags.contains(SectionFlags::execute()) {
        0x04
    } else {
        0
    };
    Protection { bits: rw | x }
}

/// One protected address range, both bounds as the range is tested.
pub struct MemoryPage {
    pub start: Address,
    pub end: Address,
    pub protection: Protection,
}

impl MemoryPage {
    /// Whether the address falls in the page (both bounds inclusive).
    pub fn contains(&self, addr: Address) -> (r: bool)
        ensures
            r == (self.start <= addr <= self.end),
    {
        addr >= self.start && addr <= self.end
    }
}

/// Memory access failures.
pub enum MMUErr {
    AccessViolation(String),
    MisalignedAccess(String),
    OutOfBounds(String),
}

/// The protection of the first page holding the address, if any.
pub open spec fn spec_query(pages: Seq<MemoryPage>, addr: Address) -> Option<Protection>
    decreases pages.len(),
{
    if pages.len() == 0 {
        None
    } else if pages[0].start <= addr <= pages[0].end {
        Some(pages[0].protection)
    } else {
        spec_query(pages.skip(1), addr)
    }
}

/// The overlap test `protect` applies between a new range and a page.
pub open spec fn spec_overlaps(p: MemoryPage, start: Address, end: Address) -> bool {
    ||| (start >= p.start && start < p.end)
    ||| (end > p.start && end <= p.end)
    ||| (start <= p.start && end >= p.end)
}

/// A flat byte memory with protected pages over it.
pub struct MMU {
    pub memory: Vec<u8>,
    pub pages: Vec<MemoryPage>,
}

impl MMU {
    /// A zeroed memory of the size, with no pages.
    pub fn new(size: usize) -> (r: Self)
        ensures
            r.memory@.len() == size,
            forall|i: int| 0 <= i < size ==> r.memory@[i] == 0u8,
            r.pages@.len() == 0,
    {
        let mut memory: Vec<u8> = Vec::new();
        let mut i: usize = 0;
        while i < size
            invariant
                0 <= i <= size,
                memory@.len() == i,
                forall|j: int| 0 <= j < i ==> memory@[j] == 0u8,
            decreases size - i,
        {
            memory.push(0);
            i = i + 1;
        }
        MMU { memory, pages: Vec::new() }
    }

    /// Declares a protected range; a range overlapping an existing page is
    /// refused.
    pub fn protect(&mut self, start: Address, end: Address, protection: Protection) -> (r: Result<
        (),
        MMUErr,
    >)
        ensures
            final(self).memory@ == old(self).memory@,
            match r {
                Ok(()) => {
                    &&& (forall|i: int|
                        0 <= i < old(self).pages@.len() ==> !spec_overlaps(
                            #[trigger] old(self).pages@[i],
                            start,
                            end,
                        ))
                    &&& final(self).pages@.len() == old(self).pages@.len() + 1
                    &&& (forall|i: int|
                        0 <= i < old(self).pages@.len() ==> final(self).pages@[i] == old(
                            self,
                        ).pages@[i])
                    &&& final(self).pages@.last().start == start
                    &&& final(self).pages@.last().end == end
                    &&& final(self).pages@.last().protection == protection
                },
                Err(e) => {
                    &&& (exists|i: int|
                        0 <= i < old(self).pages@.len() && spec_overlaps(
                            #[trigger] old(self).pages@[i],
                            start,
                            end,
                        ))
                    &&& final(self).pages@ == old(self).pages@
                    &&& e is AccessViolation
                },
            },
    {
        let mut i: usize = 0;
        while i < self.pages.len()
            invariant
                0 <= i <= self.pages@.len(),
                forall|j: int|
                    0 <= j < i ==> !spec_overlaps(#[trigger] self.pages@[j], start, end),
                self.memory@ == old(self).memory@,
                self.pages@ == old(self).pages@,
            decreases self.pages@.len() - i,
        {
            let p = &self.pages[i];
            if (start >= p.start && start < p.end) || (end > p.start && end <= p.end) || (start
                <= p.start && end >= p.end) {
                let s1 = dec_string(start);
                let s2 = dec_string(end);
                return Err(
                    MMUErr::AccessViolation(
                        String::from_str("Memory page overlap between addresses: ").concat(
                            s1.as_str(),
                        ).concat(" - ").concat(s2.as_str()),
                    ),
                );
            }
            i = i + 1;
        }
        self.pages.push(MemoryPage { start, end, protection });
        Ok(())
    }

    /// The protection of the first page holding the address.
    pub fn query(&self, addr: Address) -> (r: Option<Protection>)
        ensures
            r == spec_query(self.pages@, addr),
    {
        let mut i: usize = 0;
        proof {
            assert(self.pages@.skip(0) =~= self.pages@);
        }
        while i < self.pages.len()
            invariant
                0 <= i <= self.pages@.len(),
                spec_query(self.pages@, addr) == spec_query(self.pages@.skip(i as int), addr),
            decreases self.pages@.len() - i,
        {
            if self.pages[i].contains(addr) {
                proof {
                    assert(self.pages@.skip(i as int)[0] == self.pages@[i as int]);
                }
                return Some(self.pages[i].protection);
            }
            proof {
                assert(self.pages@.skip(i as int)[0] == self.pages@[i as int]);
                assert(self.pages@.skip(i as int).skip(1) =~= self.pages@.skip(i as int + 1));
            }
            i = i + 1;
        }
        None
    }

    /// Reads one byte, requiring read or execute permission on its page.
    /// The caller keeps mapped addresses inside the backing memory.
    pub fn read_byte(&self, address: Address) -> (r: Result<u8, MMUErr>)
        requires
            (spec_query(self.pages@, address) matches Some(f) && (f.bits & 0x04 == 0x04 || f.bits
                & 0x01 == 0x01)) ==> address < self.memory@.len(),
        ensures
            match r {
                Ok(b) => spec_query(self.pages@, address) matches Some(f) && (f.bits & 0x04 == 0x04
                    || f.bits & 0x01 == 0x01) && b == self.memory@[address as int],
                Err(e) => match spec_query(self.pages@, address) {
                    Some(f) => !(f.bits & 0x04 == 0x04 || f.bits & 0x01 == 0x01)
                        && e is AccessViolation,
                    None => e is OutOfBounds,
                },
            },
    {
        match self.query(address) {
            Some(flags) => {
                if flags.contains(Protection::execute()) || flags.contains(Protection::read()) {
                    Ok(self.memory[address])
                } else {
                    let s1 = dec_string(address);
                    Err(
                        MMUErr::AccessViolation(
                            String::from_str("Memory read violation at address: ").concat(
                                s1.as_str(),
                            ),
                        ),
                    )
                }
            },
            None => {
                let s1 = dec_string(address);
                Err(
                    MMUErr::OutOfBounds(
                        String::from_str("Address out of bounds: ").concat(s1.as_str()),
                    ),
                )
            },
        }
    }

    /// Writes one byte, requiring write permission on its page. The caller
    /// keeps mapped addresses inside the backing memory.
    pub fn write_byte(&mut self, address: Address, value: u8) -> (r: Result<(), MMUErr>)
        requires
            (spec_query(old(self).pages@, address) matches Some(f) && f.bits & 0x02 == 0x02)
                ==> address < old(self).memory@.len(),
        ensures
            final(self).pages@ == old(self).pages@,
            match r {
                Ok(()) => spec_query(old(self).pages@, address) matches Some(f) && f.bits & 0x02
                    == 0x02 && final(self).memory@ == old(self).memory@.update(
                    address as int,
                    value,
                ),
                Err(e) => final(self).memory@ == old(self).memory@ && (match spec_query(
                    old(self).pages@,
                    address,
                ) {
                    Some(f) => !(f.bits & 0x02 == 0x02) && e is AccessViolation,
                    None => e is OutOfBounds,
                }),
            },
    {
        match self.query(address) {
            Some(flags) => {
                if flags.contains(Protection::write()) {
                    self.memory[address] = value;
                    Ok(())
                } else {
                    let s1 = dec_string(address);
                    Err(
                        MMUErr::AccessViolation(
                            String::from_str("Memory write violation at address: ").concat(
                                s1.as_str(),
                            ),
                        ),
                    )
                }
            },
            None => {
                let s1 = dec_string(address);
                Err(
                    MMUErr::OutOfBounds(
                        String::from_str("Address out of bounds: ").concat(s1.as_str()),
                    ),
                )
            },
        }
    }
}

} // verus!

//! Object and symbol-table utilities: section flags, address alignment,
//! and the label-to-offset table.

use vstd::prelude::*;
use crate::util::dec_string;

verus! {

pub type Address = usize;

pub type Binary = Vec<u8>;

/// Returns `address` aligned upward to `alignment`: the unique multiple of
/// `alignment` in `[address, address + alignment)`.
pub fn align_address(address: Address, alignment: usize) -> (r: usize)
    requires
        alignment > 0,
        (alignment & (alignment - 1) as usize) == 0,
        address + alignment - 1 <= usize::MAX,
    ensures
        r as int % alignment as int == 0,
        address <= r < address + alignment,
{
    let rem = address % alignment;
    if rem == 0 {
        address
    } else {
        let r = address + (alignment - rem);
        proof {
            let a = address as int;
            let m = alignment as int;
            let q = a / m;
            vstd::arithmetic::div_mod::lemma_fundamental_div_mod(a, m);
            vstd::arithmetic::div_mod::lemma_mod_add_multiples_vanish(a - rem, m);
            vstd::arithmetic::div_mod::lemma_mod_multiples_basic(q, m);
        }
        r
    }
}

/// Section attribute flags, one bit each.
#[derive(Debug, Clone, Copy, PartialEq, Eq, Structural)]
pub struct SectionFlags {
    pub bits: u32,
}

impl SectionFlags {
    /// No attributes.
    pub fn empty() -> (r: SectionFlags)
        ensures
            r.bits == 0,
    {
        SectionFlags { bits: 0 }
    }

    /// The section occupies memory at run time.
    pub fn allocate() -> (r: SectionFlags)
        ensures
            r.bits == 0x01,
    {
        SectionFlags { bits: 0x01 }
    }

    /// The section is writable.
    pub fn write() -> (r: SectionFlags)
        ensures
            r.bits == 0x02,
    {
        SectionFlags { bits: 0x02 }
    }

    /// The section holds executable code.
    pub fn execute() -> (r: SectionFlags)
        ensures
            r.bits == 0x04,
    {
        SectionFlags { bits: 0x04 }
    }

    /// The section may be merged.
    pub fn merge() -> (r: SectionFlags)
        ensures
            r.bits == 0x08,
    {
        SectionFlags { bits: 0x08 }
    }

    /// The section holds strings.
    pub fn string() -> (r: SectionFlags)
        ensures
            r.bits == 0x10,
    {
        SectionFlags { bits: 0x10 }
    }

    /// The section is a member of a group.
    pub fn group() -> (r: SectionFlags)
        ensures
            r.bits == 0x20,
    {
        SectionFlags { bits: 0x20 }
    }

    /// The section holds thread-local storage.
    pub fn tls() -> (r: SectionFlags)
        ensures
            r.bits == 0x40,
    {
        SectionFlags { bits: 0x40 }
    }

    /// Both flag sets combined.
    pub fn union(self, other: SectionFlags) -> (r: SectionFlags)
        ensures
            r.bits == self.bits | other.bits,
    {
        SectionFlags { bits: self.bits | other.bits }
    }

    /// Whether every flag of `other` is set in `self`.
    pub fn contains(self, other: SectionFlags) -> (r: bool)
        ensures
            r == ((self.bits & other.bits) == other.bits),
    {
        (self.bits & other.bits) == other.bits
    }
}

/// Section address, length and attributes.
pub struct Section {
    pub name: String,
    pub address: Address,
    pub length: usize,
    pub attributes: SectionFlags,
}

/// Symbol-table failures.
#[derive(Debug, Clone, PartialEq)]
pub enum SymbolTableErr {
    Unmatched(String),
    // Duplicate symbol table entry.
    Duplicate(String),
}

/// The label-to-offset table, in insertion order with unique names.
pub struct SymbolTable {
    pub table: Vec<(String, Address)>,
}

/// The view of a symbol table: name-offset pairs in insertion order.
pub open spec fn table_view(t: Seq<(String, Address)>) -> Seq<(Seq<char>, int)> {
    t.map_values(|p: (String, Address)| (p.0@, p.1 as int))
}

/// The first offset recorded under the name, if any.
pub open spec fn table_lookup(t: Seq<(Seq<char>, int)>, name: Seq<char>) -> Option<int>
    decreases t.len(),
{
    if t.len() == 0 {
        None
    } else if t[0].0 == name {
        Some(t[0].1)
    } else {
        table_lookup(t.skip(1), name)
    }
}

fn table_find(t: &Vec<(String, Address)>, i: usize, label: &str) -> (r: Option<usize>)
    requires
        i <= t@.len(),
    ensures
        match r {
            Some(ix) => i <= ix < t@.len() && table_lookup(table_view(t@).skip(i as int), label@)
                == Some(t@[ix as int].1 as int),
            None => table_lookup(table_view(t@).skip(i as int), label@) is None,
        },
    decreases t@.len() - i,
{
    if i == t.len() {
        proof {
            assert(table_view(t@).skip(i as int) =~= Seq::<(Seq<char>, int)>::empty());
        }
        None
    } else {
        proof {
            assert(table_view(t@).skip(i as int)[0] == table_view(t@)[i as int]);
            assert(table_view(t@).skip(i as int).skip(1) =~= table_view(t@).skip(i as int + 1));
        }
        if crate::util::str_eq(t[i].0.as_str(), label) {
            Some(i)
        } else {
            table_find(t, i + 1, label)
        }
    }
}

impl SymbolTable {
    /// An empty table.
    pub fn new() -> (r: Self)
        ensures
            table_view(r.table@) == Seq::<(Seq<char>, int)>::empty(),
    {
        let r = SymbolTable { table: Vec::new() };
        proof {
            assert(table_view(r.table@) =~= Seq::<(Seq<char>, int)>::empty());
        }
        r
    }

    /// Records a label's offset; a name already present is refused.
    pub fn insert(&mut self, label: &str, address: Address) -> (r: Result<(), SymbolTableErr>)
        ensures
            match r {
                Ok(()) => {
                    &&& table_lookup(table_view(old(self).table@), label@) is None
                    &&& table_view(final(self).table@) == table_view(old(self).table@) + seq![
                        (label@, address as int),
                    ]
                },
                Err(e) => {
                    &&& table_lookup(table_view(old(self).table@), label@) is Some
                    &&& final(self).table@ == old(self).table@
                    &&& e matches SymbolTableErr::Duplicate(m) && m@ == "Duplicate label: \""@
                        + label@ + "\""@
                },
            },
    {
        proof {
            assert(table_view(self.table@).skip(0) =~= table_view(self.table@));
        }
        match table_find(&self.table, 0, label) {
            Some(_) => Err(
                SymbolTableErr::Duplicate(
                    String::from_str("Duplicate label: \"").concat(label).concat("\""),
                ),
            ),
            None => {
                self.table.push((String::from_str(label), address));
                proof {
                    assert(table_view(self.table@) =~= table_view(old(self).table@) + seq![
                        (label@, address as int),
                    ]);
                }
                Ok(())
            },
        }
    }

    /// The offset recorded under the label, if any.
    pub fn lookup(&self, label: &str) -> (r: Option<Address>)
        ensures
            match r {
                Some(a) => table_lookup(table_view(self.table@), label@) == Some(a as int),
                None => table_lookup(table_view(self.table@), label@) is None,
            },
    {
        proof {
            assert(table_view(self.table@).skip(0) =~= table_view(self.table@));
        }
        match table_find(&self.table, 0, label) {
            Some(ix) => Some(self.table[ix].1),
            None => None,
        }
    }
}

/// A linked image: the bytes, its sections, and its symbols.
pub struct Object {
    // Compiled binary.
    pub binary: Binary,
    // Where sections are located in compiled binary and attributes.
    pub sections: Vec<Section>,
    // Where symbols are located in compiled binary.
    pub symbols: SymbolTable,
}

impl Object {
    /// An empty image.
    pub fn new() -> (r: Self)
        ensures
            r.binary@ == Seq::<u8>::empty(),
            r.sections@.len() == 0,
            table_view(r.symbols.table@) == Seq::<(Seq<char>, int)>::empty(),
    {
        Object { binary: Vec::new(), sections: Vec::new(), symbols: SymbolTable::new() }
    }
}

} // verus!

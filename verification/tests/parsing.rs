use aem::mem;
use aem::memory::{self, SymbolTable, SymbolTableErr};
use aem::mmu::{attributes_to_protection, Protection, MMU, MMUErr};
use aem::util::{ParseFrom, ParseFromError};
use aem::utility::{parse_value, ParseValueError};

// Radix-aware parsing accepts hex, binary and decimal, and holds to the
// type's range.
#[test]
fn parse_from_radix_forms() {
    assert_eq!(<i8 as ParseFrom>::parse("0x7f"), Ok(127));
    assert_eq!(<i8 as ParseFrom>::parse("-128"), Ok(-128));
    assert_eq!(<i8 as ParseFrom>::parse("0b101"), Ok(5));
    assert!(matches!(<i8 as ParseFrom>::parse("128"), Err(ParseFromError::FromStr)));
    assert!(matches!(<i8 as ParseFrom>::parse("0xff"), Err(ParseFromError::FromRadix)));
    assert_eq!(<i64 as ParseFrom>::parse("9223372036854775807"), Ok(i64::MAX));
    assert_eq!(<u32 as ParseFrom>::parse("0xffffffff"), Ok(u32::MAX));
    assert!(matches!(<u32 as ParseFrom>::parse("-1"), Err(_)));
}

// The value parser reads hex and decimal; a minus before `0x` is dropped
// with the prefix, and other shapes are refused outright.
#[test]
fn parse_value_forms() {
    assert_eq!(parse_value::<i32>("0x1f"), Ok(31));
    assert_eq!(parse_value::<i32>("-0x1f"), Ok(31));
    assert_eq!(parse_value::<i32>("-12"), Ok(-12));
    assert!(matches!(parse_value::<u8>("0x100"), Err(ParseValueError::ParseInt)));
    assert!(matches!(parse_value::<u8>("256"), Err(ParseValueError::FromStr)));
    match parse_value::<i32>("abc") {
        Err(ParseValueError::OtherError(m)) => {
            assert_eq!(m, "Unable to parse value from: \"abc\"")
        },
        other => panic!("expected OtherError, got {:?}", other),
    }
}

// Alignment rounds an address up to the next multiple.
#[test]
fn alignment() {
    assert_eq!(mem::align_address(5, 4), 8);
    assert_eq!(mem::align_address(8, 4), 8);
    assert_eq!(mem::align_address(0, 16), 0);
    assert_eq!(memory::align_address(9, 8), 16);
}

// The symbol table keeps insertion order and refuses duplicates.
#[test]
fn symbol_table() {
    let mut t = SymbolTable::new();
    assert!(t.insert("start", 0).is_ok());
    assert!(t.insert("end", 16).is_ok());
    assert_eq!(t.lookup("start"), Some(0));
    assert_eq!(t.lookup("end"), Some(16));
    assert_eq!(t.lookup("missing"), None);
    match t.insert("start", 4) {
        Err(SymbolTableErr::Duplicate(m)) => assert_eq!(m, "Duplicate label: \"start\""),
        other => panic!("expected a duplicate error, got {:?}", other),
    }
}

// Section attributes translate to protection bits.
#[test]
fn attributes() {
    let rw = attributes_to_protection(memory::SectionFlags::allocate());
    assert!(rw.contains(Protection::read()));
    assert!(rw.contains(Protection::write()));
    assert!(!rw.contains(Protection::execute()));
    let rx = attributes_to_protection(
        memory::SectionFlags::allocate().union(memory::SectionFlags::execute()),
    );
    assert!(rx.contains(Protection::execute()));
    let none = attributes_to_protection(memory::SectionFlags::empty());
    assert_eq!(none, Protection::empty());
}

// Pages guard reads and writes; overlapping pages are refused.
#[test]
fn mmu_pages() {
    let mut m = MMU::new(64);
    assert!(m.protect(0, 15, Protection::read().union(Protection::write())).is_ok());
    assert!(m.protect(16, 31, Protection::read()).is_ok());
    assert!(matches!(m.protect(8, 20, Protection::read()), Err(MMUErr::AccessViolation(_))));

    assert!(m.write_byte(3, 0xab).is_ok());
    assert_eq!(m.read_byte(3).ok(), Some(0xab));
    assert!(matches!(m.write_byte(20, 1), Err(MMUErr::AccessViolation(_))));
    assert!(matches!(m.read_byte(40), Err(MMUErr::OutOfBounds(_))));
    assert_eq!(m.query(17), Some(Protection::read()));
    assert_eq!(m.query(40), None);
}

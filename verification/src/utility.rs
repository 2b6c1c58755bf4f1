//! Numeric parsing with radix detection: a trait for types readable from
//! digit strings of a given radix, and a value parser for hexadecimal and
//! decimal literals.

use vstd::prelude::*;
use crate::util::{
    parse_signed_digits, spec_signed_digits, chars_of, all_digits, all_digits_exec, string_of,
};

verus! {

/// Failures of `parse_value`: a radix conversion failed, a plain decimal
/// conversion failed, or the literal fits neither form.
#[derive(Debug, PartialEq)]
pub enum ParseValueError {
    ParseInt,
    FromStr,
    OtherError(String),
}

/// Whether the digit string (under the radix, with an optional sign)
/// denotes a value of the type: within `[lo, hi]`, and non-negative forms
/// only unless `signed`.
pub open spec fn spec_radix_ok(s: Seq<char>, radix: int, lo: int, hi: int, signed: bool) -> Option<
    int,
> {
    match spec_signed_digits(s, radix) {
        Some(n) => if lo <= n <= hi && (signed || !(s.len() > 0 && s[0] == '-')) {
            Some(n)
        } else {
            None
        },
        None => None,
    }
}

/// Types readable from a digit string of a given radix.
pub trait ParseWithRadix: Sized {
    /// Smallest value of the type.
    spec fn min_spec() -> int;

    /// Largest value of the type.
    spec fn max_spec() -> int;

    /// Whether a leading `-` is accepted.
    spec fn signed_spec() -> bool;

    /// The mathematical value held.
    spec fn as_int(self) -> int;

    /// The zero of the type.
    fn zero_value() -> (r: Self)
        ensures
            r.as_int() == 0;

    /// Reads an optionally signed digit string, accepting exactly the
    /// values of the type.
    fn from_str_radix(src: &str, radix: u32) -> (r: Result<Self, ParseValueError>)
        requires
            radix == 2 || radix == 10 || radix == 16,
        ensures
            match spec_radix_ok(
                src@,
                radix as int,
                Self::min_spec(),
                Self::max_spec(),
                Self::signed_spec(),
            ) {
                Some(n) => r matches Ok(v) && v.as_int() == n,
                None => r is Err,
            };
}

impl ParseWithRadix for u8 {
    open spec fn min_spec() -> int {
        0
    }

    open spec fn max_spec() -> int {
        u8::MAX as int
    }

    open spec fn signed_spec() -> bool {
        false
    }

    open spec fn as_int(self) -> int {
        self as int
    }

    fn zero_value() -> (r: Self) {
        0
    }

    fn from_str_radix(src: &str, radix: u32) -> (r: Result<Self, ParseValueError>) {
        let cs = chars_of(src);
        let neg = cs.len() > 0 && cs[0] == '-';
        match parse_signed_digits(cs.as_slice(), radix) {
            Some(v) => if 0 <= v && v <= 0xffi128 && !neg {
                Ok(v as u8)
            } else {
                Err(ParseValueError::ParseInt)
            },
            None => Err(ParseValueError::ParseInt),
        }
    }
}


impl ParseWithRadix for i8 {
    open spec fn min_spec() -> int {
        i8::MIN as int
    }

    open spec fn max_spec() -> int {
        i8::MAX as int
    }

    open spec fn signed_spec() -> bool {
        true
    }

    open spec fn as_int(self) -> int {
        self as int
    }

    fn zero_value() -> (r: Self) {
        0
    }

    fn from_str_radix(src: &str, radix: u32) -> (r: Result<Self, ParseValueError>) {
        let cs = chars_of(src);
        let neg = cs.len() > 0 && cs[0] == '-';
        match parse_signed_digits(cs.as_slice(), radix) {
            Some(v) => if -0x80i128 <= v && v <= 0x7fi128 {
                Ok(v as i8)
            } else {
                Err(ParseValueError::ParseInt)
            },
            None => Err(ParseValueError::ParseInt),
        }
    }
}


impl ParseWithRadix for u16 {
    open spec fn min_spec() -> int {
        0
    }

    open spec fn max_spec() -> int {
        u16::MAX as int
    }

    open spec fn signed_spec() -> bool {
        false
    }

    open spec fn as_int(self) -> int {
        self as int
    }

    fn zero_value() -> (r: Self) {
        0
    }

    fn from_str_radix(src: &str, radix: u32) -> (r: Result<Self, ParseValueError>) {
        let cs = chars_of(src);
        let neg = cs.len() > 0 && cs[0] == '-';
        match parse_signed_digits(cs.as_slice(), radix) {
            Some(v) => if 0 <= v && v <= 0xffffi128 && !neg {
                Ok(v as u16)
            } else {
                Err(ParseValueError::ParseInt)
            },
            None => Err(ParseValueError::ParseInt),
        }
    }
}


impl ParseWithRadix for i16 {
    open spec fn min_spec() -> int {
        i16::MIN as int
    }

    open spec fn max_spec() -> int {
        i16::MAX as int
    }

    open spec fn signed_spec() -> bool {
        true
    }

    open spec fn as_int(self) -> int {
        self as int
    }

    fn zero_value() -> (r: Self) {
        0
    }

    fn from_str_radix(src: &str, radix: u32) -> (r: Result<Self, ParseValueError>) {
        let cs = chars_of(src);
        let neg = cs.len() > 0 && cs[0] == '-';
        match parse_signed_digits(cs.as_slice(), radix) {
            Some(v) => if -0x8000i128 <= v && v <= 0x7fffi128 {
                Ok(v as i16)
            } else {
                Err(ParseValueError::ParseInt)
            },
            None => Err(ParseValueError::ParseInt),
        }
    }
}


impl ParseWithRadix for u32 {
    open spec fn min_spec() -> int {
        0
    }

    open spec fn max_spec() -> int {
        u32::MAX as int
    }

    open spec fn signed_spec() -> bool {
        false
    }

    open spec fn as_int(self) -> int {
        self as int
    }

    fn zero_value() -> (r: Self) {
        0
    }

    fn from_str_radix(src: &str, radix: u32) -> (r: Result<Self, ParseValueError>) {
        let cs = chars_of(src);
        let neg = cs.len() > 0 && cs[0] == '-';
        match parse_signed_digits(cs.as_slice(), radix) {
            Some(v) => if 0 <= v && v <= 0xffff_ffffi128 && !neg {
                Ok(v as u32)
            } else {
                Err(ParseValueError::ParseInt)
            },
            None => Err(ParseValueError::ParseInt),
        }
    }
}


impl ParseWithRadix for i32 {
    open spec fn min_spec() -> int {
        i32::MIN as int
    }

    open spec fn max_spec() -> int {
        i32::MAX as int
    }

    open spec fn signed_spec() -> bool {
        true
    }

    open spec fn as_int(self) -> int {
        self as int
    }

    fn zero_value() -> (r: Self) {
        0
    }

    fn from_str_radix(src: &str, radix: u32) -> (r: Result<Self, ParseValueError>) {
        let cs = chars_of(src);
        let neg = cs.len() > 0 && cs[0] == '-';
        match parse_signed_digits(cs.as_slice(), radix) {
            Some(v) => if -0x8000_0000i128 <= v && v <= 0x7fff_ffffi128 {
                Ok(v as i32)
            } else {
                Err(ParseValueError::ParseInt)
            },
            None => Err(ParseValueError::ParseInt),
        }
    }
}


impl ParseWithRadix for u64 {
    open spec fn min_spec() -> int {
        0
    }

    open spec fn max_spec() -> int {
        u64::MAX as int
    }

    open spec fn signed_spec() -> bool {
        false
    }

    open spec fn as_int(self) -> int {
        self as int
    }

    fn zero_value() -> (r: Self) {
        0
    }

    fn from_str_radix(src: &str, radix: u32) -> (r: Result<Self, ParseValueError>) {
        let cs = chars_of(src);
        let neg = cs.len() > 0 && cs[0] == '-';
        match parse_signed_digits(cs.as_slice(), radix) {
            Some(v) => if 0 <= v && v <= 0xffff_ffff_ffff_ffffi128 && !neg {
                Ok(v as u64)
            } else {
                Err(ParseValueError::ParseInt)
            },
            None => Err(ParseValueError::ParseInt),
        }
    }
}


impl ParseWithRadix for i64 {
    open spec fn min_spec() -> int {
        i64::MIN as int
    }

    open spec fn max_spec() -> int {
        i64::MAX as int
    }

    open spec fn signed_spec() -> bool {
        true
    }

    open spec fn as_int(self) -> int {
        self as int
    }

    fn zero_value() -> (r: Self) {
        0
    }

    fn from_str_radix(src: &str, radix: u32) -> (r: Result<Self, ParseValueError>) {
        let cs = chars_of(src);
        let neg = cs.len() > 0 && cs[0] == '-';
        match parse_signed_digits(cs.as_slice(), radix) {
            Some(v) => if -0x8000_0000_0000_0000i128 <= v && v <= 0x7fff_ffff_ffff_ffffi128 {
                Ok(v as i64)
            } else {
                Err(ParseValueError::ParseInt)
            },
            None => Err(ParseValueError::ParseInt),
        }
    }
}


impl ParseWithRadix for usize {
    open spec fn min_spec() -> int {
        0
    }

    open spec fn max_spec() -> int {
        usize::MAX as int
    }

    open spec fn signed_spec() -> bool {
        false
    }

    open spec fn as_int(self) -> int {
        self as int
    }

    fn zero_value() -> (r: Self) {
        0
    }

    fn from_str_radix(src: &str, radix: u32) -> (r: Result<Self, ParseValueError>) {
        let cs = chars_of(src);
        let neg = cs.len() > 0 && cs[0] == '-';
        match parse_signed_digits(cs.as_slice(), radix) {
            Some(v) => if 0 <= v && v <= usize::MAX as i128 && !neg {
                Ok(v as usize)
            } else {
                Err(ParseValueError::ParseInt)
            },
            None => Err(ParseValueError::ParseInt),
        }
    }
}

/// The digit part of a hexadecimal literal, after `0x` or `-0x`.
pub open spec fn hex_body(s: Seq<char>) -> Seq<char> {
    if s.len() > 0 && s[0] == '-' {
        s.skip(3)
    } else {
        s.skip(2)
    }
}

/// A literal in `0x`/`-0x` hexadecimal form, digits only after the prefix.
pub open spec fn is_hex_form(s: Seq<char>) -> bool {
    &&& (if s.len() > 0 && s[0] == '-' {
        s.len() >= 3 && s[1] == '0' && s[2] == 'x'
    } else {
        s.len() >= 2 && s[0] == '0' && s[1] == 'x'
    })
    &&& all_digits(hex_body(s), 16)
}

/// A literal in decimal form: digits with an optional leading minus.
pub open spec fn is_dec_form(s: Seq<char>) -> bool {
    ||| (s.len() > 0 && s[0] == '-' && all_digits(s.skip(1), 10))
    ||| all_digits(s, 10)
}

/// Parses a value from a hexadecimal or decimal literal. A hexadecimal
/// literal's digits are read after the prefix, so a leading minus before
/// `0x` is dropped; a literal in neither form is refused outright.
pub fn parse_value<T: ParseWithRadix>(s: &str) -> (r: Result<T, ParseValueError>)
    ensures
        is_hex_form(s@) ==> (match spec_radix_ok(
            hex_body(s@),
            16,
            T::min_spec(),
            T::max_spec(),
            T::signed_spec(),
        ) {
            Some(n) => r matches Ok(v) && v.as_int() == n,
            None => r matches Err(e) && e is ParseInt,
        }),
        (!is_hex_form(s@) && is_dec_form(s@)) ==> (match spec_radix_ok(
            s@,
            10,
            T::min_spec(),
            T::max_spec(),
            T::signed_spec(),
        ) {
            Some(n) => r matches Ok(v) && v.as_int() == n,
            None => r matches Err(e) && e is FromStr,
        }),
        (!is_hex_form(s@) && !is_dec_form(s@)) ==> (r matches Err(e) && e matches
            ParseValueError::OtherError(m) && m@ == "Unable to parse value from: \""@ + s@
            + "\""@),
{
    let cs = chars_of(s);
    let neg = cs.len() > 0 && cs[0] == '-';
    let hex_prefixed: bool = if neg {
        cs.len() >= 3 && cs[1] == '0' && cs[2] == 'x'
    } else {
        cs.len() >= 2 && cs[0] == '0' && cs[1] == 'x'
    };
    let skip_n: usize = if neg {
        3
    } else {
        2
    };
    if hex_prefixed {
        let body = crate::util::slice_skip(cs.as_slice(), skip_n);
        if all_digits_exec(body, 16) {
            let bv = vstd::slice::slice_to_vec(body);
            let bs = string_of(&bv);
            return match T::from_str_radix(bs.as_str(), 16) {
                Ok(v) => Ok(v),
                Err(_) => Err(ParseValueError::ParseInt),
            };
        }
    }
    let dec_ok: bool = if neg {
        let tail = crate::util::slice_skip(cs.as_slice(), 1);
        all_digits_exec(tail, 10)
    } else {
        all_digits_exec(cs.as_slice(), 10)
    };
    if dec_ok {
        match T::from_str_radix(s, 10) {
            Ok(v) => Ok(v),
            Err(_) => Err(ParseValueError::FromStr),
        }
    } else {
        let m = String::from_str("Unable to parse value from: \"").concat(s).concat("\"");
        Err(ParseValueError::OtherError(m))
    }
}

} // verus!

//! Shared helpers: character classes, radix-aware integer parsing with an
//! exact mathematical specification, and small string utilities used by the
//! lexer and the tables.

use vstd::prelude::*;
use vstd::slice::slice_subrange;
use vstd::slice::slice_to_vec;

verus! {

// ---------------------------------------------------------------------------
// Character classes.
// ---------------------------------------------------------------------------

/// Whitespace recognised when lines and operands are trimmed.
pub open spec fn is_space(c: char) -> bool {
    c == ' ' || c == '\t' || c == '\n' || c == '\r' || c == '\u{b}' || c == '\u{c}'
}

pub fn space_char(c: char) -> (r: bool)
    ensures
        r == is_space(c),
{
    c == ' ' || c == '\t' || c == '\n' || c == '\r' || c == '\u{b}' || c == '\u{c}'
}

pub open spec fn is_dec_digit(c: char) -> bool {
    '0' <= c && c <= '9'
}

pub open spec fn is_bin_digit(c: char) -> bool {
    c == '0' || c == '1'
}

pub open spec fn is_hex_digit(c: char) -> bool {
    is_dec_digit(c) || ('a' <= c && c <= 'f') || ('A' <= c && c <= 'F')
}

/// Is `c` a digit of the given radix (2, 10 or 16)?
pub open spec fn is_digit_of(c: char, radix: int) -> bool {
    if radix == 2 {
        is_bin_digit(c)
    } else if radix == 16 {
        is_hex_digit(c)
    } else {
        is_dec_digit(c)
    }
}

/// Numeric value of a digit character.
pub open spec fn digit_val(c: char) -> int {
    if is_dec_digit(c) {
        (c as u32) as int - ('0' as u32) as int
    } else if 'a' <= c && c <= 'f' {
        (c as u32) as int - ('a' as u32) as int + 10
    } else if 'A' <= c && c <= 'F' {
        (c as u32) as int - ('A' as u32) as int + 10
    } else {
        0
    }
}

pub fn dec_digit(c: char) -> (r: bool)
    ensures
        r == is_dec_digit(c),
{
    '0' <= c && c <= '9'
}

pub fn digit_of(c: char, radix: u32) -> (r: bool)
    ensures
        r == is_digit_of(c, radix as int),
{
    if radix == 2 {
        c == '0' || c == '1'
    } else if radix == 16 {
        ('0' <= c && c <= '9') || ('a' <= c && c <= 'f') || ('A' <= c && c <= 'F')
    } else {
        '0' <= c && c <= '9'
    }
}

/// Identifier characters accepted in operands and labels.
pub open spec fn is_ident_char(c: char) -> bool {
    is_dec_digit(c) || ('a' <= c && c <= 'z') || ('A' <= c && c <= 'Z') || c == '_'
}

pub fn ident_char(c: char) -> (r: bool)
    ensures
        r == is_ident_char(c),
{
    ('0' <= c && c <= '9') || ('a' <= c && c <= 'z') || ('A' <= c && c <= 'Z') || c == '_'
}

/// First character allowed in a label or symbol name.
pub open spec fn is_ident_start(c: char) -> bool {
    ('a' <= c && c <= 'z') || ('A' <= c && c <= 'Z') || c == '_'
}

pub fn ident_start(c: char) -> (r: bool)
    ensures
        r == is_ident_start(c),
{
    ('a' <= c && c <= 'z') || ('A' <= c && c <= 'Z') || c == '_'
}

pub open spec fn all_ident_chars(s: Seq<char>) -> bool {
    forall|i: int| 0 <= i < s.len() ==> is_ident_char(#[trigger] s[i])
}

pub open spec fn all_digits(s: Seq<char>, radix: int) -> bool {
    forall|i: int| 0 <= i < s.len() ==> is_digit_of(#[trigger] s[i], radix)
}

/// Are all characters digits of the radix?
pub fn all_digits_exec(s: &[char], radix: u32) -> (r: bool)
    requires
        radix == 2 || radix == 10 || radix == 16,
    ensures
        r == all_digits(s@, radix as int),
{
    let mut i: usize = 0;
    while i < s.len()
        invariant
            0 <= i <= s@.len(),
            radix == 2 || radix == 10 || radix == 16,
            forall|j: int| 0 <= j < i ==> is_digit_of(#[trigger] s@[j], radix as int),
        decreases s@.len() - i,
    {
        if !digit_of(s[i], radix) {
            return false;
        }
        i = i + 1;
    }
    true
}

// ---------------------------------------------------------------------------
// Digit strings as integers.
// ---------------------------------------------------------------------------

/// Value of a digit string under the given radix, most significant first.
pub open spec fn digits_val(s: Seq<char>, radix: int) -> int
    decreases s.len(),
{
    if s.len() == 0 {
        0
    } else {
        digits_val(s.drop_last(), radix) * radix + digit_val(s.last())
    }
}

pub proof fn lemma_digits_val_take_step(s: Seq<char>, radix: int, j: int)
    requires
        0 <= j < s.len(),
    ensures
        digits_val(s.take(j + 1), radix) == digits_val(s.take(j), radix) * radix + digit_val(s[j]),
{
    assert(s.take(j + 1).drop_last() =~= s.take(j));
    assert(s.take(j + 1).last() == s[j]);
}

pub proof fn lemma_digits_val_nonneg(s: Seq<char>, radix: int)
    requires
        radix >= 2,
        all_digits(s, radix),
    ensures
        digits_val(s, radix) >= 0,
    decreases s.len(),
{
    if s.len() > 0 {
        assert(all_digits(s.drop_last(), radix)) by {
            assert(forall|i: int|
                0 <= i < s.len() - 1 ==> s.drop_last()[i] == #[trigger] s[i]);
        }
        lemma_digits_val_nonneg(s.drop_last(), radix);
        assert(digit_val(s.last()) >= 0);
    }
}

/// Appending digits can only grow the value: the prefix value is a lower bound.
pub proof fn lemma_digits_val_prefix_le(s: Seq<char>, radix: int, j: int)
    requires
        radix >= 2,
        all_digits(s, radix),
        0 <= j <= s.len(),
    ensures
        digits_val(s.take(j), radix) <= digits_val(s, radix),
    decreases s.len() - j,
{
    if j < s.len() {
        lemma_digits_val_take_step(s, radix, j);
        assert(all_digits(s.take(j), radix)) by {
            assert(forall|i: int| 0 <= i < j ==> s.take(j)[i] == #[trigger] s[i]);
        }
        lemma_digits_val_nonneg(s.take(j), radix);
        assert(digit_val(s[j]) >= 0);
        assert(digits_val(s.take(j), radix) <= digits_val(s.take(j + 1), radix)) by {
            assert(digits_val(s.take(j), radix) * radix >= digits_val(s.take(j), radix) * 2)
                by (nonlinear_arith)
                requires radix >= 2, digits_val(s.take(j), radix) >= 0;
        }
        lemma_digits_val_prefix_le(s, radix, j + 1);
    } else {
        assert(s.take(j) =~= s);
    }
}

/// Exec digit value of a digit character.
pub fn digit_value(c: char) -> (r: u32)
    ensures
        r as int == digit_val(c),
{
    if '0' <= c && c <= '9' {
        (c as u32) - ('0' as u32)
    } else if 'a' <= c && c <= 'f' {
        (c as u32) - ('a' as u32) + 10
    } else if 'A' <= c && c <= 'F' {
        (c as u32) - ('A' as u32) + 10
    } else {
        0
    }
}

/// Accumulates a digit string into a `u128`, reporting overflow.
pub fn parse_digits_u128(s: &[char], radix: u32) -> (r: Option<u128>)
    requires
        radix == 2 || radix == 10 || radix == 16,
        all_digits(s@, radix as int),
    ensures
        match r {
            Some(v) => v as int == digits_val(s@, radix as int),
            None => digits_val(s@, radix as int) > u128::MAX,
        },
{
    let mut acc: u128 = 0;
    let mut i: usize = 0;
    proof {
        assert(s@.take(0) =~= Seq::<char>::empty());
    }
    while i < s.len()
        invariant
            0 <= i <= s@.len(),
            radix == 2 || radix == 10 || radix == 16,
            all_digits(s@, radix as int),
            acc as int == digits_val(s@.take(i as int), radix as int),
        decreases s@.len() - i,
    {
        let d: u32 = digit_value(s[i]);
        let step: Option<u128> = match acc.checked_mul(radix as u128) {
            Some(m) => m.checked_add(d as u128),
            None => None,
        };
        proof {
            lemma_digits_val_take_step(s@, radix as int, i as int);
        }
        match step {
            Some(v) => {
                acc = v;
            },
            None => {
                proof {
                    lemma_digits_val_prefix_le(s@, radix as int, i + 1);
                }
                return None;
            },
        }
        i = i + 1;
    }
    proof {
        assert(s@.take(s@.len() as int) =~= s@);
    }
    Some(acc)
}

// ---------------------------------------------------------------------------
// Radix-prefixed integer literals.
// ---------------------------------------------------------------------------

/// Does the string carry a `0x` or `0b` radix prefix?
pub open spec fn has_radix_prefix(s: Seq<char>) -> bool {
    s.len() >= 2 && s[0] == '0' && (s[1] == 'x' || s[1] == 'b')
}

/// A possibly signed digit string: an optional `+`/`-`, then one or more
/// digits of the radix.
pub open spec fn spec_signed_digits(s: Seq<char>, radix: int) -> Option<int> {
    let body = if s.len() > 0 && (s[0] == '-' || s[0] == '+') { s.skip(1) } else { s };
    if body.len() > 0 && all_digits(body, radix) {
        if s.len() > 0 && s[0] == '-' {
            Some(-digits_val(body, radix))
        } else {
            Some(digits_val(body, radix))
        }
    } else {
        None
    }
}

/// The integer denoted by a literal in the form accepted by `ParseFrom`:
/// `0x` hexadecimal, `0b` binary, or decimal, each with an optional sign
/// after the radix prefix (or at the front, for decimal).
pub open spec fn spec_parse_int(s: Seq<char>) -> Option<int> {
    if has_radix_prefix(s) {
        spec_signed_digits(s.skip(2), if s[1] == 'x' { 16 } else { 2 })
    } else {
        spec_signed_digits(s, 10)
    }
}

/// Whether the effective sign of the literal is negative.
pub open spec fn spec_parse_neg(s: Seq<char>) -> bool {
    if has_radix_prefix(s) {
        s.len() > 2 && s[2] == '-'
    } else {
        s.len() > 0 && s[0] == '-'
    }
}

/// A subslice dropping the first `n` elements.
pub fn slice_skip<'a>(s: &'a [char], n: usize) -> (r: &'a [char])
    requires
        n <= s@.len(),
    ensures
        r@ == s@.skip(n as int),
{
    let r: &[char] = slice_subrange(s, n, s.len());
    proof {
        assert(r@ =~= s@.skip(n as int));
    }
    r
}

/// Parses a signed digit string (optional sign, then digits) under `radix`.
/// Values beyond `i128` are reported as `None` like malformed input is.
pub fn parse_signed_digits(s: &[char], radix: u32) -> (r: Option<i128>)
    requires
        radix == 2 || radix == 10 || radix == 16,
    ensures
        match r {
            Some(v) => spec_signed_digits(s@, radix as int) == Some(v as int),
            None => {
                ||| spec_signed_digits(s@, radix as int) is None
                ||| !(i128::MIN <= spec_signed_digits(s@, radix as int).unwrap() <= i128::MAX)
            },
        },
{
    let neg: bool = s.len() > 0 && s[0] == '-';
    let signed: bool = s.len() > 0 && (s[0] == '-' || s[0] == '+');
    let body: &[char] = if signed { slice_skip(s, 1) } else { s };
    if body.len() == 0 {
        return None;
    }
    let mut i: usize = 0;
    while i < body.len()
        invariant
            0 <= i <= body@.len(),
            radix == 2 || radix == 10 || radix == 16,
            body@.len() > 0,
            signed == (s@.len() > 0 && (s@[0] == '-' || s@[0] == '+')),
            body@ == if signed { s@.skip(1) } else { s@ },
            forall|j: int| 0 <= j < i ==> is_digit_of(#[trigger] body@[j], radix as int),
        decreases body@.len() - i,
    {
        if !digit_of(body[i], radix) {
            return None;
        }
        i = i + 1;
    }
    let mag = parse_digits_u128(body, radix);
    match mag {
        None => None,
        Some(m) => {
            if neg {
                if m <= 0x8000_0000_0000_0000_0000_0000_0000_0000u128 {
                    if m == 0x8000_0000_0000_0000_0000_0000_0000_0000u128 {
                        Some(i128::MIN)
                    } else {
                        Some(-(m as i128))
                    }
                } else {
                    None
                }
            } else {
                if m <= 0x7fff_ffff_ffff_ffff_ffff_ffff_ffff_ffffu128 {
                    Some(m as i128)
                } else {
                    None
                }
            }
        },
    }
}

/// The error of a failed `ParseFrom::parse`: the radix path failed, or the
/// plain decimal path failed.
#[derive(Debug, PartialEq, Eq, Structural)]
pub enum ParseFromError {
    FromRadix,
    FromStr,
}

/// Parses a full `0x`/`0b`/decimal literal into an `i128`, with the error
/// variant recording which path was taken.
pub fn parse_int_core(s: &[char]) -> (r: Result<i128, ParseFromError>)
    ensures
        match r {
            Ok(v) => spec_parse_int(s@) == Some(v as int),
            Err(e) => {
                &&& (match spec_parse_int(s@) {
                    Some(n) => !(i128::MIN <= n <= i128::MAX),
                    None => true,
                })
                &&& (e == ParseFromError::FromRadix <==> has_radix_prefix(s@))
            },
        },
{
    if s.len() >= 2 && s[0] == '0' && (s[1] == 'x' || s[1] == 'b') {
        let radix: u32 = if s[1] == 'x' { 16 } else { 2 };
        match parse_signed_digits(slice_skip(s, 2), radix) {
            Some(v) => Ok(v),
            None => Err(ParseFromError::FromRadix),
        }
    } else {
        match parse_signed_digits(s, 10) {
            Some(v) => Ok(v),
            None => Err(ParseFromError::FromStr),
        }
    }
}

/// Whether the literal in `s` parses to a value within `[lo, hi]`, with
/// negative signs refused when `signed` is false.
pub open spec fn int_parse_ok(s: Seq<char>, lo: int, hi: int, signed: bool) -> Option<int> {
    match spec_parse_int(s) {
        Some(n) => if lo <= n <= hi && (signed || !spec_parse_neg(s)) {
            Some(n)
        } else {
            None
        },
        None => None,
    }
}

/// The effective sign of the literal, as an exec test.
pub fn parse_neg(s: &[char]) -> (r: bool)
    ensures
        r == spec_parse_neg(s@),
{
    if s.len() >= 2 && s[0] == '0' && (s[1] == 'x' || s[1] == 'b') {
        s.len() > 2 && s[2] == '-'
    } else {
        s.len() > 0 && s[0] == '-'
    }
}

// ---------------------------------------------------------------------------
// Strings and character vectors.
// ---------------------------------------------------------------------------

/// The characters of a string, in order.
pub fn chars_of(s: &str) -> (v: Vec<char>)
    ensures
        v@ == s@,
{
    let n: usize = s.unicode_len();
    let mut v: Vec<char> = Vec::new();
    let mut i: usize = 0;
    proof {
        assert(v@ =~= s@.take(0));
    }
    while i < n
        invariant
            0 <= i <= n,
            n == s@.len(),
            v@ == s@.take(i as int),
        decreases n - i,
    {
        let c = s.get_char(i);
        v.push(c);
        proof {
            assert(v@ =~= s@.take(i as int + 1));
        }
        i = i + 1;
    }
    proof {
        assert(v@ =~= s@);
    }
    v
}

/// Relies on `String`'s `FromIterator` impl (through `Iterator::collect`):
/// the returned string holds exactly the given characters, in order.
#[verifier::external_body]
pub fn string_of(v: &Vec<char>) -> (s: String)
    ensures
        s@ == v@,
{
    v.iter().collect()
}

/// Character-wise string equality, with the views as its meaning.
pub fn str_eq(a: &str, b: &str) -> (r: bool)
    ensures
        r == (a@ == b@),
{
    let na: usize = a.unicode_len();
    let nb: usize = b.unicode_len();
    if na != nb {
        proof {
            if a@ == b@ {
                assert(a@.len() == b@.len());
            }
        }
        return false;
    }
    let mut i: usize = 0;
    while i < na
        invariant
            0 <= i <= na,
            na == a@.len(),
            na == b@.len(),
            forall|j: int| 0 <= j < i ==> a@[j] == b@[j],
        decreases na - i,
    {
        if a.get_char(i) != b.get_char(i) {
            proof {
                if a@ == b@ {
                    assert(a@[i as int] == b@[i as int]);
                }
            }
            return false;
        }
        i = i + 1;
    }
    proof {
        assert(a@ =~= b@);
    }
    true
}

/// A fresh vector holding `s[a..b]`.
pub fn slice_range_vec(s: &[char], a: usize, b: usize) -> (r: Vec<char>)
    requires
        a <= b <= s@.len(),
    ensures
        r@ == s@.subrange(a as int, b as int),
{
    slice_to_vec(slice_subrange(s, a, b))
}


/// The index of the first occurrence of `c`, or the length if absent.
pub open spec fn char_pos(s: Seq<char>, c: char) -> int
    decreases s.len(),
{
    if s.len() == 0 {
        0
    } else if s[0] == c {
        0
    } else {
        1 + char_pos(s.skip(1), c)
    }
}

pub proof fn lemma_char_pos_at(s: Seq<char>, c: char, i: int)
    requires
        0 <= i <= s.len(),
        forall|j: int| 0 <= j < i ==> s[j] != c,
        i < s.len() ==> s[i] == c,
    ensures
        char_pos(s, c) == i,
    decreases i,
{
    if s.len() == 0 {
    } else if i == 0 {
        if s.len() > 0 && s[0] != c {
            assert(s[0] == c);
        }
    } else {
        assert(s[0] != c);
        let t = s.skip(1);
        assert(forall|j: int| 0 <= j < i - 1 ==> t[j] == s[j + 1] && s[j + 1] != c);
        assert(i - 1 < t.len() ==> t[i - 1] == s[i]);
        lemma_char_pos_at(t, c, i - 1);
    }
}

/// Basic facts: the position is within bounds, points at `c` when inside,
/// and nothing before it is `c`.
pub proof fn lemma_char_pos_props(s: Seq<char>, c: char)
    ensures
        0 <= char_pos(s, c) <= s.len(),
        char_pos(s, c) < s.len() ==> s[char_pos(s, c)] == c,
        forall|j: int| 0 <= j < char_pos(s, c) ==> s[j] != c,
    decreases s.len(),
{
    if s.len() > 0 && s[0] != c {
        lemma_char_pos_props(s.skip(1), c);
        assert(forall|j: int| 1 <= j < char_pos(s, c) ==> s[j] == s.skip(1)[j - 1]);
    }
}

/// Exec search for the first occurrence of `c`.
pub fn char_pos_exec(s: &[char], c: char) -> (r: usize)
    ensures
        r as int == char_pos(s@, c),
        r <= s@.len(),
{
    let mut i: usize = 0;
    while i < s.len()
        invariant
            0 <= i <= s@.len(),
            forall|j: int| 0 <= j < i ==> s@[j] != c,
        decreases s@.len() - i,
    {
        if s[i] == c {
            proof {
                lemma_char_pos_at(s@, c, i as int);
            }
            return i;
        }
        i = i + 1;
    }
    proof {
        lemma_char_pos_at(s@, c, s@.len() as int);
    }
    i
}

// ---------------------------------------------------------------------------
// Decimal rendering.
// ---------------------------------------------------------------------------

/// The digit character of a value below ten.
pub open spec fn dec_digit_char(n: int) -> char {
    if n == 0 {
        '0'
    } else if n == 1 {
        '1'
    } else if n == 2 {
        '2'
    } else if n == 3 {
        '3'
    } else if n == 4 {
        '4'
    } else if n == 5 {
        '5'
    } else if n == 6 {
        '6'
    } else if n == 7 {
        '7'
    } else if n == 8 {
        '8'
    } else {
        '9'
    }
}

/// The decimal rendering of a natural number, most significant digit first.
pub open spec fn dec_str(n: int) -> Seq<char>
    decreases n,
{
    if n < 10 {
        seq![dec_digit_char(n)]
    } else {
        dec_str(n / 10) + seq![dec_digit_char(n % 10)]
    }
}

fn digit_char_exec(d: usize) -> (c: char)
    requires
        d < 10,
    ensures
        c == dec_digit_char(d as int),
{
    if d == 0 {
        '0'
    } else if d == 1 {
        '1'
    } else if d == 2 {
        '2'
    } else if d == 3 {
        '3'
    } else if d == 4 {
        '4'
    } else if d == 5 {
        '5'
    } else if d == 6 {
        '6'
    } else if d == 7 {
        '7'
    } else if d == 8 {
        '8'
    } else {
        '9'
    }
}

/// Renders a number in decimal.
pub fn dec_string(n: usize) -> (s: String)
    ensures
        s@ == dec_str(n as int),
    decreases n,
{
    if n < 10 {
        let v: Vec<char> = vec![digit_char_exec(n)];
        let s = string_of(&v);
        proof {
            assert(s@ =~= dec_str(n as int));
        }
        s
    } else {
        let high = dec_string(n / 10);
        let v: Vec<char> = vec![digit_char_exec(n % 10)];
        let low = string_of(&v);
        let r = high.concat(low.as_str());
        proof {
            assert(r@ =~= dec_str(n as int));
        }
        r
    }
}

/// Renders a 64-bit number in decimal.
pub fn dec_string_u64(n: u64) -> (s: String)
    ensures
        s@ == dec_str(n as int),
    decreases n,
{
    if n < 10 {
        let v: Vec<char> = vec![digit_char_exec(n as usize)];
        let s = string_of(&v);
        proof {
            assert(s@ =~= dec_str(n as int));
        }
        s
    } else {
        let high = dec_string_u64(n / 10);
        let v: Vec<char> = vec![digit_char_exec((n % 10) as usize)];
        let low = string_of(&v);
        let r = high.concat(low.as_str());
        proof {
            assert(r@ =~= dec_str(n as int));
        }
        r
    }
}

/// The decimal rendering of an integer: a minus sign ahead of a negative
/// value's magnitude.
pub open spec fn dec_str_signed(v: int) -> Seq<char> {
    if v < 0 {
        seq!['-'] + dec_str(-v)
    } else {
        dec_str(v)
    }
}

/// Renders a signed value in decimal.
pub fn dec_string_i64(v: i64) -> (s: String)
    ensures
        s@ == dec_str_signed(v as int),
{
    if v >= 0 {
        dec_string_u64(v as u64)
    } else {
        let mag: u64 = if v == i64::MIN {
            9223372036854775808u64
        } else {
            (-v) as u64
        };
        let m = dec_string_u64(mag);
        let r = String::from_str("-").concat(m.as_str());
        proof {
            reveal_strlit("-");
            assert(r@ =~= dec_str_signed(v as int));
        }
        r
    }
}

// ---------------------------------------------------------------------------
// Trimming.
// ---------------------------------------------------------------------------

pub open spec fn trim_start_spec(s: Seq<char>) -> Seq<char>
    decreases s.len(),
{
    if s.len() > 0 && is_space(s[0]) {
        trim_start_spec(s.skip(1))
    } else {
        s
    }
}

pub open spec fn trim_end_spec(s: Seq<char>) -> Seq<char>
    decreases s.len(),
{
    if s.len() > 0 && is_space(s.last()) {
        trim_end_spec(s.drop_last())
    } else {
        s
    }
}

/// The string with leading and trailing whitespace removed.
pub open spec fn trim_spec(s: Seq<char>) -> Seq<char> {
    trim_end_spec(trim_start_spec(s))
}

/// Trims whitespace from both ends.
pub fn trim_slice(s: &[char]) -> (r: Vec<char>)
    ensures
        r@ == trim_spec(s@),
{
    let mut a: usize = 0;
    proof {
        assert(s@.skip(0) =~= s@);
    }
    while a < s.len() && space_char(s[a])
        invariant
            0 <= a <= s@.len(),
            trim_start_spec(s@) == trim_start_spec(s@.skip(a as int)),
        decreases s@.len() - a,
    {
        proof {
            assert(s@.skip(a as int).skip(1) =~= s@.skip(a as int + 1));
        }
        a = a + 1;
    }
    proof {
        assert(trim_start_spec(s@.skip(a as int)) == s@.skip(a as int));
        assert(s@.subrange(a as int, s@.len() as int) =~= s@.skip(a as int));
    }
    let mut b: usize = s.len();
    while b > a && space_char(s[b - 1])
        invariant
            a <= b <= s@.len(),
            trim_end_spec(s@.skip(a as int)) == trim_end_spec(
                s@.subrange(a as int, b as int),
            ),
        decreases b,
    {
        proof {
            assert(s@.subrange(a as int, b as int).drop_last() =~= s@.subrange(
                a as int,
                b as int - 1,
            ));
            assert(s@.subrange(a as int, b as int).last() == s@[b as int - 1]);
        }
        b = b - 1;
    }
    proof {
        assert(trim_end_spec(s@.subrange(a as int, b as int)) == s@.subrange(a as int, b as int));
    }
    slice_range_vec(s, a, b)
}

// ---------------------------------------------------------------------------
// The `ParseFrom` trait.
// ---------------------------------------------------------------------------

/// Types parsable from `0x`/`0b`/decimal literals.
pub trait ParseFrom: Sized {
    /// Smallest value of the type.
    spec fn min_spec() -> int;

    /// Largest value of the type.
    spec fn max_spec() -> int;

    /// Whether a leading `-` is accepted.
    spec fn signed_spec() -> bool;

    /// The mathematical value held.
    spec fn as_int(self) -> int;

    /// Parses the literal, accepting exactly the values of the type.
    fn parse(val_str: &str) -> (r: Result<Self, ParseFromError>)
        ensures
            match int_parse_ok(val_str@, Self::min_spec(), Self::max_spec(), Self::signed_spec()) {
                Some(n) => r matches Ok(v) && v.as_int() == n,
                None => r is Err,
            };
}

/// The error variant a failed parse reports, by the literal's radix prefix.
fn range_error(s: &[char]) -> ParseFromError {
    if s.len() >= 2 && s[0] == '0' && (s[1] == 'x' || s[1] == 'b') {
        ParseFromError::FromRadix
    } else {
        ParseFromError::FromStr
    }
}

impl ParseFrom for i8 {
    open spec fn min_spec() -> int {
        i8::MIN as int
    }

    open spec fn max_spec() -> int {
        i8::MAX as int
    }

    open spec fn signed_spec() -> bool {
        true
    }

    open spec fn as_int(self) -> int {
        self as int
    }

    fn parse(val_str: &str) -> (r: Result<Self, ParseFromError>) {
        let cs = chars_of(val_str);
        match parse_int_core(cs.as_slice()) {
            Ok(v) => if -128 <= v && v <= 127 {
                Ok(v as i8)
            } else {
                Err(range_error(cs.as_slice()))
            },
            Err(e) => Err(e),
        }
    }
}

impl ParseFrom for i16 {
    open spec fn min_spec() -> int {
        i16::MIN as int
    }

    open spec fn max_spec() -> int {
        i16::MAX as int
    }

    open spec fn signed_spec() -> bool {
        true
    }

    open spec fn as_int(self) -> int {
        self as int
    }

    fn parse(val_str: &str) -> (r: Result<Self, ParseFromError>) {
        let cs = chars_of(val_str);
        match parse_int_core(cs.as_slice()) {
            Ok(v) => if -32768 <= v && v <= 32767 {
                Ok(v as i16)
            } else {
                Err(range_error(cs.as_slice()))
            },
            Err(e) => Err(e),
        }
    }
}

impl ParseFrom for i32 {
    open spec fn min_spec() -> int {
        i32::MIN as int
    }

    open spec fn max_spec() -> int {
        i32::MAX as int
    }

    open spec fn signed_spec() -> bool {
        true
    }

    open spec fn as_int(self) -> int {
        self as int
    }

    fn parse(val_str: &str) -> (r: Result<Self, ParseFromError>) {
        let cs = chars_of(val_str);
        match parse_int_core(cs.as_slice()) {
            Ok(v) => if -0x8000_0000i128 <= v && v <= 0x7fff_ffffi128 {
                Ok(v as i32)
            } else {
                Err(range_error(cs.as_slice()))
            },
            Err(e) => Err(e),
        }
    }
}

impl ParseFrom for i64 {
    open spec fn min_spec() -> int {
        i64::MIN as int
    }

    open spec fn max_spec() -> int {
        i64::MAX as int
    }

    open spec fn signed_spec() -> bool {
        true
    }

    open spec fn as_int(self) -> int {
        self as int
    }

    fn parse(val_str: &str) -> (r: Result<Self, ParseFromError>) {
        let cs = chars_of(val_str);
        match parse_int_core(cs.as_slice()) {
            Ok(v) => if -0x8000_0000_0000_0000i128 <= v && v <= 0x7fff_ffff_ffff_ffffi128 {
                Ok(v as i64)
            } else {
                Err(range_error(cs.as_slice()))
            },
            Err(e) => Err(e),
        }
    }
}

impl ParseFrom for u32 {
    open spec fn min_spec() -> int {
        0
    }

    open spec fn max_spec() -> int {
        u32::MAX as int
    }

    open spec fn signed_spec() -> bool {
        false
    }

    open spec fn as_int(self) -> int {
        self as int
    }

    fn parse(val_str: &str) -> (r: Result<Self, ParseFromError>) {
        let cs = chars_of(val_str);
        if parse_neg(cs.as_slice()) {
            return Err(range_error(cs.as_slice()));
        }
        match parse_int_core(cs.as_slice()) {
            Ok(v) => if 0 <= v && v <= 0xffff_ffffi128 {
                Ok(v as u32)
            } else {
                Err(range_error(cs.as_slice()))
            },
            Err(e) => Err(e),
        }
    }
}

impl ParseFrom for usize {
    open spec fn min_spec() -> int {
        0
    }

    open spec fn max_spec() -> int {
        usize::MAX as int
    }

    open spec fn signed_spec() -> bool {
        false
    }

    open spec fn as_int(self) -> int {
        self as int
    }

    fn parse(val_str: &str) -> (r: Result<Self, ParseFromError>) {
        let cs = chars_of(val_str);
        if parse_neg(cs.as_slice()) {
            return Err(range_error(cs.as_slice()));
        }
        match parse_int_core(cs.as_slice()) {
            Ok(v) => if 0 <= v && v <= usize::MAX as i128 {
                Ok(v as usize)
            } else {
                Err(range_error(cs.as_slice()))
            },
            Err(e) => Err(e),
        }
    }
}

} // verus!

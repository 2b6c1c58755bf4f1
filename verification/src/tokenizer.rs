//! The section-level tokenizer: groups a source text into sections, labels
//! within them, and the instructions and constant data they hold.

use vstd::prelude::*;
use crate::util::{
    is_dec_digit, is_hex_digit, is_ident_char, is_ident_start, all_digits, digits_val, char_pos, trim_spec, lemma_char_pos_props, char_pos_exec, trim_slice, slice_range_vec, slice_skip, chars_of, string_of, ident_char, ident_start, parse_digits_u128, all_digits_exec, dec_digit,
};
use crate::lexer::{strip_comment, split_after, split_after_exec, is_rel_addr, is_rel_addr_exec};
use crate::utility::{ParseWithRadix, parse_value, spec_radix_ok, is_hex_form, is_dec_form, hex_body};

pub use crate::memory::SectionFlags;

verus! {

// ---------------------------------------------------------------------------
// The token tree.
// ---------------------------------------------------------------------------

/// Constant data grouped by width.
#[derive(Debug, Clone, PartialEq)]
pub enum DataType {
    Byte(Vec<u8>),
    Half(Vec<u16>),
    Word(Vec<u32>),
    Dword(Vec<u64>),
    String(String),
}

/// Symbol that an offset is relative to.
#[derive(Debug, Clone, PartialEq)]
pub enum RelativeSymbol {
    Label(String),
    Register(char, u8),
}

/// The token tree: sections hold labels and lines, labels hold lines.
#[derive(Debug, PartialEq)]
pub enum Token<T> {
    Section(String, SectionFlags, Vec<Token<T>>),
    Label(String, Vec<Token<T>>),
    Data(DataType),
    Instruction(String, Vec<Token<T>>),
    Offset { base: RelativeSymbol, offset: T },
    Register(char, u8),
    Immediate(T),
    Debug(String),
}

/// The mathematical shape of constant data, each element as its value.
#[verifier::ext_equal]
pub enum SpecData {
    Byte(Seq<int>),
    Half(Seq<int>),
    Word(Seq<int>),
    Dword(Seq<int>),
    String(Seq<char>),
}

#[verifier::ext_equal]
pub enum SpecRelSym {
    Label(Seq<char>),
    Register(char, u8),
}

/// The mathematical shape of a token tree node.
#[verifier::ext_equal]
pub enum SpecTok {
    Section(Seq<char>, SectionFlags, Seq<SpecTok>),
    Label(Seq<char>, Seq<SpecTok>),
    Data(SpecData),
    Instruction(Seq<char>, Seq<SpecTok>),
    Offset(SpecRelSym, int),
    Register(char, u8),
    Immediate(int),
    Debug(Seq<char>),
}

impl View for DataType {
    type V = SpecData;

    open spec fn view(&self) -> SpecData {
        match self {
            DataType::Byte(v) => SpecData::Byte(Seq::new(v@.len(), |i: int| v@[i] as int)),
            DataType::Half(v) => SpecData::Half(Seq::new(v@.len(), |i: int| v@[i] as int)),
            DataType::Word(v) => SpecData::Word(Seq::new(v@.len(), |i: int| v@[i] as int)),
            DataType::Dword(v) => SpecData::Dword(Seq::new(v@.len(), |i: int| v@[i] as int)),
            DataType::String(s) => SpecData::String(s@),
        }
    }
}

impl View for RelativeSymbol {
    type V = SpecRelSym;

    open spec fn view(&self) -> SpecRelSym {
        match self {
            RelativeSymbol::Label(s) => SpecRelSym::Label(s@),
            RelativeSymbol::Register(b, i) => SpecRelSym::Register(*b, *i),
        }
    }
}

/// The mathematical shape of a token tree, children gathered in order.
pub open spec fn tok_view<T: ParseWithRadix>(t: Token<T>) -> SpecTok
    decreases t,
{
    match t {
        Token::Section(n, f, ts) => SpecTok::Section(
            n@,
            f,
            Seq::new(
                ts@.len(),
                |i: int| if 0 <= i < ts@.len() {
                    tok_view(ts@[i])
                } else {
                    SpecTok::Debug(Seq::empty())
                },
            ),
        ),
        Token::Label(n, ts) => SpecTok::Label(
            n@,
            Seq::new(
                ts@.len(),
                |i: int| if 0 <= i < ts@.len() {
                    tok_view(ts@[i])
                } else {
                    SpecTok::Debug(Seq::empty())
                },
            ),
        ),
        Token::Data(d) => SpecTok::Data(d@),
        Token::Instruction(m, ts) => SpecTok::Instruction(
            m@,
            Seq::new(
                ts@.len(),
                |i: int| if 0 <= i < ts@.len() {
                    tok_view(ts@[i])
                } else {
                    SpecTok::Debug(Seq::empty())
                },
            ),
        ),
        Token::Offset { base, offset } => SpecTok::Offset(base@, offset.as_int()),
        Token::Register(b, i) => SpecTok::Register(b, i),
        Token::Immediate(v) => SpecTok::Immediate(v.as_int()),
        Token::Debug(s) => SpecTok::Debug(s@),
    }
}

impl<T: ParseWithRadix> View for Token<T> {
    type V = SpecTok;

    open spec fn view(&self) -> SpecTok {
        tok_view(*self)
    }
}

impl<T: ParseWithRadix> DeepView for Token<T> {
    type V = SpecTok;

    open spec fn deep_view(&self) -> SpecTok {
        self.view()
    }
}

/// Tokenizer failures, each with its message.
pub enum SpecTokErr {
    InvalidSection(Seq<char>),
    InvalidSectionFlag(Seq<char>),
    InvalidLabel(Seq<char>),
    InvalidDataDirective(Seq<char>),
    InvalidInstruction(Seq<char>),
    InvalidRegister(Seq<char>),
    InvalidImmediate(Seq<char>),
    InvalidOffset(Seq<char>),
    Other(Seq<char>),
}

/// The message a failure carries.
pub open spec fn err_msg(e: SpecTokErr) -> Seq<char> {
    match e {
        SpecTokErr::InvalidSection(m) => m,
        SpecTokErr::InvalidSectionFlag(m) => m,
        SpecTokErr::InvalidLabel(m) => m,
        SpecTokErr::InvalidDataDirective(m) => m,
        SpecTokErr::InvalidInstruction(m) => m,
        SpecTokErr::InvalidRegister(m) => m,
        SpecTokErr::InvalidImmediate(m) => m,
        SpecTokErr::InvalidOffset(m) => m,
        SpecTokErr::Other(m) => m,
    }
}

// ---------------------------------------------------------------------------
// Line grammar.
// ---------------------------------------------------------------------------

pub open spec fn is_alpha(c: char) -> bool {
    ('a' <= c && c <= 'z') || ('A' <= c && c <= 'Z')
}

fn alpha_char(c: char) -> (r: bool)
    ensures
        r == is_alpha(c),
{
    ('a' <= c && c <= 'z') || ('A' <= c && c <= 'Z')
}

/// A section line: a dotted name, optionally followed by arguments.
pub open spec fn tok_is_section(line: Seq<char>) -> bool {
    let p = char_pos(line, ' ');
    let e = if p < line.len() {
        p
    } else {
        line.len() as int
    };
    &&& line.len() >= 2
    &&& line[0] == '.'
    &&& is_ident_start(line[1])
    &&& (forall|i: int| 2 <= i < e ==> is_ident_char(#[trigger] line[i]))
    &&& (p < line.len() ==> p + 1 < line.len())
}

/// A label line: a name and a colon, anything after.
pub open spec fn tok_is_label(line: Seq<char>) -> bool {
    let c = char_pos(line, ':');
    &&& 1 <= c < line.len()
    &&& is_ident_start(line[0])
    &&& (forall|i: int| 1 <= i < c ==> is_ident_char(#[trigger] line[i]))
}

/// An instruction line: an alphabetic mnemonic, bare or followed by
/// operands.
pub open spec fn tok_is_instruction(line: Seq<char>) -> bool {
    let p = char_pos(line, ' ');
    let e = if p < line.len() {
        p
    } else {
        line.len() as int
    };
    &&& e >= 1
    &&& (forall|i: int| 0 <= i < e ==> is_alpha(#[trigger] line[i]))
    &&& (p < line.len() ==> p + 1 < line.len())
}

/// A constant-data line: it holds a digit or a quoted string.
pub open spec fn tok_is_data(line: Seq<char>) -> bool {
    ||| (exists|i: int| 0 <= i < line.len() && is_dec_digit(#[trigger] line[i]))
    ||| {
        let q1 = char_pos(line, '"');
        q1 < line.len() && char_pos(line.skip(q1 + 1), '"') < line.len() - q1 - 1
    }
}

/// A bare register operand: a bank letter and digits.
pub open spec fn tok_is_register(s: Seq<char>) -> bool {
    s.len() >= 2 && (s[0] == 'x' || s[0] == 'f') && all_digits(s.skip(1), 10)
}

fn tok_is_section_exec(line: &[char]) -> (r: bool)
    ensures
        r == tok_is_section(line@),
{
    let p = char_pos_exec(line, ' ');
    proof {
        lemma_char_pos_props(line@, ' ');
    }
    let e: usize = if p < line.len() {
        p
    } else {
        line.len()
    };
    if !(line.len() >= 2 && line[0] == '.' && ident_start(line[1])) {
        return false;
    }
    if p < line.len() && p + 1 >= line.len() {
        return false;
    }
    let mut i: usize = 2;
    while i < e
        invariant
            2 <= i <= e <= line@.len(),
            e as int == (if char_pos(line@, ' ') < line@.len() {
                char_pos(line@, ' ')
            } else {
                line@.len() as int
            }),
            forall|j: int| 2 <= j < i ==> is_ident_char(#[trigger] line@[j]),
        decreases e - i,
    {
        if !ident_char(line[i]) {
            return false;
        }
        i = i + 1;
    }
    true
}

fn tok_is_label_exec(line: &[char]) -> (r: bool)
    ensures
        r == tok_is_label(line@),
{
    let c = char_pos_exec(line, ':');
    proof {
        lemma_char_pos_props(line@, ':');
    }
    if !(1 <= c && c < line.len()) {
        return false;
    }
    if !ident_start(line[0]) {
        return false;
    }
    let mut i: usize = 1;
    while i < c
        invariant
            1 <= i <= c <= line@.len(),
            c as int == char_pos(line@, ':'),
            c < line@.len(),
            forall|j: int| 1 <= j < i ==> is_ident_char(#[trigger] line@[j]),
        decreases c - i,
    {
        if !ident_char(line[i]) {
            return false;
        }
        i = i + 1;
    }
    true
}

fn tok_is_instruction_exec(line: &[char]) -> (r: bool)
    ensures
        r == tok_is_instruction(line@),
{
    let p = char_pos_exec(line, ' ');
    proof {
        lemma_char_pos_props(line@, ' ');
    }
    let e: usize = if p < line.len() {
        p
    } else {
        line.len()
    };
    if e < 1 {
        return false;
    }
    if p < line.len() && p + 1 >= line.len() {
        return false;
    }
    let mut i: usize = 0;
    while i < e
        invariant
            0 <= i <= e <= line@.len(),
            e as int == (if char_pos(line@, ' ') < line@.len() {
                char_pos(line@, ' ')
            } else {
                line@.len() as int
            }),
            forall|j: int| 0 <= j < i ==> is_alpha(#[trigger] line@[j]),
        decreases e - i,
    {
        if !alpha_char(line[i]) {
            return false;
        }
        i = i + 1;
    }
    true
}

fn tok_is_data_exec(line: &[char]) -> (r: bool)
    ensures
        r == tok_is_data(line@),
{
    let mut i: usize = 0;
    while i < line.len()
        invariant
            0 <= i <= line@.len(),
            forall|j: int| 0 <= j < i ==> !is_dec_digit(#[trigger] line@[j]),
        decreases line@.len() - i,
    {
        if dec_digit(line[i]) {
            return true;
        }
        i = i + 1;
    }
    let q1 = char_pos_exec(line, '"');
    if q1 >= line.len() {
        return false;
    }
    let rest = slice_skip(line, q1 + 1);
    let q2 = char_pos_exec(rest, '"');
    q2 < rest.len()
}

fn tok_is_register_exec(s: &[char]) -> (r: bool)
    ensures
        r == tok_is_register(s@),
{
    if s.len() >= 2 && (s[0] == 'x' || s[0] == 'f') {
        all_digits_exec(slice_skip(s, 1), 10)
    } else {
        false
    }
}

// ---------------------------------------------------------------------------
// Operand classification.
// ---------------------------------------------------------------------------

/// The value of a literal piece under `parse_value`, or zero where it does
/// not parse: how data elements and offsets fall back.
pub open spec fn spec_value_or0(s: Seq<char>, lo: int, hi: int, signed: bool) -> int {
    if is_hex_form(s) {
        match spec_radix_ok(hex_body(s), 16, lo, hi, signed) {
            Some(n) => n,
            None => 0,
        }
    } else if is_dec_form(s) {
        match spec_radix_ok(s, 10, lo, hi, signed) {
            Some(n) => n,
            None => 0,
        }
    } else {
        0
    }
}

/// A base+offset operand: the base a register or label, the offset value
/// falling back to zero where it does not parse.
pub open spec fn spec_get_offset(s: Seq<char>, lo: int, hi: int, signed: bool) -> Result<
    SpecTok,
    SpecTokErr,
> {
    let lp = char_pos(s, '(');
    let off_s = s.take(lp);
    let inner = s.subrange(lp + 1, s.len() - 1);
    let off = spec_value_or0(off_s, lo, hi, signed);
    if tok_is_register(inner) {
        if digits_val(inner.skip(1), 10) <= 255 {
            Ok(
                SpecTok::Offset(
                    SpecRelSym::Register(inner[0], digits_val(inner.skip(1), 10) as u8),
                    off,
                ),
            )
        } else {
            Err(SpecTokErr::InvalidOffset("Failed to parse an offset value."@))
        }
    } else {
        Ok(SpecTok::Offset(SpecRelSym::Label(inner), off))
    }
}

/// Characters a numeric operand may hold: hexadecimal digits and the `x`
/// of the radix prefix.
pub open spec fn all_hexish(s: Seq<char>) -> bool {
    forall|i: int| 0 <= i < s.len() ==> (is_hex_digit(#[trigger] s[i]) || s[i] == 'x')
}

/// Does the piece hold the start of an identifier anywhere?
pub open spec fn has_ident_start(s: Seq<char>) -> bool {
    exists|i: int| 0 <= i < s.len() && is_ident_start(s[i])
}

/// Classifies one instruction operand: register, base+offset, immediate,
/// or a symbolic reference.
pub open spec fn spec_tok_operand(s: Seq<char>, lo: int, hi: int, signed: bool) -> Result<
    SpecTok,
    SpecTokErr,
> {
    if tok_is_register(s) {
        if digits_val(s.skip(1), 10) <= 255 {
            Ok(SpecTok::Register(s[0], digits_val(s.skip(1), 10) as u8))
        } else {
            Err(SpecTokErr::InvalidRegister("Failed to parse register: \""@ + s + "\""@))
        }
    } else if is_rel_addr(s) {
        spec_get_offset(s, lo, hi, signed)
    } else if all_hexish(s) {
        let hex_ok = is_hex_form(s) && spec_radix_ok(hex_body(s), 16, lo, hi, signed) is Some;
        let dec_ok = !is_hex_form(s) && is_dec_form(s) && spec_radix_ok(s, 10, lo, hi, signed)
            is Some;
        if hex_ok || dec_ok {
            Ok(SpecTok::Immediate(spec_value_or0(s, lo, hi, signed)))
        } else {
            Err(
                SpecTokErr::InvalidImmediate(
                    "Failed to parse an immediate operand: \""@ + s + "\""@,
                ),
            )
        }
    } else if has_ident_start(s) {
        Ok(SpecTok::Offset(SpecRelSym::Label(trim_spec(s)), 0))
    } else {
        Err(
            SpecTokErr::InvalidInstruction(
                "Unable to parse an instruction operand: \""@ + s + "\""@,
            ),
        )
    }
}

pub open spec fn spec_tok_operands(
    pieces: Seq<Seq<char>>,
    lo: int,
    hi: int,
    signed: bool,
) -> Result<Seq<SpecTok>, SpecTokErr>
    decreases pieces.len(),
{
    if pieces.len() == 0 {
        Ok(Seq::empty())
    } else {
        match spec_tok_operand(pieces[0], lo, hi, signed) {
            Err(e) => Err(e),
            Ok(t) => match spec_tok_operands(pieces.skip(1), lo, hi, signed) {
                Ok(rest) => Ok(seq![t] + rest),
                Err(e) => Err(e),
            },
        }
    }
}

/// An instruction line: the mnemonic, then comma-separated operands.
pub open spec fn spec_tok_instruction(line: Seq<char>, lo: int, hi: int, signed: bool) -> Result<
    SpecTok,
    SpecTokErr,
> {
    let p = char_pos(line, ' ');
    if p >= line.len() {
        Ok(SpecTok::Instruction(line, Seq::empty()))
    } else {
        match spec_tok_operands(
            crate::lexer::trim_all(crate::lexer::split_drop(line.skip(p + 1), ',')),
            lo,
            hi,
            signed,
        ) {
            Ok(ops) => Ok(SpecTok::Instruction(line.take(p), ops)),
            Err(e) => Err(e),
        }
    }
}

// ---------------------------------------------------------------------------
// Constant data.
// ---------------------------------------------------------------------------

/// A comma-separated data list as values, each piece parsed at the width
/// or falling back to zero.
pub open spec fn spec_data_vals(pieces: Seq<Seq<char>>, lo: int, hi: int, signed: bool) -> Seq<int>
    decreases pieces.len(),
{
    if pieces.len() == 0 {
        Seq::empty()
    } else {
        seq![spec_value_or0(pieces[0], lo, hi, signed)] + spec_data_vals(
            pieces.skip(1),
            lo,
            hi,
            signed,
        )
    }
}

/// The values a data directive's argument list denotes.
pub open spec fn spec_parse_data(content: Seq<char>, lo: int, hi: int, signed: bool) -> Seq<int> {
    spec_data_vals(
        crate::lexer::trim_all(crate::lexer::split_drop(content, ',')),
        lo,
        hi,
        signed,
    )
}

/// A constant-data line: a width directive and its elements, or a string.
pub open spec fn spec_tok_constant_data(line: Seq<char>) -> Result<SpecTok, SpecTokErr> {
    let p = char_pos(line, ' ');
    if p >= line.len() {
        Ok(SpecTok::Debug(line))
    } else {
        let d = line.take(p);
        let content = line.skip(p + 1);
        if d == ".ascii"@ || d == ".asciz"@ || d == ".string"@ {
            Ok(SpecTok::Data(SpecData::String(content)))
        } else if d == ".byte"@ {
            Ok(SpecTok::Data(SpecData::Byte(spec_parse_data(content, 0, u8::MAX as int, false))))
        } else if d == ".half"@ || d == ".halfword"@ {
            Ok(SpecTok::Data(SpecData::Half(spec_parse_data(content, 0, u16::MAX as int, false))))
        } else if d == ".word"@ {
            Ok(SpecTok::Data(SpecData::Word(spec_parse_data(content, 0, u32::MAX as int, false))))
        } else if d == ".dword"@ {
            Ok(SpecTok::Data(SpecData::Dword(spec_parse_data(content, 0, u64::MAX as int, false))))
        } else {
            Err(
                SpecTokErr::InvalidDataDirective(
                    "Unable to parse content of data directive: \""@ + content + "\""@,
                ),
            )
        }
    }
}

/// One line inside a section or label: an instruction or constant data.
pub open spec fn spec_tok_line(line: Seq<char>, lo: int, hi: int, signed: bool) -> Result<
    SpecTok,
    SpecTokErr,
> {
    if tok_is_instruction(line) {
        spec_tok_instruction(line, lo, hi, signed)
    } else if tok_is_data(line) {
        spec_tok_constant_data(line)
    } else {
        Err(SpecTokErr::Other("Unable to parse from line: \""@ + line + "\""@))
    }
}

// ---------------------------------------------------------------------------
// Sections.
// ---------------------------------------------------------------------------

/// The words of a line: space-separated, empties dropped.
pub open spec fn spec_words(line: Seq<char>) -> Seq<Seq<char>> {
    crate::lexer::trim_nonempty(crate::lexer::split_drop(line, ' '))
}

/// Section flag characters folded into a flag set, either letter case
/// accepted.
pub open spec fn spec_tok_flags(cs: Seq<char>) -> Result<u32, SpecTokErr>
    decreases cs.len(),
{
    if cs.len() == 0 {
        Ok(0)
    } else {
        let bit: Option<u32> = if cs[0] == 'a' || cs[0] == 'A' {
            Some(0x01)
        } else if cs[0] == 'w' || cs[0] == 'W' {
            Some(0x02)
        } else if cs[0] == 'x' || cs[0] == 'X' {
            Some(0x04)
        } else if cs[0] == 'm' || cs[0] == 'M' {
            Some(0x08)
        } else if cs[0] == 's' || cs[0] == 'S' {
            Some(0x10)
        } else if cs[0] == 'g' || cs[0] == 'G' {
            Some(0x20)
        } else if cs[0] == 't' || cs[0] == 'T' {
            Some(0x40)
        } else {
            None
        };
        match bit {
            None => Err(
                SpecTokErr::InvalidSectionFlag(
                    "Unrecognized section flag identifier: \""@ + seq![cs[0]] + "\""@,
                ),
            ),
            Some(b) => match spec_tok_flags(cs.skip(1)) {
                Ok(rest) => Ok(b | rest),
                Err(e) => Err(e),
            },
        }
    }
}

/// A section line: its name and attribute flags.
pub open spec fn spec_get_section(line: Seq<char>) -> Result<(Seq<char>, SectionFlags), SpecTokErr> {
    let ws = spec_words(line);
    let w0 = if ws.len() > 0 {
        ws[0]
    } else {
        Seq::<char>::empty()
    };
    if w0 == ".section"@ {
        let name = crate::lexer::skip_dots(
            if ws.len() > 1 {
                ws[1]
            } else {
                Seq::<char>::empty()
            },
        );
        let params = if ws.len() > 2 {
            ws[2]
        } else {
            Seq::<char>::empty()
        };
        match spec_tok_flags(params) {
            Ok(bits) => Ok((name, SectionFlags { bits })),
            Err(e) => Err(e),
        }
    } else if w0 == ".text"@ || w0 == ".init"@ || w0 == ".fini"@ {
        Ok((crate::lexer::skip_dots(w0), SectionFlags { bits: 0x04 }))
    } else if w0 == ".data"@ || w0 == ".sdata"@ {
        Ok((crate::lexer::skip_dots(w0), SectionFlags { bits: 0x03 }))
    } else if w0 == ".bss"@ || w0 == ".sbss"@ || w0 == ".rodata"@ {
        Ok((crate::lexer::skip_dots(w0), SectionFlags { bits: 0x01 }))
    } else {
        Err(
            SpecTokErr::InvalidSection(
                "Unrecognized section directive from line: \""@ + line + "\""@,
            ),
        )
    }
}

// ---------------------------------------------------------------------------
// Grouping lines into sections and labels.
// ---------------------------------------------------------------------------

/// The number of lines before the next section line.
pub open spec fn section_end_pos(lines: Seq<Seq<char>>) -> int
    decreases lines.len(),
{
    if lines.len() == 0 {
        0
    } else if tok_is_section(lines[0]) {
        0
    } else {
        1 + section_end_pos(lines.skip(1))
    }
}

pub proof fn lemma_section_end_props(lines: Seq<Seq<char>>)
    ensures
        0 <= section_end_pos(lines) <= lines.len(),
    decreases lines.len(),
{
    if lines.len() > 0 && !tok_is_section(lines[0]) {
        lemma_section_end_props(lines.skip(1));
    }
}

pub proof fn lemma_section_end_at(lines: Seq<Seq<char>>, i: int)
    requires
        0 <= i <= lines.len(),
        forall|j: int| 0 <= j < i ==> !tok_is_section(#[trigger] lines[j]),
        i < lines.len() ==> tok_is_section(lines[i]),
    ensures
        section_end_pos(lines) == i,
    decreases i,
{
    if lines.len() == 0 {
    } else if i == 0 {
    } else {
        let t = lines.skip(1);
        assert(forall|j: int|
            0 <= j < i - 1 ==> t[j] == lines[j + 1] && !tok_is_section(#[trigger] lines[j + 1]));
        assert(i - 1 < t.len() ==> t[i - 1] == lines[i]);
        lemma_section_end_at(t, i - 1);
    }
}

/// Does a line end a label's extent: another label, or a non-data section
/// line?
pub open spec fn ends_label(line: Seq<char>) -> bool {
    tok_is_label(line) || (!tok_is_data(line) && tok_is_section(line))
}

/// The number of lines a label's body spans.
pub open spec fn label_end_pos(lines: Seq<Seq<char>>) -> int
    decreases lines.len(),
{
    if lines.len() == 0 {
        0
    } else if ends_label(lines[0]) {
        0
    } else {
        1 + label_end_pos(lines.skip(1))
    }
}

pub proof fn lemma_label_end_props(lines: Seq<Seq<char>>)
    ensures
        0 <= label_end_pos(lines) <= lines.len(),
    decreases lines.len(),
{
    if lines.len() > 0 && !ends_label(lines[0]) {
        lemma_label_end_props(lines.skip(1));
    }
}

pub proof fn lemma_label_end_at(lines: Seq<Seq<char>>, i: int)
    requires
        0 <= i <= lines.len(),
        forall|j: int| 0 <= j < i ==> !ends_label(#[trigger] lines[j]),
        i < lines.len() ==> ends_label(lines[i]),
    ensures
        label_end_pos(lines) == i,
    decreases i,
{
    if lines.len() == 0 {
    } else if i == 0 {
    } else {
        let t = lines.skip(1);
        assert(forall|j: int|
            0 <= j < i - 1 ==> t[j] == lines[j + 1] && !ends_label(#[trigger] lines[j + 1]));
        assert(i - 1 < t.len() ==> t[i - 1] == lines[i]);
        lemma_label_end_at(t, i - 1);
    }
}

/// Lines mapped through `spec_tok_line`, stopping at the first error.
pub open spec fn spec_tok_lines(lines: Seq<Seq<char>>, lo: int, hi: int, signed: bool) -> Result<
    Seq<SpecTok>,
    SpecTokErr,
>
    decreases lines.len(),
{
    if lines.len() == 0 {
        Ok(Seq::empty())
    } else {
        match spec_tok_line(lines[0], lo, hi, signed) {
            Err(e) => Err(e),
            Ok(t) => match spec_tok_lines(lines.skip(1), lo, hi, signed) {
                Ok(rest) => Ok(seq![t] + rest),
                Err(e) => Err(e),
            },
        }
    }
}

/// One section's body: read until a section line at this level; a label
/// gathers the lines up to the next label or non-data section line, and
/// other lines stand alone. Returns the tokens and the lines consumed.
pub open spec fn spec_section_body(lines: Seq<Seq<char>>, lo: int, hi: int, signed: bool) -> Result<
    (Seq<SpecTok>, int),
    SpecTokErr,
>
    decreases lines.len(),
    via spec_section_body_decreases
{
    if lines.len() == 0 {
        Ok((Seq::empty(), 0))
    } else if tok_is_section(lines[0]) {
        Ok((Seq::empty(), 0))
    } else if tok_is_label(lines[0]) {
        let c = char_pos(lines[0], ':');
        let name = lines[0].take(c);
        let content = trim_spec(lines[0].skip(c + 1));
        let k = label_end_pos(lines.skip(1));
        match spec_tok_lines(lines.skip(1).take(k), lo, hi, signed) {
            Err(e) => Err(e),
            Ok(lts) => {
                let heads: Result<Seq<SpecTok>, SpecTokErr> = if content.len() > 0 {
                    match spec_tok_line(content, lo, hi, signed) {
                        Err(e) => Err(e),
                        Ok(t) => Ok(seq![t]),
                    }
                } else {
                    Ok(Seq::empty())
                };
                match heads {
                    Err(e) => Err(e),
                    Ok(hs) => match spec_section_body(lines.skip(1 + k), lo, hi, signed) {
                        Err(e) => Err(e),
                        Ok((rest, used)) => Ok(
                            (seq![SpecTok::Label(name, hs + lts)] + rest, 1 + k + used),
                        ),
                    },
                }
            },
        }
    } else {
        match spec_tok_line(lines[0], lo, hi, signed) {
            Err(e) => Err(e),
            Ok(t) => match spec_section_body(lines.skip(1), lo, hi, signed) {
                Err(e) => Err(e),
                Ok((rest, used)) => Ok((seq![t] + rest, 1 + used)),
            },
        }
    }
}

#[via_fn]
proof fn spec_section_body_decreases(lines: Seq<Seq<char>>, lo: int, hi: int, signed: bool) {
    if lines.len() > 0 {
        lemma_label_end_props(lines.skip(1));
    }
}

/// How many lines a section body consumes, bounded by the suffix length.
pub proof fn lemma_section_body_used(lines: Seq<Seq<char>>, lo: int, hi: int, signed: bool)
    ensures
        spec_section_body(lines, lo, hi, signed) matches Ok((ts, used)) ==> 0 <= used
            <= lines.len(),
    decreases lines.len(),
{
    if lines.len() > 0 && !tok_is_section(lines[0]) {
        if tok_is_label(lines[0]) {
            lemma_label_end_props(lines.skip(1));
            let k = label_end_pos(lines.skip(1));
            lemma_section_body_used(lines.skip(1 + k), lo, hi, signed);
        } else {
            lemma_section_body_used(lines.skip(1), lo, hi, signed);
        }
    }
}

/// The whole stream: sections gather their bodies, lines outside any
/// section are dropped.
pub open spec fn spec_block(lines: Seq<Seq<char>>, lo: int, hi: int, signed: bool) -> Result<
    Seq<SpecTok>,
    SpecTokErr,
>
    decreases lines.len(),
    via spec_block_decreases
{
    if lines.len() == 0 {
        Ok(Seq::empty())
    } else if tok_is_section(lines[0]) {
        match spec_get_section(lines[0]) {
            Err(e) => Err(e),
            Ok((name, flags)) => match spec_section_body(lines.skip(1), lo, hi, signed) {
                Err(e) => Err(e),
                Ok((children, used)) => match spec_block(lines.skip(1 + used), lo, hi, signed) {
                    Err(e) => Err(e),
                    Ok(rest) => Ok(seq![SpecTok::Section(name, flags, children)] + rest),
                },
            },
        }
    } else {
        spec_block(lines.skip(1), lo, hi, signed)
    }
}

#[via_fn]
proof fn spec_block_decreases(lines: Seq<Seq<char>>, lo: int, hi: int, signed: bool) {
    if lines.len() > 0 {
        lemma_section_body_used(lines.skip(1), lo, hi, signed);
    }
}

/// The cleansed lines: comments stripped, trimmed, empties dropped.
pub open spec fn tok_cleanse_lines(lines: Seq<Seq<char>>) -> Seq<Seq<char>>
    decreases lines.len(),
{
    if lines.len() == 0 {
        Seq::empty()
    } else {
        let t = trim_spec(strip_comment(lines[0]));
        (if t.len() > 0 {
            seq![t]
        } else {
            Seq::<Seq<char>>::empty()
        }) + tok_cleanse_lines(lines.skip(1))
    }
}

/// The whole tokenizer over a source text.
pub open spec fn spec_tokenize(code: Seq<char>, lo: int, hi: int, signed: bool) -> Result<
    Seq<SpecTok>,
    SpecTokErr,
> {
    spec_block(tok_cleanse_lines(split_after(code, '\n')), lo, hi, signed)
}

/// The tokenizer: holds the token tree produced from one source text.
pub struct Tokenizer<T: ParseWithRadix> {
    pub tokens: Vec<Token<T>>,
}

// ---------------------------------------------------------------------------
// Exec tokenizer.
// ---------------------------------------------------------------------------

/// Tokenizer failures with their messages.
#[allow(dead_code)]
enum TokenizeError {
    InvalidSection(String),
    InvalidSectionFlag(String),
    InvalidLabel(String),
    InvalidDataDirective(String),
    InvalidInstruction(String),
    InvalidRegister(String),
    InvalidImmediate(String),
    InvalidOffset(String),
    Other(String),
}

impl View for TokenizeError {
    type V = SpecTokErr;

    closed spec fn view(&self) -> SpecTokErr {
        match self {
            TokenizeError::InvalidSection(m) => SpecTokErr::InvalidSection(m@),
            TokenizeError::InvalidSectionFlag(m) => SpecTokErr::InvalidSectionFlag(m@),
            TokenizeError::InvalidLabel(m) => SpecTokErr::InvalidLabel(m@),
            TokenizeError::InvalidDataDirective(m) => SpecTokErr::InvalidDataDirective(m@),
            TokenizeError::InvalidInstruction(m) => SpecTokErr::InvalidInstruction(m@),
            TokenizeError::InvalidRegister(m) => SpecTokErr::InvalidRegister(m@),
            TokenizeError::InvalidImmediate(m) => SpecTokErr::InvalidImmediate(m@),
            TokenizeError::InvalidOffset(m) => SpecTokErr::InvalidOffset(m@),
            TokenizeError::Other(m) => SpecTokErr::Other(m@),
        }
    }
}

impl TokenizeError {
    /// The message the failure carries.
    fn message(self) -> (r: String)
        ensures
            r@ == err_msg(self@),
    {
        match self {
            TokenizeError::InvalidSection(m) => m,
            TokenizeError::InvalidSectionFlag(m) => m,
            TokenizeError::InvalidLabel(m) => m,
            TokenizeError::InvalidDataDirective(m) => m,
            TokenizeError::InvalidInstruction(m) => m,
            TokenizeError::InvalidRegister(m) => m,
            TokenizeError::InvalidImmediate(m) => m,
            TokenizeError::InvalidOffset(m) => m,
            TokenizeError::Other(m) => m,
        }
    }
}

/// Builds `prefix + mid + "\""` as one message string.
fn tok_msg(prefix: &str, mid: &[char], suffix: &str) -> (s: String)
    ensures
        s@ == prefix@ + mid@ + suffix@,
{
    let v = vstd::slice::slice_to_vec(mid);
    let m = string_of(&v);
    String::from_str(prefix).concat(m.as_str()).concat(suffix)
}

/// Parses a piece as a value of the type, or its zero.
fn value_or0<T: ParseWithRadix>(s: &[char]) -> (r: T)
    ensures
        r.as_int() == spec_value_or0(s@, T::min_spec(), T::max_spec(), T::signed_spec()),
{
    let v = vstd::slice::slice_to_vec(s);
    let st = string_of(&v);
    match parse_value::<T>(st.as_str()) {
        Ok(x) => x,
        Err(_) => T::zero_value(),
    }
}

fn all_hexish_exec(s: &[char]) -> (r: bool)
    ensures
        r == all_hexish(s@),
{
    let mut i: usize = 0;
    while i < s.len()
        invariant
            0 <= i <= s@.len(),
            forall|j: int| 0 <= j < i ==> (is_hex_digit(#[trigger] s@[j]) || s@[j] == 'x'),
        decreases s@.len() - i,
    {
        let c = s[i];
        let hexish = ('0' <= c && c <= '9') || ('a' <= c && c <= 'f') || ('A' <= c && c <= 'F')
            || c == 'x';
        if !hexish {
            return false;
        }
        i = i + 1;
    }
    true
}

fn has_ident_start_exec(s: &[char]) -> (r: bool)
    ensures
        r == has_ident_start(s@),
{
    let mut i: usize = 0;
    while i < s.len()
        invariant
            0 <= i <= s@.len(),
            forall|j: int| 0 <= j < i ==> !is_ident_start(#[trigger] s@[j]),
        decreases s@.len() - i,
    {
        if ident_start(s[i]) {
            return true;
        }
        i = i + 1;
    }
    false
}

impl<T: ParseWithRadix> Tokenizer<T> {
    /// A register operand's bank and index; an index beyond a byte is
    /// refused.
    fn get_register(word: &[char]) -> (r: Result<Token<T>, TokenizeError>)
        requires
            tok_is_register(word@),
        ensures
            match r {
                Ok(t) => digits_val(word@.skip(1), 10) <= 255 && t@ == SpecTok::Register(
                    word@[0],
                    digits_val(word@.skip(1), 10) as u8,
                ),
                Err(e) => digits_val(word@.skip(1), 10) > 255 && e@ == SpecTokErr::InvalidRegister(
                    "Failed to parse register: \""@ + word@ + "\""@,
                ),
            },
    {
        let tail = slice_skip(word, 1);
        match parse_digits_u128(tail, 10) {
            Some(v) => {
                if v <= 255 {
                    Ok(Token::Register(word[0], v as u8))
                } else {
                    Err(
                        TokenizeError::InvalidRegister(
                            tok_msg("Failed to parse register: \"", word, "\""),
                        ),
                    )
                }
            },
            None => Err(
                TokenizeError::InvalidRegister(
                    tok_msg("Failed to parse register: \"", word, "\""),
                ),
            ),
        }
    }

    /// A base+offset operand; an unparsable offset value falls back to
    /// zero.
    fn get_offset(word: &[char]) -> (r: Result<Token<T>, TokenizeError>)
        requires
            is_rel_addr(word@),
        ensures
            match r {
                Ok(t) => spec_get_offset(
                    word@,
                    T::min_spec(),
                    T::max_spec(),
                    T::signed_spec(),
                ) == Ok::<SpecTok, SpecTokErr>(t@),
                Err(e) => spec_get_offset(
                    word@,
                    T::min_spec(),
                    T::max_spec(),
                    T::signed_spec(),
                ) == Err::<SpecTok, SpecTokErr>(e@),
            },
    {
        let lp = char_pos_exec(word, '(');
        proof {
            lemma_char_pos_props(word@, '(');
            assert(char_pos(word@, '(') + 2 < word@.len());
        }
        let n = word.len();
        let off_sl = vstd::slice::slice_subrange(word, 0, lp);
        proof {
            assert(off_sl@ =~= word@.take(lp as int));
        }
        let off: T = value_or0::<T>(off_sl);
        let inner = vstd::slice::slice_subrange(word, lp + 1, n - 1);
        if tok_is_register_exec(inner) {
            let tail = slice_skip(inner, 1);
            match parse_digits_u128(tail, 10) {
                Some(v) => {
                    if v <= 255 {
                        Ok(
                            Token::Offset {
                                base: RelativeSymbol::Register(inner[0], v as u8),
                                offset: off,
                            },
                        )
                    } else {
                        Err(
                            TokenizeError::InvalidOffset(
                                String::from_str("Failed to parse an offset value."),
                            ),
                        )
                    }
                },
                None => Err(
                    TokenizeError::InvalidOffset(
                        String::from_str("Failed to parse an offset value."),
                    ),
                ),
            }
        } else {
            let iv = vstd::slice::slice_to_vec(inner);
            Ok(Token::Offset { base: RelativeSymbol::Label(string_of(&iv)), offset: off })
        }
    }

    /// Classifies one instruction operand.
    fn tok_operand(s: &[char]) -> (r: Result<Token<T>, TokenizeError>)
        ensures
            match r {
                Ok(t) => spec_tok_operand(s@, T::min_spec(), T::max_spec(), T::signed_spec())
                    == Ok::<SpecTok, SpecTokErr>(t@),
                Err(e) => spec_tok_operand(s@, T::min_spec(), T::max_spec(), T::signed_spec())
                    == Err::<SpecTok, SpecTokErr>(e@),
            },
    {
        if tok_is_register_exec(s) {
            Self::get_register(s)
        } else if is_rel_addr_exec(s) {
            Self::get_offset(s)
        } else if all_hexish_exec(s) {
            let v = vstd::slice::slice_to_vec(s);
            let st = string_of(&v);
            match parse_value::<T>(st.as_str()) {
                Ok(x) => Ok(Token::Immediate(x)),
                Err(_) => Err(
                    TokenizeError::InvalidImmediate(
                        tok_msg("Failed to parse an immediate operand: \"", s, "\""),
                    ),
                ),
            }
        } else if has_ident_start_exec(s) {
            let t = trim_slice(s);
            Ok(Token::Offset { base: RelativeSymbol::Label(string_of(&t)), offset: T::zero_value() })
        } else {
            Err(
                TokenizeError::InvalidInstruction(
                    tok_msg("Unable to parse an instruction operand: \"", s, "\""),
                ),
            )
        }
    }

    /// Classifies a list of operand pieces, stopping at the first error.
    fn tok_operands(pieces: &Vec<Vec<char>>, i: usize) -> (r: Result<Vec<Token<T>>, TokenizeError>)
        requires
            i <= pieces@.len(),
        ensures
            match r {
                Ok(v) => spec_tok_operands(
                    pieces.deep_view().skip(i as int),
                    T::min_spec(),
                    T::max_spec(),
                    T::signed_spec(),
                ) == Ok::<Seq<SpecTok>, SpecTokErr>(v.deep_view()),
                Err(e) => spec_tok_operands(
                    pieces.deep_view().skip(i as int),
                    T::min_spec(),
                    T::max_spec(),
                    T::signed_spec(),
                ) == Err::<Seq<SpecTok>, SpecTokErr>(e@),
            },
        decreases pieces@.len() - i,
    {
        if i == pieces.len() {
            let r: Vec<Token<T>> = Vec::new();
            proof {
                assert(r.deep_view() =~= Seq::<SpecTok>::empty());
            }
            Ok(r)
        } else {
            proof {
                assert(pieces.deep_view().skip(i as int)[0] =~= pieces@[i as int]@);
                assert(pieces.deep_view().skip(i as int).skip(1) =~= pieces.deep_view().skip(
                    i as int + 1,
                ));
            }
            match Self::tok_operand(pieces[i].as_slice()) {
                Err(e) => Err(e),
                Ok(t) => match Self::tok_operands(pieces, i + 1) {
                    Ok(rest) => {
                        let mut r: Vec<Token<T>> = Vec::new();
                        r.push(t);
                        let mut rest_m = rest;
                        r.append(&mut rest_m);
                        proof {
                            assert(r.deep_view() =~= spec_tok_operands(
                                pieces.deep_view().skip(i as int),
                                T::min_spec(),
                                T::max_spec(),
                                T::signed_spec(),
                            )->Ok_0);
                        }
                        Ok(r)
                    },
                    Err(e) => Err(e),
                },
            }
        }
    }

    /// An instruction line: the mnemonic, then comma-separated operands.
    fn process_instruction(line: &[char]) -> (r: Result<Token<T>, TokenizeError>)
        ensures
            match r {
                Ok(t) => spec_tok_instruction(
                    line@,
                    T::min_spec(),
                    T::max_spec(),
                    T::signed_spec(),
                ) == Ok::<SpecTok, SpecTokErr>(t@),
                Err(e) => spec_tok_instruction(
                    line@,
                    T::min_spec(),
                    T::max_spec(),
                    T::signed_spec(),
                ) == Err::<SpecTok, SpecTokErr>(e@),
            },
    {
        let p = char_pos_exec(line, ' ');
        if p >= line.len() {
            let v = vstd::slice::slice_to_vec(line);
            let t = Token::Instruction(string_of(&v), Vec::new());
            proof {
                assert(t@ is Instruction);
                assert(t@->Instruction_0 == line@);
                assert(t@->Instruction_1 =~~= Seq::<SpecTok>::empty());
                assert(t@ =~~= SpecTok::Instruction(line@, Seq::empty()));
            }
            Ok(t)
        } else {
            let rest = slice_skip(line, p + 1);
            let parts = crate::lexer::split_drop_exec(rest, ',');
            let trimmed = crate::lexer::trim_all_exec(&parts, 0);
            proof {
                assert(parts.deep_view().skip(0) =~~= parts.deep_view());
                assert(trimmed.deep_view().skip(0) =~~= trimmed.deep_view());
            }
            match Self::tok_operands(&trimmed, 0) {
                Ok(ops) => {
                    let mv = slice_range_vec(line, 0, p);
                    proof {
                        assert(mv@ =~= line@.take(p as int));
                    }
                    let ghost ops_dv = ops.deep_view();
                    let t = Token::Instruction(string_of(&mv), ops);
                    proof {
                        assert(t@->Instruction_1.len() == ops_dv.len());
                        assert(forall|k: int|
                            0 <= k < ops_dv.len() ==> t@->Instruction_1[k] == ops_dv[k]);
                        assert(t@->Instruction_1 =~= ops_dv);
                        assert(t@ =~~= spec_tok_instruction(
                            line@,
                            T::min_spec(),
                            T::max_spec(),
                            T::signed_spec(),
                        )->Ok_0);
                    }
                    Ok(t)
                },
                Err(e) => Err(e),
            }
        }
    }
}



// ---------------------------------------------------------------------------
// Exec constant data and sections.
// ---------------------------------------------------------------------------

fn data_rec<T: ParseWithRadix>(pieces: &Vec<Vec<char>>, i: usize) -> (r: Vec<T>)
    requires
        i <= pieces@.len(),
    ensures
        ({
            let vals = spec_data_vals(
                pieces.deep_view().skip(i as int),
                T::min_spec(),
                T::max_spec(),
                T::signed_spec(),
            );
            r@.len() == vals.len() && (forall|j: int|
                0 <= j < vals.len() ==> (#[trigger] r@[j]).as_int() == vals[j])
        }),
    decreases pieces@.len() - i,
{
    if i == pieces.len() {
        Vec::new()
    } else {
        proof {
            assert(pieces.deep_view().skip(i as int)[0] =~= pieces@[i as int]@);
            assert(pieces.deep_view().skip(i as int).skip(1) =~= pieces.deep_view().skip(
                i as int + 1,
            ));
        }
        let head: T = value_or0::<T>(pieces[i].as_slice());
        let mut rest = data_rec::<T>(pieces, i + 1);
        let mut r: Vec<T> = Vec::new();
        r.push(head);
        r.append(&mut rest);
        r
    }
}

/// Parses a comma-separated data list at the type's width; an element
/// that does not parse falls back to zero.
pub fn parse_data<T: ParseWithRadix>(content: &str) -> (r: Vec<T>)
    ensures
        ({
            let vals = spec_parse_data(
                content@,
                T::min_spec(),
                T::max_spec(),
                T::signed_spec(),
            );
            r@.len() == vals.len() && (forall|j: int|
                0 <= j < vals.len() ==> (#[trigger] r@[j]).as_int() == vals[j])
        }),
{
    let cs = chars_of(content);
    let parts = crate::lexer::split_drop_exec(cs.as_slice(), ',');
    let trimmed = crate::lexer::trim_all_exec(&parts, 0);
    proof {
        assert(parts.deep_view().skip(0) =~~= parts.deep_view());
        assert(trimmed.deep_view().skip(0) =~~= trimmed.deep_view());
    }
    data_rec::<T>(&trimmed, 0)
}

impl<T: ParseWithRadix> Tokenizer<T> {
    /// A constant-data line: a width directive and its elements, or a
    /// string kept verbatim.
    fn process_constant_data(line: &[char]) -> (r: Result<Token<T>, TokenizeError>)
        ensures
            match r {
                Ok(t) => spec_tok_constant_data(line@) == Ok::<SpecTok, SpecTokErr>(t@),
                Err(e) => spec_tok_constant_data(line@) == Err::<SpecTok, SpecTokErr>(e@),
            },
    {
        let p = char_pos_exec(line, ' ');
        if p >= line.len() {
            let v = vstd::slice::slice_to_vec(line);
            return Ok(Token::Debug(string_of(&v)));
        }
        let d = vstd::slice::slice_subrange(line, 0, p);
        proof {
            assert(d@ =~= line@.take(p as int));
        }
        let content_sl = slice_skip(line, p + 1);
        let cv = vstd::slice::slice_to_vec(content_sl);
        let content = string_of(&cv);
        if slice_eq_str_tok(d, ".ascii") || slice_eq_str_tok(d, ".asciz") || slice_eq_str_tok(
            d,
            ".string",
        ) {
            Ok(Token::Data(DataType::String(content)))
        } else if slice_eq_str_tok(d, ".byte") {
            let vs = parse_data::<u8>(content.as_str());
            let t = Token::Data(DataType::Byte(vs));
            proof {
                assert(t@->Data_0->Byte_0 =~= spec_tok_constant_data(line@)->Ok_0->Data_0->Byte_0);
            }
            Ok(t)
        } else if slice_eq_str_tok(d, ".half") || slice_eq_str_tok(d, ".halfword") {
            let vs = parse_data::<u16>(content.as_str());
            let t = Token::Data(DataType::Half(vs));
            proof {
                assert(t@->Data_0->Half_0 =~= spec_tok_constant_data(line@)->Ok_0->Data_0->Half_0);
            }
            Ok(t)
        } else if slice_eq_str_tok(d, ".word") {
            let vs = parse_data::<u32>(content.as_str());
            let t = Token::Data(DataType::Word(vs));
            proof {
                assert(t@->Data_0->Word_0 =~= spec_tok_constant_data(line@)->Ok_0->Data_0->Word_0);
            }
            Ok(t)
        } else if slice_eq_str_tok(d, ".dword") {
            let vs = parse_data::<u64>(content.as_str());
            let t = Token::Data(DataType::Dword(vs));
            proof {
                assert(t@->Data_0->Dword_0 =~= spec_tok_constant_data(
                    line@,
                )->Ok_0->Data_0->Dword_0);
            }
            Ok(t)
        } else {
            Err(
                TokenizeError::InvalidDataDirective(
                    tok_msg("Unable to parse content of data directive: \"", content_sl, "\""),
                ),
            )
        }
    }

    /// One line inside a section or label.
    fn process_line(line: &[char]) -> (r: Result<Token<T>, TokenizeError>)
        ensures
            match r {
                Ok(t) => spec_tok_line(line@, T::min_spec(), T::max_spec(), T::signed_spec())
                    == Ok::<SpecTok, SpecTokErr>(t@),
                Err(e) => spec_tok_line(line@, T::min_spec(), T::max_spec(), T::signed_spec())
                    == Err::<SpecTok, SpecTokErr>(e@),
            },
    {
        if tok_is_instruction_exec(line) {
            Self::process_instruction(line)
        } else if tok_is_data_exec(line) {
            Self::process_constant_data(line)
        } else {
            Err(TokenizeError::Other(tok_msg("Unable to parse from line: \"", line, "\"")))
        }
    }

    /// Section flag characters folded into a flag set.
    fn tok_flags(cs: &[char], i: usize) -> (r: Result<u32, TokenizeError>)
        requires
            i <= cs@.len(),
        ensures
            match r {
                Ok(b) => spec_tok_flags(cs@.skip(i as int)) == Ok::<u32, SpecTokErr>(b),
                Err(e) => spec_tok_flags(cs@.skip(i as int)) == Err::<u32, SpecTokErr>(e@),
            },
        decreases cs@.len() - i,
    {
        if i == cs.len() {
            proof {
                assert(cs@.skip(i as int) =~= Seq::<char>::empty());
            }
            Ok(0)
        } else {
            let c = cs[i];
            proof {
                assert(cs@.skip(i as int)[0] == cs@[i as int]);
                assert(cs@.skip(i as int).skip(1) =~= cs@.skip(i as int + 1));
            }
            let bit: Option<u32> = if c == 'a' || c == 'A' {
                Some(0x01)
            } else if c == 'w' || c == 'W' {
                Some(0x02)
            } else if c == 'x' || c == 'X' {
                Some(0x04)
            } else if c == 'm' || c == 'M' {
                Some(0x08)
            } else if c == 's' || c == 'S' {
                Some(0x10)
            } else if c == 'g' || c == 'G' {
                Some(0x20)
            } else if c == 't' || c == 'T' {
                Some(0x40)
            } else {
                None
            };
            match bit {
                None => {
                    let mut cv: Vec<char> = Vec::new();
                    cv.push(c);
                    proof {
                        assert(cv@ =~= seq![c]);
                    }
                    Err(
                        TokenizeError::InvalidSectionFlag(
                            tok_msg(
                                "Unrecognized section flag identifier: \"",
                                cv.as_slice(),
                                "\"",
                            ),
                        ),
                    )
                },
                Some(b) => match Self::tok_flags(cs, i + 1) {
                    Ok(rest) => Ok(b | rest),
                    Err(e) => Err(e),
                },
            }
        }
    }

    /// A section line: its name and attribute flags.
    fn get_section(line: &[char]) -> (r: Result<(String, SectionFlags), TokenizeError>)
        ensures
            match r {
                Ok(p) => spec_get_section(line@) matches Ok(sp) && sp.0 == p.0@ && sp.1 == p.1,
                Err(e) => spec_get_section(line@) == Err::<(Seq<char>, SectionFlags), SpecTokErr>(
                    e@,
                ),
            },
    {
        let parts = crate::lexer::split_drop_exec(line, ' ');
        let ws = crate::lexer::trim_nonempty_exec(&parts, 0);
        proof {
            assert(parts.deep_view().skip(0) =~~= parts.deep_view());
        }
        let empty_w: Vec<char> = Vec::new();
        let w0: &Vec<char> = if ws.len() > 0 {
            proof {
                assert(ws.deep_view()[0] =~= ws@[0]@);
            }
            &ws[0]
        } else {
            proof {
                assert(empty_w@ =~= Seq::<char>::empty());
            }
            &empty_w
        };
        if slice_eq_str_tok(w0.as_slice(), ".section") {
            let empty_w2: Vec<char> = Vec::new();
            let w1: &Vec<char> = if ws.len() > 1 {
                proof {
                    assert(ws.deep_view()[1] =~= ws@[1]@);
                }
                &ws[1]
            } else {
                proof {
                    assert(empty_w2@ =~= Seq::<char>::empty());
                }
                &empty_w2
            };
            let name = crate::lexer::skip_dots_exec(w1.as_slice());
            let empty_w3: Vec<char> = Vec::new();
            let w2: &Vec<char> = if ws.len() > 2 {
                proof {
                    assert(ws.deep_view()[2] =~= ws@[2]@);
                }
                &ws[2]
            } else {
                proof {
                    assert(empty_w3@ =~= Seq::<char>::empty());
                }
                &empty_w3
            };
            proof {
                assert(w2@.skip(0) =~= w2@);
            }
            match Self::tok_flags(w2.as_slice(), 0) {
                Ok(bits) => Ok((string_of(&name), SectionFlags { bits })),
                Err(e) => Err(e),
            }
        } else if slice_eq_str_tok(w0.as_slice(), ".text") || slice_eq_str_tok(
            w0.as_slice(),
            ".init",
        ) || slice_eq_str_tok(w0.as_slice(), ".fini") {
            let name = crate::lexer::skip_dots_exec(w0.as_slice());
            Ok((string_of(&name), SectionFlags { bits: 0x04 }))
        } else if slice_eq_str_tok(w0.as_slice(), ".data") || slice_eq_str_tok(
            w0.as_slice(),
            ".sdata",
        ) {
            let name = crate::lexer::skip_dots_exec(w0.as_slice());
            Ok((string_of(&name), SectionFlags { bits: 0x03 }))
        } else if slice_eq_str_tok(w0.as_slice(), ".bss") || slice_eq_str_tok(
            w0.as_slice(),
            ".sbss",
        ) || slice_eq_str_tok(w0.as_slice(), ".rodata") {
            let name = crate::lexer::skip_dots_exec(w0.as_slice());
            Ok((string_of(&name), SectionFlags { bits: 0x01 }))
        } else {
            Err(
                TokenizeError::InvalidSection(
                    tok_msg("Unrecognized section directive from line: \"", line, "\""),
                ),
            )
        }
    }
}

/// Character-wise equality of a slice and a literal.
fn slice_eq_str_tok(v: &[char], lit: &str) -> (r: bool)
    ensures
        r == (v@ == lit@),
{
    let l = chars_of(lit);
    if v.len() != l.len() {
        proof {
            if v@ == lit@ {
                assert(v@.len() == lit@.len());
            }
        }
        return false;
    }
    let mut i: usize = 0;
    while i < v.len()
        invariant
            0 <= i <= v@.len(),
            v@.len() == l@.len(),
            l@ == lit@,
            forall|j: int| 0 <= j < i ==> v@[j] == l@[j],
        decreases v@.len() - i,
    {
        if v[i] != l[i] {
            proof {
                if v@ == lit@ {
                    assert(v@[i as int] == lit@[i as int]);
                }
            }
            return false;
        }
        i = i + 1;
    }
    proof {
        assert(v@ =~= lit@);
    }
    true
}

// ---------------------------------------------------------------------------
// Exec grouping.
// ---------------------------------------------------------------------------

fn ends_label_exec(line: &[char]) -> (r: bool)
    ensures
        r == ends_label(line@),
{
    tok_is_label_exec(line) || (!tok_is_data_exec(line) && tok_is_section_exec(line))
}

/// The absolute index of the first label-ending line in `[i, end)`, or
/// `end`.
fn find_label_end(lines: &Vec<Vec<char>>, i: usize, end: usize) -> (r: usize)
    requires
        i <= end <= lines@.len(),
    ensures
        i <= r <= end,
        label_end_pos(lines.deep_view().subrange(i as int, end as int)) == r - i,
{
    let mut k: usize = i;
    while k < end
        invariant
            i <= k <= end <= lines@.len(),
            forall|j: int| i <= j < k ==> !ends_label(#[trigger] lines.deep_view()[j]),
        decreases end - k,
    {
        proof {
            assert(lines.deep_view()[k as int] =~= lines@[k as int]@);
        }
        if ends_label_exec(lines[k].as_slice()) {
            proof {
                let sub = lines.deep_view().subrange(i as int, end as int);
                assert(forall|j: int| 0 <= j < sub.len() ==> sub[j] == #[trigger] lines.deep_view()[j + i]);
                lemma_label_end_at(sub, k - i);
            }
            return k;
        }
        k = k + 1;
    }
    proof {
        let sub = lines.deep_view().subrange(i as int, end as int);
        assert(forall|j: int| 0 <= j < sub.len() ==> sub[j] == #[trigger] lines.deep_view()[j + i]);
        lemma_label_end_at(sub, end - i as int);
    }
    end
}

impl<T: ParseWithRadix> Tokenizer<T> {
    /// Lines `[i, end)` each classified, stopping at the first error.
    fn tok_lines(lines: &Vec<Vec<char>>, i: usize, end: usize) -> (r: Result<
        Vec<Token<T>>,
        TokenizeError,
    >)
        requires
            i <= end <= lines@.len(),
        ensures
            match r {
                Ok(v) => spec_tok_lines(
                    lines.deep_view().subrange(i as int, end as int),
                    T::min_spec(),
                    T::max_spec(),
                    T::signed_spec(),
                ) == Ok::<Seq<SpecTok>, SpecTokErr>(v.deep_view()),
                Err(e) => spec_tok_lines(
                    lines.deep_view().subrange(i as int, end as int),
                    T::min_spec(),
                    T::max_spec(),
                    T::signed_spec(),
                ) == Err::<Seq<SpecTok>, SpecTokErr>(e@),
            },
        decreases end - i,
    {
        if i == end {
            let r: Vec<Token<T>> = Vec::new();
            proof {
                assert(r.deep_view() =~= Seq::<SpecTok>::empty());
                assert(lines.deep_view().subrange(i as int, end as int) =~= Seq::<
                    Seq<char>,
                >::empty());
            }
            Ok(r)
        } else {
            proof {
                assert(lines.deep_view().subrange(i as int, end as int)[0] =~= lines@[
                    i as int
                ]@);
                assert(lines.deep_view().subrange(i as int, end as int).skip(1)
                    =~= lines.deep_view().subrange(i as int + 1, end as int));
            }
            match Self::process_line(lines[i].as_slice()) {
                Err(e) => Err(e),
                Ok(t) => match Self::tok_lines(lines, i + 1, end) {
                    Ok(rest) => {
                        let mut r: Vec<Token<T>> = Vec::new();
                        r.push(t);
                        let mut rest_m = rest;
                        r.append(&mut rest_m);
                        proof {
                            assert(r.deep_view() =~= spec_tok_lines(
                                lines.deep_view().subrange(i as int, end as int),
                                T::min_spec(),
                                T::max_spec(),
                                T::signed_spec(),
                            )->Ok_0);
                        }
                        Ok(r)
                    },
                    Err(e) => Err(e),
                },
            }
        }
    }

    /// One section's body from `i` on: stops at a section line, labels
    /// gather their lines. Returns the tokens and the next line index.
    #[verifier::rlimit(80)]
    fn section_body(lines: &Vec<Vec<char>>, i: usize) -> (r: Result<
        (Vec<Token<T>>, usize),
        TokenizeError,
    >)
        requires
            i <= lines@.len(),
        ensures
            match r {
                Ok(p) => i <= p.1 <= lines@.len() && spec_section_body(
                    lines.deep_view().skip(i as int),
                    T::min_spec(),
                    T::max_spec(),
                    T::signed_spec(),
                ) == Ok::<(Seq<SpecTok>, int), SpecTokErr>((p.0.deep_view(), p.1 - i as int)),
                Err(e) => spec_section_body(
                    lines.deep_view().skip(i as int),
                    T::min_spec(),
                    T::max_spec(),
                    T::signed_spec(),
                ) == Err::<(Seq<SpecTok>, int), SpecTokErr>(e@),
            },
        decreases lines@.len() - i,
    {
        let ghost sub = lines.deep_view().skip(i as int);
        if i == lines.len() {
            let r: Vec<Token<T>> = Vec::new();
            proof {
                assert(r.deep_view() =~= Seq::<SpecTok>::empty());
            }
            Ok((r, i))
        } else {
            proof {
                assert(sub[0] =~= lines@[i as int]@);
                assert(sub.skip(1) =~= lines.deep_view().skip(i as int + 1));
            }
            if tok_is_section_exec(lines[i].as_slice()) {
                let r: Vec<Token<T>> = Vec::new();
                proof {
                    assert(r.deep_view() =~= Seq::<SpecTok>::empty());
                }
                Ok((r, i))
            } else if tok_is_label_exec(lines[i].as_slice()) {
                let line0 = &lines[i];
                let nl = line0.len();
                let cpos = char_pos_exec(line0.as_slice(), ':');
                proof {
                    lemma_char_pos_props(line0@, ':');
                    assert(char_pos(line0@, ':') < nl);
                }
                let name_sl = vstd::slice::slice_subrange(line0.as_slice(), 0, cpos);
                proof {
                    assert(name_sl@ =~= line0@.take(cpos as int));
                }
                let content = trim_slice(slice_skip(line0.as_slice(), cpos + 1));
                let k = find_label_end(lines, i + 1, lines.len());
                proof {
                    let tail = sub.skip(1);
                    assert(tail =~= lines.deep_view().subrange(
                        i as int + 1,
                        lines@.len() as int,
                    ));
                    assert(label_end_pos(tail) == k - i - 1);
                    assert(tail.take(k - i - 1) =~= lines.deep_view().subrange(
                        i as int + 1,
                        k as int,
                    ));
                }
                match Self::tok_lines(lines, i + 1, k) {
                    Err(e) => Err(e),
                    Ok(lts) => {
                        let mut hs: Vec<Token<T>> = Vec::new();
                        if content.len() > 0 {
                            match Self::process_line(content.as_slice()) {
                                Err(e) => {
                                    return Err(e);
                                },
                                Ok(t) => {
                                    hs.push(t);
                                    proof {
                                        assert(hs.deep_view() =~= seq![hs@[0]@]);
                                    }
                                },
                            }
                        } else {
                            proof {
                                assert(hs.deep_view() =~= Seq::<SpecTok>::empty());
                            }
                        }
                        proof {
                            assert(sub.skip(k - i as int) =~= lines.deep_view().skip(k as int));
                        }
                        match Self::section_body(lines, k) {
                            Err(e) => Err(e),
                            Ok((rest, used)) => {
                                let ghost hs_dv = hs.deep_view();
                                let ghost lts_dv = lts.deep_view();
                                let mut children = hs;
                                let mut lts_m = lts;
                                children.append(&mut lts_m);
                                proof {
                                    assert(children.deep_view() =~~= hs_dv + lts_dv);
                                }
                                let ghost ch_dv = children.deep_view();
                                let lab = Token::Label(string_of(&name_sl_vec(name_sl)), children);
                                proof {
                                    assert(lab@->Label_1 =~~= ch_dv);
                                }
                                let mut r: Vec<Token<T>> = Vec::new();
                                r.push(lab);
                                let mut rest_m = rest;
                                r.append(&mut rest_m);
                                proof {
                                    assert(r.deep_view() =~~= spec_section_body(
                                        sub,
                                        T::min_spec(),
                                        T::max_spec(),
                                        T::signed_spec(),
                                    )->Ok_0.0);
                                }
                                Ok((r, used))
                            },
                        }
                    },
                }
            } else {
                match Self::process_line(lines[i].as_slice()) {
                    Err(e) => Err(e),
                    Ok(t) => match Self::section_body(lines, i + 1) {
                        Err(e) => Err(e),
                        Ok((rest, used)) => {
                            let mut r: Vec<Token<T>> = Vec::new();
                            r.push(t);
                            let mut rest_m = rest;
                            r.append(&mut rest_m);
                            proof {
                                assert(r.deep_view() =~= spec_section_body(
                                    sub,
                                    T::min_spec(),
                                    T::max_spec(),
                                    T::signed_spec(),
                                )->Ok_0.0);
                            }
                            Ok((r, used))
                        },
                    },
                }
            }
        }
    }

    /// The whole stream: sections gather their bodies, lines outside any
    /// section are dropped.
    fn process_block(lines: &Vec<Vec<char>>, i: usize) -> (r: Result<Vec<Token<T>>, TokenizeError>)
        requires
            i <= lines@.len(),
        ensures
            match r {
                Ok(v) => spec_block(
                    lines.deep_view().skip(i as int),
                    T::min_spec(),
                    T::max_spec(),
                    T::signed_spec(),
                ) == Ok::<Seq<SpecTok>, SpecTokErr>(v.deep_view()),
                Err(e) => spec_block(
                    lines.deep_view().skip(i as int),
                    T::min_spec(),
                    T::max_spec(),
                    T::signed_spec(),
                ) == Err::<Seq<SpecTok>, SpecTokErr>(e@),
            },
        decreases lines@.len() - i,
    {
        if i == lines.len() {
            let r: Vec<Token<T>> = Vec::new();
            proof {
                assert(r.deep_view() =~= Seq::<SpecTok>::empty());
            }
            Ok(r)
        } else {
            proof {
                assert(lines.deep_view().skip(i as int)[0] =~= lines@[i as int]@);
                assert(lines.deep_view().skip(i as int).skip(1) =~= lines.deep_view().skip(
                    i as int + 1,
                ));
            }
            if tok_is_section_exec(lines[i].as_slice()) {
                match Self::get_section(lines[i].as_slice()) {
                    Err(e) => Err(e),
                    Ok((name, flags)) => {
                        match Self::section_body(lines, i + 1) {
                            Err(e) => Err(e),
                            Ok((children, next)) => {
                                proof {
                                    assert(lines.deep_view().skip(i as int).skip(
                                        1 + (next - i - 1),
                                    ) =~= lines.deep_view().skip(next as int));
                                }
                                match Self::process_block(lines, next) {
                                    Err(e) => Err(e),
                                    Ok(rest) => {
                                        let ghost ch_dv = children.deep_view();
                                        let sec = Token::Section(name, flags, children);
                                        proof {
                                            assert(sec@->Section_2 =~~= ch_dv);
                                        }
                                        let mut r: Vec<Token<T>> = Vec::new();
                                        r.push(sec);
                                        let mut rest_m = rest;
                                        r.append(&mut rest_m);
                                        proof {
                                            assert(r.deep_view() =~~= spec_block(
                                                lines.deep_view().skip(i as int),
                                                T::min_spec(),
                                                T::max_spec(),
                                                T::signed_spec(),
                                            )->Ok_0);
                                        }
                                        Ok(r)
                                    },
                                }
                            },
                        }
                    },
                }
            } else {
                Self::process_block(lines, i + 1)
            }
        }
    }

    /// Tokenizes a source text into its section tree.
    pub fn new_from_string(string: &str) -> (r: Result<Self, String>)
        ensures
            match r {
                Ok(t) => spec_tokenize(
                    string@,
                    T::min_spec(),
                    T::max_spec(),
                    T::signed_spec(),
                ) == Ok::<Seq<SpecTok>, SpecTokErr>(t.tokens.deep_view()),
                Err(m) => spec_tokenize(
                    string@,
                    T::min_spec(),
                    T::max_spec(),
                    T::signed_spec(),
                ) matches Err(e) && m@ == err_msg(e),
            },
    {
        let cs = chars_of(string);
        let raw = crate::lexer::split_after_exec(cs.as_slice(), '\n');
        let lines = tok_cleanse_exec(&raw, 0);
        proof {
            assert(raw.deep_view().skip(0) =~~= raw.deep_view());
            assert(lines.deep_view().skip(0) =~~= lines.deep_view());
        }
        match Self::process_block(&lines, 0) {
            Ok(tokens) => Ok(Tokenizer { tokens }),
            Err(e) => Err(e.message()),
        }
    }
}

/// A fresh vector holding the slice's characters.
fn name_sl_vec(s: &[char]) -> (r: Vec<char>)
    ensures
        r@ == s@,
{
    vstd::slice::slice_to_vec(s)
}

/// The cleansed lines from index `i` on: comments stripped, trimmed,
/// empties dropped.
fn tok_cleanse_exec(raw: &Vec<Vec<char>>, i: usize) -> (r: Vec<Vec<char>>)
    requires
        i <= raw@.len(),
    ensures
        r.deep_view() == tok_cleanse_lines(raw.deep_view().skip(i as int)),
    decreases raw@.len() - i,
{
    if i == raw.len() {
        let r: Vec<Vec<char>> = Vec::new();
        proof {
            assert(r.deep_view() =~~= tok_cleanse_lines(raw.deep_view().skip(i as int)));
        }
        r
    } else {
        proof {
            assert(raw.deep_view().skip(i as int)[0] =~= raw@[i as int]@);
            assert(raw.deep_view().skip(i as int).skip(1) =~= raw.deep_view().skip(i as int + 1));
        }
        let line = &raw[i];
        let p = char_pos_exec(line.as_slice(), '#');
        let sc = vstd::slice::slice_subrange(line.as_slice(), 0, p);
        proof {
            assert(sc@ =~= strip_comment(line@));
        }
        let t = trim_slice(sc);
        let mut rest = tok_cleanse_exec(raw, i + 1);
        let mut r: Vec<Vec<char>> = Vec::new();
        if t.len() > 0 {
            r.push(t);
        }
        r.append(&mut rest);
        proof {
            assert(r.deep_view() =~~= tok_cleanse_lines(raw.deep_view().skip(i as int)));
        }
        r
    }
}

} // verus!

//! Lexical analysis of RISC-V assembly: the token data model with its
//! mathematical view, and the lexer turning source text into an ordered
//! token stream.

use vstd::prelude::*;
use crate::mem::SectionFlags;
use crate::arch::{spec_conventional_to_abi, conventional_to_abi};
use crate::util::{
    is_ident_char, is_ident_start, all_ident_chars, all_digits, digits_val, char_pos, trim_spec, dec_str, int_parse_ok, ParseFrom, lemma_char_pos_props, char_pos_exec, trim_slice, slice_range_vec, slice_skip, chars_of, string_of, ident_char, ident_start, parse_digits_u128, dec_string, all_digits_exec,
};

verus! {

// ---------------------------------------------------------------------------
// Token data model.
// ---------------------------------------------------------------------------

/// An atomic operand value: a register, a symbolic reference, or a parsed
/// immediate.
#[derive(Debug, Clone, PartialEq)]
pub enum RValue<T> {
    // Bank ('x' or 'f') and index.
    Register(char, u32),
    // Symbol name.
    Identifier(String),
    // Immediate value.
    Immediate(T),
}

/// The mathematical shape of an `RValue`, with the immediate widened to `int`.
#[verifier::ext_equal]
pub enum SpecRValue {
    Register(char, u32),
    Identifier(Seq<char>),
    Immediate(i64),
}

impl View for RValue<i8> {
    type V = SpecRValue;

    open spec fn view(&self) -> SpecRValue {
        match self {
            RValue::Register(b, i) => SpecRValue::Register(*b, *i),
            RValue::Identifier(s) => SpecRValue::Identifier(s@),
            RValue::Immediate(v) => SpecRValue::Immediate(*v as i64),
        }
    }
}

impl View for RValue<i16> {
    type V = SpecRValue;

    open spec fn view(&self) -> SpecRValue {
        match self {
            RValue::Register(b, i) => SpecRValue::Register(*b, *i),
            RValue::Identifier(s) => SpecRValue::Identifier(s@),
            RValue::Immediate(v) => SpecRValue::Immediate(*v as i64),
        }
    }
}

impl View for RValue<i32> {
    type V = SpecRValue;

    open spec fn view(&self) -> SpecRValue {
        match self {
            RValue::Register(b, i) => SpecRValue::Register(*b, *i),
            RValue::Identifier(s) => SpecRValue::Identifier(s@),
            RValue::Immediate(v) => SpecRValue::Immediate(*v as i64),
        }
    }
}

impl View for RValue<i64> {
    type V = SpecRValue;

    open spec fn view(&self) -> SpecRValue {
        match self {
            RValue::Register(b, i) => SpecRValue::Register(*b, *i),
            RValue::Identifier(s) => SpecRValue::Identifier(s@),
            RValue::Immediate(v) => SpecRValue::Immediate(*v as i64),
        }
    }
}

/// What an instruction consumes: a bare value, a relocation function
/// applied to a symbol, or base+displacement addressing.
#[derive(Debug, Clone, PartialEq)]
pub enum Operand {
    RValue(RValue<i64>),
    // Function name and symbol.
    RelocationFn(String, RValue<i64>),
    // Relative symbol/register and offset value.
    Address(RValue<i64>, RValue<i64>),
}

#[verifier::ext_equal]
pub enum SpecOperand {
    RValue(SpecRValue),
    RelocationFn(Seq<char>, SpecRValue),
    Address(SpecRValue, SpecRValue),
}

impl View for Operand {
    type V = SpecOperand;

    open spec fn view(&self) -> SpecOperand {
        match self {
            Operand::RValue(rv) => SpecOperand::RValue(rv@),
            Operand::RelocationFn(f, rv) => SpecOperand::RelocationFn(f@, rv@),
            Operand::Address(base, off) => SpecOperand::Address(base@, off@),
        }
    }
}

impl Operand {
    /// The bare value, if the operand is one.
    pub fn as_rvalue(&self) -> (r: Option<&RValue<i64>>)
        ensures
            match r {
                Some(rv) => self is RValue && rv@ == self@->RValue_0,
                None => !(self is RValue),
            },
    {
        match self {
            Operand::RValue(rv) => Some(rv),
            _ => None,
        }
    }
}

impl From<RValue<i64>> for Operand {
    fn from(rvalue: RValue<i64>) -> (r: Self) {
        Operand::RValue(rvalue)
    }
}

impl vstd::std_specs::convert::FromSpecImpl<RValue<i64>> for Operand {
    open spec fn obeys_from_spec() -> bool {
        true
    }

    open spec fn from_spec(rvalue: RValue<i64>) -> Self {
        Operand::RValue(rvalue)
    }
}

/// Tokens that contribute bytes to the output image.
#[derive(Debug, Clone, PartialEq)]
pub enum Emittable {
    // 8-bit values separated by commas.
    Byte(Vec<RValue<i8>>),
    // 16-bit values separated by commas.
    Half(Vec<RValue<i16>>),
    // 32-bit values separated by commas.
    Word(Vec<RValue<i32>>),
    // 64-bit values separated by commas.
    Dword(Vec<RValue<i64>>),
    // Null terminated string.
    String(String),
    // Mnemonic and operands (if applicable).
    Instruction(String, Vec<Operand>),
}

#[verifier::ext_equal]
pub enum SpecEmittable {
    Byte(Seq<SpecRValue>),
    Half(Seq<SpecRValue>),
    Word(Seq<SpecRValue>),
    Dword(Seq<SpecRValue>),
    String(Seq<char>),
    Instruction(Seq<char>, Seq<SpecOperand>),
}

impl View for Emittable {
    type V = SpecEmittable;

    open spec fn view(&self) -> SpecEmittable {
        match self {
            Emittable::Byte(vs) => SpecEmittable::Byte(vs.deep_view()),
            Emittable::Half(vs) => SpecEmittable::Half(vs.deep_view()),
            Emittable::Word(vs) => SpecEmittable::Word(vs.deep_view()),
            Emittable::Dword(vs) => SpecEmittable::Dword(vs.deep_view()),
            Emittable::String(s) => SpecEmittable::String(s@),
            Emittable::Instruction(m, ops) => SpecEmittable::Instruction(m@, ops.deep_view()),
        }
    }
}

/// Symbol visibility (local/global scope).
#[derive(Debug, Clone, PartialEq)]
pub enum Visibility {
    Local(String),
    Global(String),
}

#[verifier::ext_equal]
pub enum SpecVisibility {
    Local(Seq<char>),
    Global(Seq<char>),
}

impl View for Visibility {
    type V = SpecVisibility;

    open spec fn view(&self) -> SpecVisibility {
        match self {
            Visibility::Local(s) => SpecVisibility::Local(s@),
            Visibility::Global(s) => SpecVisibility::Global(s@),
        }
    }
}

/// Alignment request.
#[derive(Debug, Clone, Copy, PartialEq, Eq, Structural)]
pub enum Align {
    // Alignment as a power of two, padding value, max padding value.
    AsPow(u32, u32, u32),
    // Byte alignment value and padding value.
    AsBytes(u32, u32),
}

/// Tokens that affect assembler state but emit nothing directly.
#[derive(Debug, Clone, PartialEq)]
pub enum Directive {
    Alignment(Align),
    Section(String, SectionFlags, u32),
    // Symbol name and constant value.
    Equ(String, RValue<i64>),
    // Symbol visibility (e.g. local, global scope).
    Scope(Visibility),
    // Macro name and arguments.
    Macro(String, Vec<String>),
    // Marker name.
    Marker(String),
}

#[verifier::ext_equal]
pub enum SpecDirective {
    Alignment(Align),
    Section(Seq<char>, SectionFlags, u32),
    Equ(Seq<char>, SpecRValue),
    Scope(SpecVisibility),
    Macro(Seq<char>, Seq<Seq<char>>),
    Marker(Seq<char>),
}

impl View for Directive {
    type V = SpecDirective;

    open spec fn view(&self) -> SpecDirective {
        match self {
            Directive::Alignment(a) => SpecDirective::Alignment(*a),
            Directive::Section(n, f, a) => SpecDirective::Section(n@, *f, *a),
            Directive::Equ(n, v) => SpecDirective::Equ(n@, v@),
            Directive::Scope(v) => SpecDirective::Scope(v@),
            Directive::Macro(n, args) => SpecDirective::Macro(n@, args.deep_view()),
            Directive::Marker(n) => SpecDirective::Marker(n@),
        }
    }
}

impl From<Visibility> for Directive {
    fn from(vis: Visibility) -> (r: Self) {
        Directive::Scope(vis)
    }
}

impl vstd::std_specs::convert::FromSpecImpl<Visibility> for Directive {
    open spec fn obeys_from_spec() -> bool {
        true
    }

    open spec fn from_spec(vis: Visibility) -> Self {
        Directive::Scope(vis)
    }
}

impl From<Align> for Directive {
    fn from(align: Align) -> (r: Self) {
        Directive::Alignment(align)
    }
}

impl vstd::std_specs::convert::FromSpecImpl<Align> for Directive {
    open spec fn obeys_from_spec() -> bool {
        true
    }

    open spec fn from_spec(align: Align) -> Self {
        Directive::Alignment(align)
    }
}

/// One element of the token stream.
#[derive(Debug, Clone, PartialEq)]
pub enum Token {
    Emittable(Emittable),
    Directive(Directive),
    // Symbol name.
    Label(String),
}

#[verifier::ext_equal]
pub enum SpecToken {
    Emittable(SpecEmittable),
    Directive(SpecDirective),
    Label(Seq<char>),
}

impl View for Token {
    type V = SpecToken;

    open spec fn view(&self) -> SpecToken {
        match self {
            Token::Emittable(e) => SpecToken::Emittable(e@),
            Token::Directive(d) => SpecToken::Directive(d@),
            Token::Label(s) => SpecToken::Label(s@),
        }
    }
}

impl From<Emittable> for Token {
    fn from(emittable: Emittable) -> (r: Self) {
        Token::Emittable(emittable)
    }
}

impl vstd::std_specs::convert::FromSpecImpl<Emittable> for Token {
    open spec fn obeys_from_spec() -> bool {
        true
    }

    open spec fn from_spec(emittable: Emittable) -> Self {
        Token::Emittable(emittable)
    }
}

impl From<Directive> for Token {
    fn from(directive: Directive) -> (r: Self) {
        Token::Directive(directive)
    }
}

impl vstd::std_specs::convert::FromSpecImpl<Directive> for Token {
    open spec fn obeys_from_spec() -> bool {
        true
    }

    open spec fn from_spec(directive: Directive) -> Self {
        Token::Directive(directive)
    }
}

/// Lexer failures: a malformed line shape, or a failed conversion.
#[derive(Debug, Clone, PartialEq)]
pub enum LexerErr {
    Syntax(String),
    Parsing(String),
}

#[verifier::ext_equal]
pub enum SpecLexerErr {
    Syntax(Seq<char>),
    Parsing(Seq<char>),
}

impl View for LexerErr {
    type V = SpecLexerErr;

    open spec fn view(&self) -> SpecLexerErr {
        match self {
            LexerErr::Syntax(s) => SpecLexerErr::Syntax(s@),
            LexerErr::Parsing(s) => SpecLexerErr::Parsing(s@),
        }
    }
}

impl DeepView for RValue<i8> {
    type V = SpecRValue;

    open spec fn deep_view(&self) -> SpecRValue {
        self.view()
    }
}

impl DeepView for RValue<i16> {
    type V = SpecRValue;

    open spec fn deep_view(&self) -> SpecRValue {
        self.view()
    }
}

impl DeepView for RValue<i32> {
    type V = SpecRValue;

    open spec fn deep_view(&self) -> SpecRValue {
        self.view()
    }
}

impl DeepView for RValue<i64> {
    type V = SpecRValue;

    open spec fn deep_view(&self) -> SpecRValue {
        self.view()
    }
}

impl DeepView for Operand {
    type V = SpecOperand;

    open spec fn deep_view(&self) -> SpecOperand {
        self.view()
    }
}

impl DeepView for Emittable {
    type V = SpecEmittable;

    open spec fn deep_view(&self) -> SpecEmittable {
        self.view()
    }
}

impl DeepView for Directive {
    type V = SpecDirective;

    open spec fn deep_view(&self) -> SpecDirective {
        self.view()
    }
}

impl DeepView for Token {
    type V = SpecToken;

    open spec fn deep_view(&self) -> SpecToken {
        self.view()
    }
}

/// The lexer: holds the token stream produced from one source text.
pub struct Lexer {
    pub tokens: Vec<Token>,
}

// ---------------------------------------------------------------------------
// Splitting the source text.
// ---------------------------------------------------------------------------

/// The pieces of `s` cut after every occurrence of `c`, each piece keeping
/// its separator; the last piece has none.
pub open spec fn split_after(s: Seq<char>, c: char) -> Seq<Seq<char>>
    decreases s.len(),
    via split_after_decreases
{
    let p = char_pos(s, c);
    if p >= s.len() {
        seq![s]
    } else {
        seq![s.take(p + 1)] + split_after(s.skip(p + 1), c)
    }
}

#[via_fn]
proof fn split_after_decreases(s: Seq<char>, c: char) {
    lemma_char_pos_props(s, c);
}

/// The pieces of `s` between occurrences of `c`, the separators dropped.
pub open spec fn split_drop(s: Seq<char>, c: char) -> Seq<Seq<char>>
    decreases s.len(),
    via split_drop_decreases
{
    let p = char_pos(s, c);
    if p >= s.len() {
        seq![s]
    } else {
        seq![s.take(p)] + split_drop(s.skip(p + 1), c)
    }
}

#[via_fn]
proof fn split_drop_decreases(s: Seq<char>, c: char) {
    lemma_char_pos_props(s, c);
}

/// The text before the first comment mark.
pub open spec fn strip_comment(s: Seq<char>) -> Seq<char> {
    s.take(char_pos(s, '#'))
}

/// Each piece trimmed, empty pieces dropped.
pub open spec fn trim_nonempty(ps: Seq<Seq<char>>) -> Seq<Seq<char>>
    decreases ps.len(),
{
    if ps.len() == 0 {
        Seq::empty()
    } else {
        let t = trim_spec(ps[0]);
        (if t.len() > 0 {
            seq![t]
        } else {
            Seq::<Seq<char>>::empty()
        }) + trim_nonempty(ps.skip(1))
    }
}

/// Each piece trimmed, all kept.
pub open spec fn trim_all(ps: Seq<Seq<char>>) -> Seq<Seq<char>>
    decreases ps.len(),
{
    if ps.len() == 0 {
        Seq::empty()
    } else {
        seq![trim_spec(ps[0])] + trim_all(ps.skip(1))
    }
}

/// One physical line, its comment stripped, cut after each label colon,
/// the pieces trimmed and the empty ones dropped.
pub open spec fn cleanse_line(line: Seq<char>) -> Seq<Seq<char>> {
    trim_nonempty(split_after(strip_comment(line), ':'))
}

pub open spec fn cleanse_lines(lines: Seq<Seq<char>>) -> Seq<Seq<char>>
    decreases lines.len(),
{
    if lines.len() == 0 {
        Seq::empty()
    } else {
        cleanse_line(lines[0]) + cleanse_lines(lines.skip(1))
    }
}

/// The cleansed logical lines of a source text: comments stripped, labels
/// split onto their own lines, whitespace trimmed, empty lines dropped.
pub open spec fn spec_cleanse(code: Seq<char>) -> Seq<Seq<char>> {
    cleanse_lines(split_after(code, '\n'))
}

// ---------------------------------------------------------------------------
// The grammar of lines and operands.
// ---------------------------------------------------------------------------

/// A label line: an identifier followed by a colon.
pub open spec fn is_label_line(line: Seq<char>) -> bool {
    &&& line.len() >= 2
    &&& line.last() == ':'
    &&& is_ident_start(line[0])
    &&& all_ident_chars(line.drop_last())
}

/// A directive line: a dot followed by a name.
pub open spec fn is_directive_line(line: Seq<char>) -> bool {
    line.len() >= 2 && line[0] == '.' && is_ident_char(line[1])
}

/// The line with its leading dots removed.
pub open spec fn skip_dots(s: Seq<char>) -> Seq<char>
    decreases s.len(),
{
    if s.len() > 0 && s[0] == '.' {
        skip_dots(s.skip(1))
    } else {
        s
    }
}

/// A canonical register name: the bank and an index up to 31.
pub open spec fn spec_register_of(s: Seq<char>) -> Option<(char, u32)> {
    match spec_conventional_to_abi(s) {
        Some(r) => Some(r),
        None => if s.len() >= 2 && (s[0] == 'x' || s[0] == 'f') && all_digits(s.skip(1), 10)
            && digits_val(s.skip(1), 10) <= 31 {
            Some((s[0], digits_val(s.skip(1), 10) as u32))
        } else {
            None
        },
    }
}

/// One or more digits of the radix.
pub open spec fn digits1(s: Seq<char>, radix: int) -> bool {
    s.len() > 0 && all_digits(s, radix)
}

/// A signed integer literal: decimal with an optional leading minus, or a
/// `0x`/`0b` prefixed unsigned form.
pub open spec fn is_signed_lit(s: Seq<char>) -> bool {
    ||| (s.len() > 0 && s[0] == '-' && digits1(s.skip(1), 10))
    ||| digits1(s, 10)
    ||| (s.len() >= 2 && s[0] == '0' && s[1] == 'x' && digits1(s.skip(2), 16))
    ||| (s.len() >= 2 && s[0] == '0' && s[1] == 'b' && digits1(s.skip(2), 2))
}

/// The offset part of a base+offset operand: digits with an optional minus.
pub open spec fn is_offset_lit(o: Seq<char>) -> bool {
    ||| (o.len() > 0 && o[0] == '-' && digits1(o.skip(1), 10))
    ||| digits1(o, 10)
}

/// A base+offset operand: `offset(name)`, the name a register or symbol.
pub open spec fn is_rel_addr(s: Seq<char>) -> bool {
    let lp = char_pos(s, '(');
    &&& 1 <= lp
    &&& lp + 2 < s.len()
    &&& s.last() == ')'
    &&& is_offset_lit(s.take(lp))
    &&& is_ident_start(s[lp + 1])
    &&& all_ident_chars(s.subrange(lp + 1, s.len() - 1))
}

/// The recognised relocation function names.
pub open spec fn is_reloc_fn_name(f: Seq<char>) -> bool {
    ||| f == "%hi"@
    ||| f == "%lo"@
    ||| f == "%higher"@
    ||| f == "%highest"@
    ||| f == "%pcrel_hi"@
    ||| f == "%pcrel_lo"@
    ||| f == "%tprel_hi"@
    ||| f == "%tprel_lo"@
    ||| f == "%add"@
}

/// A relocation-function operand: `%fn(symbol)`.
pub open spec fn is_reloc_shape(s: Seq<char>) -> bool {
    let lp = char_pos(s, '(');
    &&& s.len() > 0
    &&& s[0] == '%'
    &&& lp + 2 < s.len()
    &&& s.last() == ')'
    &&& is_reloc_fn_name(s.take(lp))
}

// ---------------------------------------------------------------------------
// Classifying one operand.
// ---------------------------------------------------------------------------

/// A base+offset operand, once its shape is recognised: an unparsable
/// offset value falls back to zero.
pub open spec fn spec_rel_addr(s: Seq<char>) -> SpecOperand {
    let lp = char_pos(s, '(');
    let off_s = s.take(lp);
    let inner = s.subrange(lp + 1, s.len() - 1);
    let off: i64 = match int_parse_ok(off_s, i64::MIN as int, i64::MAX as int, true) {
        Some(n) => n as i64,
        None => 0,
    };
    match spec_register_of(inner) {
        Some((b, i)) => SpecOperand::Address(
            SpecRValue::Register(b, i),
            SpecRValue::Immediate(off),
        ),
        None => SpecOperand::Address(SpecRValue::Identifier(inner), SpecRValue::Immediate(off)),
    }
}

/// A relocation-function operand, once its shape is recognised: the symbol
/// must be an identifier.
pub open spec fn spec_reloc(s: Seq<char>) -> Result<SpecOperand, SpecLexerErr> {
    let lp = char_pos(s, '(');
    let inner = s.subrange(lp + 1, s.len() - 1);
    if all_ident_chars(inner) {
        Ok(SpecOperand::RelocationFn(s.take(lp), SpecRValue::Identifier(inner)))
    } else {
        Err(
            SpecLexerErr::Syntax(
                "Relocation function expected an identifier: \""@ + inner + "\""@,
            ),
        )
    }
}

/// Classifies one instruction operand, by priority: register, base+offset,
/// relocation function, signed literal, identifier.
pub open spec fn spec_operand(s: Seq<char>) -> Result<SpecOperand, SpecLexerErr> {
    match spec_register_of(s) {
        Some((b, i)) => Ok(SpecOperand::RValue(SpecRValue::Register(b, i))),
        None => if is_rel_addr(s) {
            Ok(spec_rel_addr(s))
        } else if is_reloc_shape(s) {
            spec_reloc(s)
        } else if is_signed_lit(s) {
            match int_parse_ok(s, i64::MIN as int, i64::MAX as int, true) {
                Some(n) => Ok(SpecOperand::RValue(SpecRValue::Immediate(n as i64))),
                None => Err(
                    SpecLexerErr::Parsing("Unable to parse immediate value: \""@ + s + "\""@),
                ),
            }
        } else if all_ident_chars(s) {
            Ok(SpecOperand::RValue(SpecRValue::Identifier(s)))
        } else {
            Err(SpecLexerErr::Syntax("Unexpected instruction operand: "@ + s))
        },
    }
}

/// Classifies a comma-separated operand list, stopping at the first error.
pub open spec fn spec_operands(pieces: Seq<Seq<char>>) -> Result<Seq<SpecOperand>, SpecLexerErr>
    decreases pieces.len(),
{
    if pieces.len() == 0 {
        Ok(Seq::empty())
    } else {
        match spec_operand(pieces[0]) {
            Err(e) => Err(e),
            Ok(o) => match spec_operands(pieces.skip(1)) {
                Ok(rest) => Ok(seq![o] + rest),
                Err(e) => Err(e),
            },
        }
    }
}

/// An instruction line: the mnemonic up to the first space, the operands
/// split on commas; a line without a space is a bare mnemonic.
pub open spec fn spec_get_instruction(line: Seq<char>) -> Result<SpecEmittable, SpecLexerErr> {
    let p = char_pos(line, ' ');
    if p >= line.len() {
        Ok(SpecEmittable::Instruction(line, Seq::empty()))
    } else {
        match spec_operands(trim_all(split_drop(line.skip(p + 1), ','))) {
            Ok(ops) => Ok(SpecEmittable::Instruction(line.take(p), ops)),
            Err(e) => Err(e),
        }
    }
}

// ---------------------------------------------------------------------------
// Data-emitting directives.
// ---------------------------------------------------------------------------

/// A comma-separated data list: each piece parses as an immediate of the
/// width, or stands as an identifier.
pub open spec fn spec_data_list(pieces: Seq<Seq<char>>, lo: int, hi: int) -> Seq<SpecRValue>
    decreases pieces.len(),
{
    if pieces.len() == 0 {
        Seq::empty()
    } else {
        let head = match int_parse_ok(pieces[0], lo, hi, true) {
            Some(n) => SpecRValue::Immediate(n as i64),
            None => SpecRValue::Identifier(pieces[0]),
        };
        seq![head] + spec_data_list(pieces.skip(1), lo, hi)
    }
}

/// A data-emitting directive line (already dot-stripped): `byte`, `half`,
/// `word`, `dword`, `string`/`asciz`, or `zero`.
pub open spec fn spec_get_emittable(line: Seq<char>) -> Result<SpecEmittable, SpecLexerErr> {
    let p = char_pos(line, ' ');
    if p >= line.len() {
        Err(
            SpecLexerErr::Syntax("Expected arguments following directive: \""@ + line + "\""@),
        )
    } else {
        let d = line.take(p);
        let args = line.skip(p + 1);
        let pieces = trim_all(split_drop(args, ','));
        if d == "byte"@ {
            Ok(SpecEmittable::Byte(spec_data_list(pieces, i8::MIN as int, i8::MAX as int)))
        } else if d == "half"@ {
            Ok(SpecEmittable::Half(spec_data_list(pieces, i16::MIN as int, i16::MAX as int)))
        } else if d == "word"@ {
            Ok(SpecEmittable::Word(spec_data_list(pieces, i32::MIN as int, i32::MAX as int)))
        } else if d == "dword"@ {
            Ok(SpecEmittable::Dword(spec_data_list(pieces, i64::MIN as int, i64::MAX as int)))
        } else if d == "string"@ || d == "asciz"@ {
            let q1 = char_pos(args, '"');
            if q1 >= args.len() {
                Err(
                    SpecLexerErr::Parsing(
                        "Invalid arguments provided for .string directive: "@ + args,
                    ),
                )
            } else {
                let rest = args.skip(q1 + 1);
                let q2 = char_pos(rest, '"');
                if q2 >= rest.len() {
                    Err(
                        SpecLexerErr::Parsing(
                            "Invalid arguments provided for .string directive: "@ + args,
                        ),
                    )
                } else {
                    Ok(SpecEmittable::String(rest.take(q2)))
                }
            }
        } else if d == "zero"@ {
            match int_parse_ok(args, 0, usize::MAX as int, false) {
                Some(n) => Ok(
                    SpecEmittable::Byte(Seq::new(n as nat, |i: int| SpecRValue::Immediate(0))),
                ),
                None => Err(
                    SpecLexerErr::Parsing(
                        "Invalid arguments provided for .zero directive: "@ + args,
                    ),
                ),
            }
        } else {
            Err(SpecLexerErr::Parsing("Unable to parse directive: \""@ + d + "\""@))
        }
    }
}

// ---------------------------------------------------------------------------
// State directives.
// ---------------------------------------------------------------------------

/// Keeps the pieces that look like signed literals.
pub open spec fn filter_signed(ps: Seq<Seq<char>>) -> Seq<Seq<char>>
    decreases ps.len(),
{
    if ps.len() == 0 {
        Seq::empty()
    } else {
        (if is_signed_lit(ps[0]) {
            seq![ps[0]]
        } else {
            Seq::<Seq<char>>::empty()
        }) + filter_signed(ps.skip(1))
    }
}

/// An alignment argument, or zero where it does not parse.
pub open spec fn align_or0(p: Seq<char>) -> u32 {
    match int_parse_ok(p, 0, u32::MAX as int, false) {
        Some(v) => v as u32,
        None => 0,
    }
}

/// Section flag characters folded into a flag set.
pub open spec fn spec_flags(cs: Seq<char>) -> Result<u8, SpecLexerErr>
    decreases cs.len(),
{
    if cs.len() == 0 {
        Ok(0)
    } else {
        let bit: Option<u8> = if cs[0] == 'a' {
            Some(0x01)
        } else if cs[0] == 'w' {
            Some(0x02)
        } else if cs[0] == 'x' {
            Some(0x04)
        } else if cs[0] == 'm' {
            Some(0x08)
        } else if cs[0] == 's' {
            Some(0x10)
        } else if cs[0] == 'g' {
            Some(0x20)
        } else if cs[0] == 't' {
            Some(0x40)
        } else {
            None
        };
        match bit {
            None => Err(
                SpecLexerErr::Parsing(
                    "Unexpected section flag identifier: \""@ + seq![cs[0]] + "\""@,
                ),
            ),
            Some(b) => match spec_flags(cs.skip(1)) {
                Ok(rest) => Ok(b | rest),
                Err(e) => Err(e),
            },
        }
    }
}

/// A state directive line (already dot-stripped): visibility, `equ`,
/// `macro`, alignment, `section`, a bare section name, or the `endm`
/// marker.
pub open spec fn spec_get_directive(line: Seq<char>) -> Result<SpecDirective, SpecLexerErr> {
    let p = char_pos(line, ' ');
    if p >= line.len() {
        if line == "text"@ || line == "init"@ || line == "fini"@ {
            Ok(SpecDirective::Section(line, SectionFlags { bits: 0x04 }, 2))
        } else if line == "bss"@ || line == "sbss"@ || line == "rodata"@ {
            Ok(SpecDirective::Section(line, SectionFlags { bits: 0x01 }, 2))
        } else if line == "data"@ || line == "sdata"@ {
            Ok(SpecDirective::Section(line, SectionFlags { bits: 0x03 }, 2))
        } else if line == "endm"@ {
            Ok(SpecDirective::Marker(line))
        } else {
            Err(SpecLexerErr::Parsing("Unable to match directive: \""@ + line + "\""@))
        }
    } else {
        let d = line.take(p);
        let args = line.skip(p + 1);
        if d == "global"@ || d == "globl"@ {
            Ok(SpecDirective::Scope(SpecVisibility::Global(args)))
        } else if d == "local"@ {
            Ok(SpecDirective::Scope(SpecVisibility::Local(args)))
        } else if d == "equ"@ {
            let c = char_pos(args, ',');
            if c >= args.len() {
                Err(SpecLexerErr::Parsing("Unable to parse directive: \""@ + line + "\""@))
            } else {
                let name = trim_spec(args.take(c));
                let value = args.skip(c + 1);
                match int_parse_ok(trim_spec(value), i64::MIN as int, i64::MAX as int, true) {
                    Some(n) => Ok(SpecDirective::Equ(name, SpecRValue::Immediate(n as i64))),
                    None => Err(
                        SpecLexerErr::Parsing("Unable to parse immediate value: "@ + value),
                    ),
                }
            }
        } else if d == "macro"@ {
            let q = char_pos(args, ' ');
            if q >= args.len() {
                Ok(SpecDirective::Macro(trim_spec(args), Seq::empty()))
            } else {
                Ok(
                    SpecDirective::Macro(
                        args.take(q),
                        trim_nonempty(split_drop(args.skip(q + 1), ',')),
                    ),
                )
            }
        } else if d == "align"@ || d == "p2align"@ {
            let parts = filter_signed(trim_all(split_drop(args, ',')));
            if parts.len() == 0 || parts.len() > 3 {
                Err(
                    SpecLexerErr::Syntax(
                        "Expected 1-3 arguments. "@ + dec_str(parts.len() as int)
                            + " arguments were provided."@,
                    ),
                )
            } else {
                match int_parse_ok(parts[0], 0, u32::MAX as int, false) {
                    None => Err(
                        SpecLexerErr::Parsing("Unable to parse alignment value from arguments."@),
                    ),
                    Some(a) => {
                        let b = if parts.len() >= 2 {
                            align_or0(parts[1])
                        } else {
                            0
                        };
                        let cc = if parts.len() == 3 {
                            align_or0(parts[2])
                        } else {
                            0
                        };
                        Ok(SpecDirective::Alignment(Align::AsPow(a as u32, b, cc)))
                    },
                }
            }
        } else if d == "section"@ {
            let name = skip_dots(trim_spec(args.take(char_pos(args, ','))));
            let q1 = char_pos(args, '"');
            if q1 >= args.len() {
                Ok(SpecDirective::Section(name, SectionFlags { bits: 0 }, 4))
            } else {
                let rest = args.skip(q1 + 1);
                let q2 = char_pos(rest, '"');
                if q2 >= rest.len() {
                    Ok(SpecDirective::Section(name, SectionFlags { bits: 0 }, 4))
                } else {
                    match spec_flags(rest.take(q2)) {
                        Ok(bits) => Ok(
                            SpecDirective::Section(name, SectionFlags { bits: bits }, 4),
                        ),
                        Err(e) => Err(e),
                    }
                }
            }
        } else {
            Err(SpecLexerErr::Parsing("Unable to parse directive: \""@ + d + "\""@))
        }
    }
}

// ---------------------------------------------------------------------------
// The whole lexer.
// ---------------------------------------------------------------------------

/// Classifies one cleansed line into a token.
pub open spec fn spec_line_token(line: Seq<char>) -> Result<SpecToken, SpecLexerErr> {
    if is_label_line(line) {
        Ok(SpecToken::Label(line.drop_last()))
    } else if is_directive_line(line) {
        let d = skip_dots(line);
        match spec_get_emittable(d) {
            Ok(e) => Ok(SpecToken::Emittable(e)),
            Err(_) => match spec_get_directive(d) {
                Ok(dd) => Ok(SpecToken::Directive(dd)),
                Err(e) => Err(e),
            },
        }
    } else {
        match spec_get_instruction(line) {
            Ok(e) => Ok(SpecToken::Emittable(e)),
            Err(e) => Err(e),
        }
    }
}

/// Tokenizes a sequence of cleansed lines, stopping at the first error.
pub open spec fn spec_process_lines(lines: Seq<Seq<char>>) -> Result<Seq<SpecToken>, SpecLexerErr>
    decreases lines.len(),
{
    if lines.len() == 0 {
        Ok(Seq::empty())
    } else {
        match spec_line_token(lines[0]) {
            Err(e) => Err(e),
            Ok(t) => match spec_process_lines(lines.skip(1)) {
                Ok(rest) => Ok(seq![t] + rest),
                Err(e) => Err(e),
            },
        }
    }
}

/// The whole lexer: cleansing, then line classification.
pub open spec fn spec_lex(code: Seq<char>) -> Result<Seq<SpecToken>, SpecLexerErr> {
    spec_process_lines(spec_cleanse(code))
}

// ---------------------------------------------------------------------------
// Exec splitting helpers.
// ---------------------------------------------------------------------------

pub fn split_after_exec(s: &[char], c: char) -> (r: Vec<Vec<char>>)
    ensures
        r.deep_view() == split_after(s@, c),
    decreases s@.len(),
{
    let p = char_pos_exec(s, c);
    if p >= s.len() {
        let mut r: Vec<Vec<char>> = Vec::new();
        r.push(vstd::slice::slice_to_vec(s));
        proof {
            assert(r.deep_view() =~~= split_after(s@, c));
        }
        r
    } else {
        let head = slice_range_vec(s, 0, p + 1);
        let mut rest = split_after_exec(slice_skip(s, p + 1), c);
        let mut r: Vec<Vec<char>> = Vec::new();
        r.push(head);
        r.append(&mut rest);
        proof {
            assert(r.deep_view() =~~= split_after(s@, c));
        }
        r
    }
}

pub fn split_drop_exec(s: &[char], c: char) -> (r: Vec<Vec<char>>)
    ensures
        r.deep_view() == split_drop(s@, c),
    decreases s@.len(),
{
    let p = char_pos_exec(s, c);
    if p >= s.len() {
        let mut r: Vec<Vec<char>> = Vec::new();
        r.push(vstd::slice::slice_to_vec(s));
        proof {
            assert(r.deep_view() =~~= split_drop(s@, c));
        }
        r
    } else {
        let head = slice_range_vec(s, 0, p);
        let mut rest = split_drop_exec(slice_skip(s, p + 1), c);
        let mut r: Vec<Vec<char>> = Vec::new();
        r.push(head);
        r.append(&mut rest);
        proof {
            assert(r.deep_view() =~~= split_drop(s@, c));
        }
        r
    }
}

pub fn skip_dots_exec(s: &[char]) -> (r: Vec<char>)
    ensures
        r@ == skip_dots(s@),
{
    let mut a: usize = 0;
    proof {
        assert(s@.skip(0) =~= s@);
    }
    while a < s.len() && s[a] == '.'
        invariant
            0 <= a <= s@.len(),
            skip_dots(s@) == skip_dots(s@.skip(a as int)),
        decreases s@.len() - a,
    {
        proof {
            assert(s@.skip(a as int).skip(1) =~= s@.skip(a as int + 1));
        }
        a = a + 1;
    }
    let r = slice_range_vec(s, a, s.len());
    proof {
        assert(s@.subrange(a as int, s@.len() as int) =~= s@.skip(a as int));
    }
    r
}


fn all_ident_exec(s: &[char]) -> (r: bool)
    ensures
        r == all_ident_chars(s@),
{
    let mut i: usize = 0;
    while i < s.len()
        invariant
            0 <= i <= s@.len(),
            forall|j: int| 0 <= j < i ==> is_ident_char(#[trigger] s@[j]),
        decreases s@.len() - i,
    {
        if !ident_char(s[i]) {
            return false;
        }
        i = i + 1;
    }
    true
}

fn slice_eq_str(v: &[char], lit: &str) -> (r: bool)
    ensures
        r == (v@ == lit@),
{
    let l = chars_of(lit);
    if v.len() != l.len() {
        proof {
            if v@ == lit@ {
                assert(v@.len() == lit@.len());
            }
        }
        return false;
    }
    let mut i: usize = 0;
    while i < v.len()
        invariant
            0 <= i <= v@.len(),
            v@.len() == l@.len(),
            l@ == lit@,
            forall|j: int| 0 <= j < i ==> v@[j] == l@[j],
        decreases v@.len() - i,
    {
        if v[i] != l[i] {
            proof {
                if v@ == lit@ {
                    assert(v@[i as int] == lit@[i as int]);
                }
            }
            return false;
        }
        i = i + 1;
    }
    proof {
        assert(v@ =~= lit@);
    }
    true
}

// ---------------------------------------------------------------------------
// Exec cleansing.
// ---------------------------------------------------------------------------

pub fn trim_nonempty_exec(ps: &Vec<Vec<char>>, i: usize) -> (r: Vec<Vec<char>>)
    requires
        i <= ps@.len(),
    ensures
        r.deep_view() == trim_nonempty(ps.deep_view().skip(i as int)),
    decreases ps@.len() - i,
{
    if i == ps.len() {
        let r: Vec<Vec<char>> = Vec::new();
        proof {
            assert(r.deep_view() =~~= trim_nonempty(ps.deep_view().skip(i as int)));
        }
        r
    } else {
        let t = trim_slice(ps[i].as_slice());
        let mut rest = trim_nonempty_exec(ps, i + 1);
        let mut r: Vec<Vec<char>> = Vec::new();
        if t.len() > 0 {
            r.push(t);
        }
        r.append(&mut rest);
        proof {
            assert(ps.deep_view().skip(i as int)[0] =~= ps@[i as int]@);
            assert(ps.deep_view().skip(i as int).skip(1) =~= ps.deep_view().skip(i as int + 1));
            assert(r.deep_view() =~~= trim_nonempty(ps.deep_view().skip(i as int)));
        }
        r
    }
}

pub fn trim_all_exec(ps: &Vec<Vec<char>>, i: usize) -> (r: Vec<Vec<char>>)
    requires
        i <= ps@.len(),
    ensures
        r.deep_view() == trim_all(ps.deep_view().skip(i as int)),
    decreases ps@.len() - i,
{
    if i == ps.len() {
        let r: Vec<Vec<char>> = Vec::new();
        proof {
            assert(r.deep_view() =~~= trim_all(ps.deep_view().skip(i as int)));
        }
        r
    } else {
        let t = trim_slice(ps[i].as_slice());
        let mut rest = trim_all_exec(ps, i + 1);
        let mut r: Vec<Vec<char>> = Vec::new();
        r.push(t);
        r.append(&mut rest);
        proof {
            assert(ps.deep_view().skip(i as int)[0] =~= ps@[i as int]@);
            assert(ps.deep_view().skip(i as int).skip(1) =~= ps.deep_view().skip(i as int + 1));
            assert(r.deep_view() =~~= trim_all(ps.deep_view().skip(i as int)));
        }
        r
    }
}

fn cleanse_line_exec(line: &Vec<char>) -> (r: Vec<Vec<char>>)
    ensures
        r.deep_view() == cleanse_line(line@),
{
    let p = char_pos_exec(line.as_slice(), '#');
    let sc = slice_range_vec(line.as_slice(), 0, p);
    proof {
        assert(sc@ =~= strip_comment(line@));
    }
    let parts = split_after_exec(sc.as_slice(), ':');
    let r = trim_nonempty_exec(&parts, 0);
    proof {
        assert(parts.deep_view().skip(0) =~~= parts.deep_view());
    }
    r
}

fn cleanse_lines_exec(lines: &Vec<Vec<char>>, i: usize) -> (r: Vec<Vec<char>>)
    requires
        i <= lines@.len(),
    ensures
        r.deep_view() == cleanse_lines(lines.deep_view().skip(i as int)),
    decreases lines@.len() - i,
{
    if i == lines.len() {
        let r: Vec<Vec<char>> = Vec::new();
        proof {
            assert(r.deep_view() =~~= cleanse_lines(lines.deep_view().skip(i as int)));
        }
        r
    } else {
        let mut r = cleanse_line_exec(&lines[i]);
        let mut rest = cleanse_lines_exec(lines, i + 1);
        r.append(&mut rest);
        proof {
            assert(lines.deep_view().skip(i as int)[0] =~= lines@[i as int]@);
            assert(lines.deep_view().skip(i as int).skip(1) =~= lines.deep_view().skip(
                i as int + 1,
            ));
            assert(r.deep_view() =~~= cleanse_lines(lines.deep_view().skip(i as int)));
        }
        r
    }
}

fn cleanse_exec(code: &str) -> (r: Vec<Vec<char>>)
    ensures
        r.deep_view() == spec_cleanse(code@),
{
    let cs = chars_of(code);
    let lines = split_after_exec(cs.as_slice(), '\n');
    let r = cleanse_lines_exec(&lines, 0);
    proof {
        assert(lines.deep_view().skip(0) =~~= lines.deep_view());
    }
    r
}

// ---------------------------------------------------------------------------
// Exec operand classification.
// ---------------------------------------------------------------------------

/// A result with its error abstracted to the spec shape.
pub open spec fn operand_result_view(r: Result<Operand, LexerErr>) -> Result<
    SpecOperand,
    SpecLexerErr,
> {
    match r {
        Ok(o) => Ok(o@),
        Err(e) => Err(e@),
    }
}

pub open spec fn emittable_result_view(r: Result<Emittable, LexerErr>) -> Result<
    SpecEmittable,
    SpecLexerErr,
> {
    match r {
        Ok(o) => Ok(o@),
        Err(e) => Err(e@),
    }
}

pub open spec fn directive_result_view(r: Result<Directive, LexerErr>) -> Result<
    SpecDirective,
    SpecLexerErr,
> {
    match r {
        Ok(o) => Ok(o@),
        Err(e) => Err(e@),
    }
}

pub open spec fn token_result_view(r: Result<Token, LexerErr>) -> Result<
    SpecToken,
    SpecLexerErr,
> {
    match r {
        Ok(o) => Ok(o@),
        Err(e) => Err(e@),
    }
}

/// Builds `prefix + mid + suffix` as one message string.
fn msg_around(prefix: &str, mid: &[char], suffix: &str) -> (s: String)
    ensures
        s@ == prefix@ + mid@ + suffix@,
{
    let v = vstd::slice::slice_to_vec(mid);
    let m = string_of(&v);
    String::from_str(prefix).concat(m.as_str()).concat(suffix)
}

/// Builds `prefix + mid` as one message string.
fn msg_after(prefix: &str, mid: &[char]) -> (s: String)
    ensures
        s@ == prefix@ + mid@,
{
    let v = vstd::slice::slice_to_vec(mid);
    let m = string_of(&v);
    String::from_str(prefix).concat(m.as_str())
}

fn is_signed_lit_exec(s: &[char]) -> (r: bool)
    ensures
        r == is_signed_lit(s@),
{
    if s.len() > 0 && s[0] == '-' {
        let t = slice_skip(s, 1);
        if t.len() > 0 && all_digits_exec(t, 10) {
            return true;
        }
    }
    if s.len() > 0 && all_digits_exec(s, 10) {
        return true;
    }
    if s.len() >= 2 && s[0] == '0' && s[1] == 'x' {
        let t = slice_skip(s, 2);
        if t.len() > 0 && all_digits_exec(t, 16) {
            return true;
        }
    }
    if s.len() >= 2 && s[0] == '0' && s[1] == 'b' {
        let t = slice_skip(s, 2);
        if t.len() > 0 && all_digits_exec(t, 2) {
            return true;
        }
    }
    false
}

fn is_offset_lit_exec(s: &[char]) -> (r: bool)
    ensures
        r == is_offset_lit(s@),
{
    if s.len() > 0 && s[0] == '-' {
        let t = slice_skip(s, 1);
        if t.len() > 0 && all_digits_exec(t, 10) {
            return true;
        }
    }
    s.len() > 0 && all_digits_exec(s, 10)
}

pub fn is_rel_addr_exec(s: &[char]) -> (r: bool)
    ensures
        r == is_rel_addr(s@),
{
    let lp = char_pos_exec(s, '(');
    if lp < 1 || lp >= s.len() || s.len() - lp <= 2 {
        return false;
    }
    if s[s.len() - 1] != ')' {
        return false;
    }
    let off = vstd::slice::slice_subrange(s, 0, lp);
    proof {
        assert(off@ =~= s@.take(lp as int));
    }
    if !is_offset_lit_exec(off) {
        return false;
    }
    if !ident_start(s[lp + 1]) {
        return false;
    }
    let inner = vstd::slice::slice_subrange(s, lp + 1, s.len() - 1);
    all_ident_exec(inner)
}

fn is_reloc_shape_exec(s: &[char]) -> (r: bool)
    ensures
        r == is_reloc_shape(s@),
{
    if s.len() == 0 || s[0] != '%' {
        return false;
    }
    let lp = char_pos_exec(s, '(');
    if lp >= s.len() || s.len() - lp <= 2 {
        return false;
    }
    if s[s.len() - 1] != ')' {
        return false;
    }
    let name = vstd::slice::slice_subrange(s, 0, lp);
    proof {
        assert(name@ =~= s@.take(lp as int));
    }
    slice_eq_str(name, "%hi") || slice_eq_str(name, "%lo") || slice_eq_str(name, "%higher")
        || slice_eq_str(name, "%highest") || slice_eq_str(name, "%pcrel_hi") || slice_eq_str(
        name,
        "%pcrel_lo",
    ) || slice_eq_str(name, "%tprel_hi") || slice_eq_str(name, "%tprel_lo") || slice_eq_str(
        name,
        "%add",
    )
}

impl Lexer {
    /// Resolves a register name to its bank and index.
    pub fn get_register(s: &[char]) -> (r: Option<(char, u32)>)
        ensures
            r == spec_register_of(s@),
    {
        let v = vstd::slice::slice_to_vec(s);
        let st = string_of(&v);
        match conventional_to_abi(st.as_str()) {
            Some(p) => Some(p),
            None => {
                if s.len() >= 2 && (s[0] == 'x' || s[0] == 'f') {
                    let tail = slice_skip(s, 1);
                    if all_digits_exec(tail, 10) {
                        match parse_digits_u128(tail, 10) {
                            Some(val) => if val <= 31 {
                                Some((s[0], val as u32))
                            } else {
                                None
                            },
                            None => None,
                        }
                    } else {
                        None
                    }
                } else {
                    None
                }
            },
        }
    }

    /// A base+offset operand; an unparsable offset value falls back to zero.
    pub fn get_relative_address(s: &[char]) -> (r: Operand)
        requires
            is_rel_addr(s@),
        ensures
            r@ == spec_rel_addr(s@),
    {
        let lp = char_pos_exec(s, '(');
        proof {
            lemma_char_pos_props(s@, '(');
            assert(char_pos(s@, '(') + 2 < s@.len());
        }
        let n = s.len();
        let off_sl = vstd::slice::slice_subrange(s, 0, lp);
        proof {
            assert(off_sl@ =~= s@.take(lp as int));
        }
        let ov = vstd::slice::slice_to_vec(off_sl);
        let st = string_of(&ov);
        let off: i64 = match <i64 as ParseFrom>::parse(st.as_str()) {
            Ok(n) => n,
            Err(_) => 0,
        };
        let inner = vstd::slice::slice_subrange(s, lp + 1, n - 1);
        match Self::get_register(inner) {
            Some((b, i)) => Operand::Address(RValue::Register(b, i), RValue::Immediate(off)),
            None => {
                let iv = vstd::slice::slice_to_vec(inner);
                Operand::Address(RValue::Identifier(string_of(&iv)), RValue::Immediate(off))
            },
        }
    }

    /// A relocation-function operand: the symbol must be an identifier.
    pub fn get_relocation_function(s: &[char]) -> (r: Result<Operand, LexerErr>)
        requires
            is_reloc_shape(s@),
        ensures
            operand_result_view(r) == spec_reloc(s@),
    {
        let lp = char_pos_exec(s, '(');
        proof {
            lemma_char_pos_props(s@, '(');
            assert(char_pos(s@, '(') + 2 < s@.len());
        }
        let n = s.len();
        let inner = vstd::slice::slice_subrange(s, lp + 1, n - 1);
        if all_ident_exec(inner) {
            let name = slice_range_vec(s, 0, lp);
            let iv = vstd::slice::slice_to_vec(inner);
            proof {
                assert(name@ =~= s@.take(lp as int));
            }
            Ok(
                Operand::RelocationFn(
                    string_of(&name),
                    RValue::Identifier(string_of(&iv)),
                ),
            )
        } else {
            Err(
                LexerErr::Syntax(
                    msg_around("Relocation function expected an identifier: \"", inner, "\""),
                ),
            )
        }
    }

    /// Classifies one instruction operand, by priority.
    fn get_operand(s: &[char]) -> (r: Result<Operand, LexerErr>)
        ensures
            operand_result_view(r) == spec_operand(s@),
    {
        match Self::get_register(s) {
            Some((b, i)) => Ok(Operand::RValue(RValue::Register(b, i))),
            None => {
                if is_rel_addr_exec(s) {
                    Ok(Self::get_relative_address(s))
                } else if is_reloc_shape_exec(s) {
                    Self::get_relocation_function(s)
                } else if is_signed_lit_exec(s) {
                    let v = vstd::slice::slice_to_vec(s);
                    let st = string_of(&v);
                    match <i64 as ParseFrom>::parse(st.as_str()) {
                        Ok(n) => Ok(Operand::RValue(RValue::Immediate(n))),
                        Err(_) => Err(
                            LexerErr::Parsing(
                                msg_around("Unable to parse immediate value: \"", s, "\""),
                            ),
                        ),
                    }
                } else if all_ident_exec(s) {
                    let v = vstd::slice::slice_to_vec(s);
                    Ok(Operand::RValue(RValue::Identifier(string_of(&v))))
                } else {
                    Err(
                        LexerErr::Syntax(msg_after("Unexpected instruction operand: ", s)),
                    )
                }
            },
        }
    }

    /// Classifies a list of operand pieces, stopping at the first error.
    fn get_operands(pieces: &Vec<Vec<char>>, i: usize) -> (r: Result<Vec<Operand>, LexerErr>)
        requires
            i <= pieces@.len(),
        ensures
            match r {
                Ok(v) => spec_operands(pieces.deep_view().skip(i as int)) == Ok::<
                    Seq<SpecOperand>,
                    SpecLexerErr,
                >(v.deep_view()),
                Err(e) => spec_operands(pieces.deep_view().skip(i as int)) == Err::<
                    Seq<SpecOperand>,
                    SpecLexerErr,
                >(e@),
            },
        decreases pieces@.len() - i,
    {
        if i == pieces.len() {
            let r: Vec<Operand> = Vec::new();
            proof {
                assert(r.deep_view() =~= Seq::<SpecOperand>::empty());
            }
            Ok(r)
        } else {
            proof {
                assert(pieces.deep_view().skip(i as int)[0] =~= pieces@[i as int]@);
                assert(pieces.deep_view().skip(i as int).skip(1) =~= pieces.deep_view().skip(
                    i as int + 1,
                ));
            }
            match Self::get_operand(pieces[i].as_slice()) {
                Err(e) => Err(e),
                Ok(o) => {
                    match Self::get_operands(pieces, i + 1) {
                        Ok(rest) => {
                            let mut r: Vec<Operand> = Vec::new();
                            r.push(o);
                            let mut rest_m = rest;
                            r.append(&mut rest_m);
                            proof {
                                assert(r.deep_view() =~= spec_operands(
                                    pieces.deep_view().skip(i as int),
                                )->Ok_0);
                            }
                            Ok(r)
                        },
                        Err(e) => Err(e),
                    }
                },
            }
        }
    }

    /// An instruction line: the mnemonic, then comma-separated operands.
    pub fn get_instruction(line: &[char]) -> (r: Result<Emittable, LexerErr>)
        ensures
            emittable_result_view(r) == spec_get_instruction(line@),
    {
        let p = char_pos_exec(line, ' ');
        if p >= line.len() {
            let v = vstd::slice::slice_to_vec(line);
            let e = Emittable::Instruction(string_of(&v), Vec::new());
            proof {
                assert(e@ =~~= SpecEmittable::Instruction(line@, Seq::empty()));
            }
            Ok(e)
        } else {
            let rest = slice_skip(line, p + 1);
            let parts = split_drop_exec(rest, ',');
            let trimmed = trim_all_exec(&parts, 0);
            proof {
                assert(parts.deep_view().skip(0) =~~= parts.deep_view());
            }
            match Self::get_operands(&trimmed, 0) {
                Ok(ops) => {
                    let mv = slice_range_vec(line, 0, p);
                    proof {
                        assert(trimmed.deep_view().skip(0) =~~= trimmed.deep_view());
                        assert(mv@ =~= line@.take(p as int));
                    }
                    let e = Emittable::Instruction(string_of(&mv), ops);
                    proof {
                        assert(e@->Instruction_1 =~= spec_get_instruction(
                            line@,
                        )->Ok_0->Instruction_1);
                    }
                    Ok(e)
                },
                Err(e) => {
                    proof {
                        assert(trimmed.deep_view().skip(0) =~~= trimmed.deep_view());
                    }
                    Err(e)
                },
            }
        }
    }
}

// ---------------------------------------------------------------------------
// Exec data-emitting directives.
// ---------------------------------------------------------------------------

fn data_list_i8(ps: &Vec<Vec<char>>, i: usize) -> (r: Vec<RValue<i8>>)
    requires
        i <= ps@.len(),
    ensures
        r.deep_view() == spec_data_list(ps.deep_view().skip(i as int), i8::MIN as int, i8::MAX as int),
    decreases ps@.len() - i,
{
    if i == ps.len() {
        let r: Vec<RValue<i8>> = Vec::new();
        proof {
            assert(r.deep_view() =~= spec_data_list(
                ps.deep_view().skip(i as int),
                i8::MIN as int,
                i8::MAX as int,
            ));
        }
        r
    } else {
        let st = string_of(&ps[i]);
        let head: RValue<i8> = match <i8 as ParseFrom>::parse(st.as_str()) {
            Ok(v) => RValue::Immediate(v),
            Err(_) => RValue::Identifier(st),
        };
        let mut rest = data_list_i8(ps, i + 1);
        let mut r: Vec<RValue<i8>> = Vec::new();
        r.push(head);
        r.append(&mut rest);
        proof {
            assert(ps.deep_view().skip(i as int)[0] =~= ps@[i as int]@);
            assert(ps.deep_view().skip(i as int).skip(1) =~= ps.deep_view().skip(i as int + 1));
            assert(r.deep_view() =~= spec_data_list(
                ps.deep_view().skip(i as int),
                i8::MIN as int,
                i8::MAX as int,
            ));
        }
        r
    }
}

fn data_list_i16(ps: &Vec<Vec<char>>, i: usize) -> (r: Vec<RValue<i16>>)
    requires
        i <= ps@.len(),
    ensures
        r.deep_view() == spec_data_list(ps.deep_view().skip(i as int), i16::MIN as int, i16::MAX as int),
    decreases ps@.len() - i,
{
    if i == ps.len() {
        let r: Vec<RValue<i16>> = Vec::new();
        proof {
            assert(r.deep_view() =~= spec_data_list(
                ps.deep_view().skip(i as int),
                i16::MIN as int,
                i16::MAX as int,
            ));
        }
        r
    } else {
        let st = string_of(&ps[i]);
        let head: RValue<i16> = match <i16 as ParseFrom>::parse(st.as_str()) {
            Ok(v) => RValue::Immediate(v),
            Err(_) => RValue::Identifier(st),
        };
        let mut rest = data_list_i16(ps, i + 1);
        let mut r: Vec<RValue<i16>> = Vec::new();
        r.push(head);
        r.append(&mut rest);
        proof {
            assert(ps.deep_view().skip(i as int)[0] =~= ps@[i as int]@);
            assert(ps.deep_view().skip(i as int).skip(1) =~= ps.deep_view().skip(i as int + 1));
            assert(r.deep_view() =~= spec_data_list(
                ps.deep_view().skip(i as int),
                i16::MIN as int,
                i16::MAX as int,
            ));
        }
        r
    }
}

fn data_list_i32(ps: &Vec<Vec<char>>, i: usize) -> (r: Vec<RValue<i32>>)
    requires
        i <= ps@.len(),
    ensures
        r.deep_view() == spec_data_list(ps.deep_view().skip(i as int), i32::MIN as int, i32::MAX as int),
    decreases ps@.len() - i,
{
    if i == ps.len() {
        let r: Vec<RValue<i32>> = Vec::new();
        proof {
            assert(r.deep_view() =~= spec_data_list(
                ps.deep_view().skip(i as int),
                i32::MIN as int,
                i32::MAX as int,
            ));
        }
        r
    } else {
        let st = string_of(&ps[i]);
        let head: RValue<i32> = match <i32 as ParseFrom>::parse(st.as_str()) {
            Ok(v) => RValue::Immediate(v),
            Err(_) => RValue::Identifier(st),
        };
        let mut rest = data_list_i32(ps, i + 1);
        let mut r: Vec<RValue<i32>> = Vec::new();
        r.push(head);
        r.append(&mut rest);
        proof {
            assert(ps.deep_view().skip(i as int)[0] =~= ps@[i as int]@);
            assert(ps.deep_view().skip(i as int).skip(1) =~= ps.deep_view().skip(i as int + 1));
            assert(r.deep_view() =~= spec_data_list(
                ps.deep_view().skip(i as int),
                i32::MIN as int,
                i32::MAX as int,
            ));
        }
        r
    }
}

fn data_list_i64(ps: &Vec<Vec<char>>, i: usize) -> (r: Vec<RValue<i64>>)
    requires
        i <= ps@.len(),
    ensures
        r.deep_view() == spec_data_list(ps.deep_view().skip(i as int), i64::MIN as int, i64::MAX as int),
    decreases ps@.len() - i,
{
    if i == ps.len() {
        let r: Vec<RValue<i64>> = Vec::new();
        proof {
            assert(r.deep_view() =~= spec_data_list(
                ps.deep_view().skip(i as int),
                i64::MIN as int,
                i64::MAX as int,
            ));
        }
        r
    } else {
        let st = string_of(&ps[i]);
        let head: RValue<i64> = match <i64 as ParseFrom>::parse(st.as_str()) {
            Ok(v) => RValue::Immediate(v),
            Err(_) => RValue::Identifier(st),
        };
        let mut rest = data_list_i64(ps, i + 1);
        let mut r: Vec<RValue<i64>> = Vec::new();
        r.push(head);
        r.append(&mut rest);
        proof {
            assert(ps.deep_view().skip(i as int)[0] =~= ps@[i as int]@);
            assert(ps.deep_view().skip(i as int).skip(1) =~= ps.deep_view().skip(i as int + 1));
            assert(r.deep_view() =~= spec_data_list(
                ps.deep_view().skip(i as int),
                i64::MIN as int,
                i64::MAX as int,
            ));
        }
        r
    }
}

impl Lexer {
    /// A data-emitting directive line (already dot-stripped).
    pub fn get_emittable_directive(line: &[char]) -> (r: Result<Emittable, LexerErr>)
        ensures
            emittable_result_view(r) == spec_get_emittable(line@),
    {
        let p = char_pos_exec(line, ' ');
        if p >= line.len() {
            return Err(
                LexerErr::Syntax(
                    msg_around("Expected arguments following directive: \"", line, "\""),
                ),
            );
        }
        let d = vstd::slice::slice_subrange(line, 0, p);
        proof {
            assert(d@ =~= line@.take(p as int));
        }
        let args = slice_skip(line, p + 1);
        let parts = split_drop_exec(args, ',');
        let pieces = trim_all_exec(&parts, 0);
        proof {
            assert(parts.deep_view().skip(0) =~~= parts.deep_view());
        }
        if slice_eq_str(d, "byte") {
            let vs = data_list_i8(&pieces, 0);
            let e = Emittable::Byte(vs);
            proof {
                assert(pieces.deep_view().skip(0) =~~= pieces.deep_view());
                assert(e@->Byte_0 =~= spec_get_emittable(line@)->Ok_0->Byte_0);
            }
            Ok(e)
        } else if slice_eq_str(d, "half") {
            let vs = data_list_i16(&pieces, 0);
            let e = Emittable::Half(vs);
            proof {
                assert(pieces.deep_view().skip(0) =~~= pieces.deep_view());
                assert(e@->Half_0 =~= spec_get_emittable(line@)->Ok_0->Half_0);
            }
            Ok(e)
        } else if slice_eq_str(d, "word") {
            let vs = data_list_i32(&pieces, 0);
            let e = Emittable::Word(vs);
            proof {
                assert(pieces.deep_view().skip(0) =~~= pieces.deep_view());
                assert(e@->Word_0 =~= spec_get_emittable(line@)->Ok_0->Word_0);
            }
            Ok(e)
        } else if slice_eq_str(d, "dword") {
            let vs = data_list_i64(&pieces, 0);
            let e = Emittable::Dword(vs);
            proof {
                assert(pieces.deep_view().skip(0) =~~= pieces.deep_view());
                assert(e@->Dword_0 =~= spec_get_emittable(line@)->Ok_0->Dword_0);
            }
            Ok(e)
        } else if slice_eq_str(d, "string") || slice_eq_str(d, "asciz") {
            let q1 = char_pos_exec(args, '"');
            if q1 >= args.len() {
                return Err(
                    LexerErr::Parsing(
                        msg_after("Invalid arguments provided for .string directive: ", args),
                    ),
                );
            }
            let rest = slice_skip(args, q1 + 1);
            let q2 = char_pos_exec(rest, '"');
            if q2 >= rest.len() {
                return Err(
                    LexerErr::Parsing(
                        msg_after("Invalid arguments provided for .string directive: ", args),
                    ),
                );
            }
            let content = slice_range_vec(rest, 0, q2);
            proof {
                assert(content@ =~= rest@.take(q2 as int));
            }
            Ok(Emittable::String(string_of(&content)))
        } else if slice_eq_str(d, "zero") {
            let av = vstd::slice::slice_to_vec(args);
            let st = string_of(&av);
            match <usize as ParseFrom>::parse(st.as_str()) {
                Ok(n) => {
                    let mut vs: Vec<RValue<i8>> = Vec::new();
                    let mut j: usize = 0;
                    while j < n
                        invariant
                            0 <= j <= n,
                            vs@.len() == j,
                            forall|k: int| 0 <= k < j ==> vs@[k] == RValue::<i8>::Immediate(0),
                        decreases n - j,
                    {
                        vs.push(RValue::Immediate(0));
                        j = j + 1;
                    }
                    let e = Emittable::Byte(vs);
                    proof {
                        assert(e@->Byte_0 =~= spec_get_emittable(line@)->Ok_0->Byte_0);
                    }
                    Ok(e)
                },
                Err(_) => Err(
                    LexerErr::Parsing(
                        msg_after("Invalid arguments provided for .zero directive: ", args),
                    ),
                ),
            }
        } else {
            Err(LexerErr::Parsing(msg_around("Unable to parse directive: \"", d, "\"")))
        }
    }
}

// ---------------------------------------------------------------------------
// Exec state directives.
// ---------------------------------------------------------------------------

fn filter_signed_exec(ps: &Vec<Vec<char>>, i: usize) -> (r: Vec<Vec<char>>)
    requires
        i <= ps@.len(),
    ensures
        r.deep_view() == filter_signed(ps.deep_view().skip(i as int)),
    decreases ps@.len() - i,
{
    if i == ps.len() {
        let r: Vec<Vec<char>> = Vec::new();
        proof {
            assert(r.deep_view() =~~= filter_signed(ps.deep_view().skip(i as int)));
        }
        r
    } else {
        let keep = is_signed_lit_exec(ps[i].as_slice());
        let mut rest = filter_signed_exec(ps, i + 1);
        let mut r: Vec<Vec<char>> = Vec::new();
        if keep {
            let head = ps[i].clone();
            r.push(head);
        }
        proof {
            assert(ps.deep_view().skip(i as int)[0] =~= ps@[i as int]@);
            assert(ps.deep_view().skip(i as int).skip(1) =~= ps.deep_view().skip(i as int + 1));
        }
        r.append(&mut rest);
        proof {
            assert(r.deep_view() =~~= filter_signed(ps.deep_view().skip(i as int)));
        }
        r
    }
}

fn flags_exec(cs: &[char], i: usize) -> (r: Result<u8, LexerErr>)
    requires
        i <= cs@.len(),
    ensures
        match r {
            Ok(b) => spec_flags(cs@.skip(i as int)) == Ok::<u8, SpecLexerErr>(b),
            Err(e) => spec_flags(cs@.skip(i as int)) == Err::<u8, SpecLexerErr>(e@),
        },
    decreases cs@.len() - i,
{
    if i == cs.len() {
        proof {
            assert(cs@.skip(i as int) =~= Seq::<char>::empty());
        }
        Ok(0)
    } else {
        let c = cs[i];
        proof {
            assert(cs@.skip(i as int)[0] == cs@[i as int]);
            assert(cs@.skip(i as int).skip(1) =~= cs@.skip(i as int + 1));
        }
        let bit: Option<u8> = if c == 'a' {
            Some(0x01)
        } else if c == 'w' {
            Some(0x02)
        } else if c == 'x' {
            Some(0x04)
        } else if c == 'm' {
            Some(0x08)
        } else if c == 's' {
            Some(0x10)
        } else if c == 'g' {
            Some(0x20)
        } else if c == 't' {
            Some(0x40)
        } else {
            None
        };
        match bit {
            None => {
                let mut cv: Vec<char> = Vec::new();
                cv.push(c);
                proof {
                    assert(cv@ =~= seq![c]);
                }
                Err(
                    LexerErr::Parsing(
                        msg_around(
                            "Unexpected section flag identifier: \"",
                            cv.as_slice(),
                            "\"",
                        ),
                    ),
                )
            },
            Some(b) => match flags_exec(cs, i + 1) {
                Ok(rest) => Ok(b | rest),
                Err(e) => Err(e),
            },
        }
    }
}

impl Lexer {
    /// A state directive line (already dot-stripped).
    pub fn get_directive(line: &[char]) -> (r: Result<Directive, LexerErr>)
        ensures
            directive_result_view(r) == spec_get_directive(line@),
    {
        let p = char_pos_exec(line, ' ');
        if p >= line.len() {
            let lv = vstd::slice::slice_to_vec(line);
            if slice_eq_str(line, "text") || slice_eq_str(line, "init") || slice_eq_str(
                line,
                "fini",
            ) {
                Ok(Directive::Section(string_of(&lv), SectionFlags { bits: 0x04 }, 2))
            } else if slice_eq_str(line, "bss") || slice_eq_str(line, "sbss") || slice_eq_str(
                line,
                "rodata",
            ) {
                Ok(Directive::Section(string_of(&lv), SectionFlags { bits: 0x01 }, 2))
            } else if slice_eq_str(line, "data") || slice_eq_str(line, "sdata") {
                Ok(Directive::Section(string_of(&lv), SectionFlags { bits: 0x03 }, 2))
            } else if slice_eq_str(line, "endm") {
                Ok(Directive::Marker(string_of(&lv)))
            } else {
                Err(LexerErr::Parsing(msg_around("Unable to match directive: \"", line, "\"")))
            }
        } else {
            let d = vstd::slice::slice_subrange(line, 0, p);
            proof {
                assert(d@ =~= line@.take(p as int));
            }
            let args = slice_skip(line, p + 1);
            if slice_eq_str(d, "global") || slice_eq_str(d, "globl") {
                let av = vstd::slice::slice_to_vec(args);
                Ok(Directive::Scope(Visibility::Global(string_of(&av))))
            } else if slice_eq_str(d, "local") {
                let av = vstd::slice::slice_to_vec(args);
                Ok(Directive::Scope(Visibility::Local(string_of(&av))))
            } else if slice_eq_str(d, "equ") {
                let c = char_pos_exec(args, ',');
                if c >= args.len() {
                    return Err(
                        LexerErr::Parsing(msg_around("Unable to parse directive: \"", line, "\"")),
                    );
                }
                let name_sl = vstd::slice::slice_subrange(args, 0, c);
                proof {
                    assert(name_sl@ =~= args@.take(c as int));
                }
                let name = trim_slice(name_sl);
                let value = slice_skip(args, c + 1);
                let tv = trim_slice(value);
                let st = string_of(&tv);
                match <i64 as ParseFrom>::parse(st.as_str()) {
                    Ok(n) => Ok(Directive::Equ(string_of(&name), RValue::Immediate(n))),
                    Err(_) => Err(
                        LexerErr::Parsing(msg_after("Unable to parse immediate value: ", value)),
                    ),
                }
            } else if slice_eq_str(d, "macro") {
                let q = char_pos_exec(args, ' ');
                if q >= args.len() {
                    let t = trim_slice(args);
                    let dd = Directive::Macro(string_of(&t), Vec::new());
                    proof {
                        assert(dd@->Macro_1 =~= Seq::<Seq<char>>::empty());
                    }
                    Ok(dd)
                } else {
                    let name_sl = vstd::slice::slice_subrange(args, 0, q);
                    proof {
                        assert(name_sl@ =~= args@.take(q as int));
                    }
                    let nv = vstd::slice::slice_to_vec(name_sl);
                    let parts = split_drop_exec(slice_skip(args, q + 1), ',');
                    let kept = trim_nonempty_exec(&parts, 0);
                    let mut names: Vec<String> = Vec::new();
                    let mut k: usize = 0;
                    proof {
                        assert(parts.deep_view().skip(0) =~~= parts.deep_view());
                    }
                    while k < kept.len()
                        invariant
                            0 <= k <= kept@.len(),
                            names@.len() == k,
                            forall|t: int| 0 <= t < k ==> names.deep_view()[t]
                                == kept.deep_view()[t],
                        decreases kept@.len() - k,
                    {
                        names.push(string_of(&kept[k]));
                        proof {
                            assert(names.deep_view()[k as int] =~= kept.deep_view()[k as int]);
                        }
                        k = k + 1;
                    }
                    let dd = Directive::Macro(string_of(&nv), names);
                    proof {
                        assert(dd@->Macro_1 =~= spec_get_directive(line@)->Ok_0->Macro_1);
                    }
                    Ok(dd)
                }
            } else if slice_eq_str(d, "align") || slice_eq_str(d, "p2align") {
                let parts = split_drop_exec(args, ',');
                let trimmed = trim_all_exec(&parts, 0);
                let kept = filter_signed_exec(&trimmed, 0);
                proof {
                    assert(parts.deep_view().skip(0) =~~= parts.deep_view());
                    assert(trimmed.deep_view().skip(0) =~~= trimmed.deep_view());
                }
                if kept.len() == 0 || kept.len() > 3 {
                    let cnt = dec_string(kept.len());
                    return Err(
                        LexerErr::Syntax(
                            String::from_str("Expected 1-3 arguments. ").concat(
                                cnt.as_str(),
                            ).concat(" arguments were provided."),
                        ),
                    );
                }
                proof {
                    assert(kept.deep_view()[0] =~= kept@[0]@);
                    if kept.deep_view().len() >= 2 {
                        assert(kept.deep_view()[1] =~= kept@[1]@);
                    }
                    if kept.deep_view().len() == 3 {
                        assert(kept.deep_view()[2] =~= kept@[2]@);
                    }
                }
                let s0 = string_of(&kept[0]);
                match <u32 as ParseFrom>::parse(s0.as_str()) {
                    Err(_) => Err(
                        LexerErr::Parsing(
                            String::from_str("Unable to parse alignment value from arguments."),
                        ),
                    ),
                    Ok(a) => {
                        let b: u32 = if kept.len() >= 2 {
                            let s1 = string_of(&kept[1]);
                            match <u32 as ParseFrom>::parse(s1.as_str()) {
                                Ok(v) => v,
                                Err(_) => 0,
                            }
                        } else {
                            0
                        };
                        let cc: u32 = if kept.len() == 3 {
                            let s2 = string_of(&kept[2]);
                            match <u32 as ParseFrom>::parse(s2.as_str()) {
                                Ok(v) => v,
                                Err(_) => 0,
                            }
                        } else {
                            0
                        };
                        Ok(Directive::Alignment(Align::AsPow(a, b, cc)))
                    },
                }
            } else if slice_eq_str(d, "section") {
                let cpos = char_pos_exec(args, ',');
                let nm_sl = vstd::slice::slice_subrange(args, 0, cpos);
                proof {
                    assert(nm_sl@ =~= args@.take(cpos as int));
                }
                let nm_t = trim_slice(nm_sl);
                let name = skip_dots_exec(nm_t.as_slice());
                let q1 = char_pos_exec(args, '"');
                if q1 >= args.len() {
                    return Ok(
                        Directive::Section(string_of(&name), SectionFlags { bits: 0 }, 4),
                    );
                }
                let rest = slice_skip(args, q1 + 1);
                let q2 = char_pos_exec(rest, '"');
                if q2 >= rest.len() {
                    return Ok(
                        Directive::Section(string_of(&name), SectionFlags { bits: 0 }, 4),
                    );
                }
                let flag_sl = vstd::slice::slice_subrange(rest, 0, q2);
                proof {
                    assert(flag_sl@ =~= rest@.take(q2 as int));
                    assert(flag_sl@.skip(0) =~= flag_sl@);
                }
                match flags_exec(flag_sl, 0) {
                    Ok(bits) => Ok(
                        Directive::Section(string_of(&name), SectionFlags { bits }, 4),
                    ),
                    Err(e) => Err(e),
                }
            } else {
                Err(LexerErr::Parsing(msg_around("Unable to parse directive: \"", d, "\"")))
            }
        }
    }

    /// Classifies one cleansed line into a token.
    fn line_token(line: &Vec<char>) -> (r: Result<Token, LexerErr>)
        ensures
            token_result_view(r) == spec_line_token(line@),
    {
        let n = line.len();
        let mut label = false;
        if n >= 2 && line[n - 1] == ':' && ident_start(line[0]) {
            let body = vstd::slice::slice_subrange(line.as_slice(), 0, n - 1);
            proof {
                assert(body@ =~= line@.drop_last());
            }
            if all_ident_exec(body) {
                label = true;
            }
        }
        if label {
            let body = slice_range_vec(line.as_slice(), 0, n - 1);
            proof {
                assert(body@ =~= line@.drop_last());
            }
            return Ok(Token::Label(string_of(&body)));
        }
        if n >= 2 && line[0] == '.' && ident_char(line[1]) {
            let d = skip_dots_exec(line.as_slice());
            match Self::get_emittable_directive(d.as_slice()) {
                Ok(e) => Ok(Token::Emittable(e)),
                Err(_) => match Self::get_directive(d.as_slice()) {
                    Ok(dd) => Ok(Token::Directive(dd)),
                    Err(e) => Err(e),
                },
            }
        } else {
            match Self::get_instruction(line.as_slice()) {
                Ok(e) => Ok(Token::Emittable(e)),
                Err(e) => Err(e),
            }
        }
    }

    /// Tokenizes the cleansed lines from index `i` on.
    fn process(lines: &Vec<Vec<char>>, i: usize) -> (r: Result<Vec<Token>, LexerErr>)
        requires
            i <= lines@.len(),
        ensures
            match r {
                Ok(v) => spec_process_lines(lines.deep_view().skip(i as int)) == Ok::<
                    Seq<SpecToken>,
                    SpecLexerErr,
                >(v.deep_view()),
                Err(e) => spec_process_lines(lines.deep_view().skip(i as int)) == Err::<
                    Seq<SpecToken>,
                    SpecLexerErr,
                >(e@),
            },
        decreases lines@.len() - i,
    {
        if i == lines.len() {
            let r: Vec<Token> = Vec::new();
            proof {
                assert(r.deep_view() =~= Seq::<SpecToken>::empty());
            }
            Ok(r)
        } else {
            proof {
                assert(lines.deep_view().skip(i as int)[0] =~= lines@[i as int]@);
                assert(lines.deep_view().skip(i as int).skip(1) =~= lines.deep_view().skip(
                    i as int + 1,
                ));
            }
            match Self::line_token(&lines[i]) {
                Err(e) => Err(e),
                Ok(t) => match Self::process(lines, i + 1) {
                    Ok(rest) => {
                        let mut r: Vec<Token> = Vec::new();
                        r.push(t);
                        let mut rest_m = rest;
                        r.append(&mut rest_m);
                        proof {
                            assert(r.deep_view() =~= spec_process_lines(
                                lines.deep_view().skip(i as int),
                            )->Ok_0);
                        }
                        Ok(r)
                    },
                    Err(e) => Err(e),
                },
            }
        }
    }

    /// Lexes a source text into its token stream.
    pub fn new(code: &str) -> (r: Result<Self, LexerErr>)
        ensures
            match r {
                Ok(l) => spec_lex(code@) == Ok::<Seq<SpecToken>, SpecLexerErr>(
                    l.tokens.deep_view(),
                ),
                Err(e) => spec_lex(code@) == Err::<Seq<SpecToken>, SpecLexerErr>(e@),
            },
    {
        let lines = cleanse_exec(code);
        proof {
            assert(lines.deep_view().skip(0) =~~= lines.deep_view());
        }
        match Self::process(&lines, 0) {
            Ok(tokens) => Ok(Lexer { tokens }),
            Err(e) => Err(e),
        }
    }
}

} // verus!

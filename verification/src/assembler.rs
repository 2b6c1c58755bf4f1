//! The assembler: drains user macros from the token stream, expands macro
//! and pseudo-instruction invocations, and assembles the remaining tokens
//! into a relocatable object image.

use vstd::prelude::*;
use crate::lexer::{Lexer, LexerErr, SpecLexerErr, Token, SpecToken, Emittable, SpecEmittable, Directive, SpecDirective, Operand, SpecOperand, RValue, SpecRValue, Visibility, spec_lex};
use crate::codec::enc::{Encoder, EncoderErr, SpecEncoderErr, Xlen, spec_encode};
use crate::arch::{spec_isa_lookup, isa_lookup};
use crate::util::{
    str_eq, dec_string, dec_str,
};

verus! {

// ---------------------------------------------------------------------------
// The object image.
// ---------------------------------------------------------------------------

/// The assembler's output: the flat byte image, the deferred relocations
/// (token and byte offset), and the symbol table (label name and byte
/// offset, in insertion order, names unique).
pub struct Object {
    pub binary: Vec<u8>,
    pub relocations: Vec<(Emittable, usize)>,
    pub symbols: Vec<(String, usize)>,
}

/// The mathematical shape of an `Object`.
#[verifier::ext_equal]
pub struct SpecObject {
    pub binary: Seq<u8>,
    pub relocations: Seq<(SpecEmittable, int)>,
    pub symbols: Seq<(Seq<char>, int)>,
}

/// The view of the relocation list.
pub open spec fn relocs_view(rs: Seq<(Emittable, usize)>) -> Seq<(SpecEmittable, int)> {
    rs.map_values(|p: (Emittable, usize)| (p.0@, p.1 as int))
}

/// The view of the symbol table.
pub open spec fn syms_view(ss: Seq<(String, usize)>) -> Seq<(Seq<char>, int)> {
    ss.map_values(|p: (String, usize)| (p.0@, p.1 as int))
}

impl View for Object {
    type V = SpecObject;

    open spec fn view(&self) -> SpecObject {
        SpecObject {
            binary: self.binary@,
            relocations: relocs_view(self.relocations@),
            symbols: syms_view(self.symbols@),
        }
    }
}

impl Object {
    /// An empty object image.
    pub fn new() -> (r: Self)
        ensures
            r@.binary == Seq::<u8>::empty(),
            r@.relocations == Seq::<(SpecEmittable, int)>::empty(),
            r@.symbols == Seq::<(Seq<char>, int)>::empty(),
    {
        let r = Object { binary: Vec::new(), relocations: Vec::new(), symbols: Vec::new() };
        proof {
            assert(r@.relocations =~= Seq::<(SpecEmittable, int)>::empty());
            assert(r@.symbols =~= Seq::<(Seq<char>, int)>::empty());
        }
        r
    }
}

/// Looks a name up in a symbol table.
pub open spec fn sym_lookup(syms: Seq<(Seq<char>, int)>, name: Seq<char>) -> Option<int>
    decreases syms.len(),
{
    if syms.len() == 0 {
        None
    } else if syms[0].0 == name {
        Some(syms[0].1)
    } else {
        sym_lookup(syms.skip(1), name)
    }
}

// ---------------------------------------------------------------------------
// Assembler errors.
// ---------------------------------------------------------------------------

/// Assembler failures: a stage's own error, or a syntax fault found while
/// draining and expanding macros.
#[derive(Debug, Clone, PartialEq)]
pub enum AssemblerErr {
    Encoder(EncoderErr),
    Lexer(LexerErr),
    Syntax(String),
    Other(String),
}

#[verifier::ext_equal]
pub enum SpecAssemblerErr {
    Encoder(SpecEncoderErr),
    Lexer(SpecLexerErr),
    Syntax(Seq<char>),
    Other(Seq<char>),
}

impl View for AssemblerErr {
    type V = SpecAssemblerErr;

    open spec fn view(&self) -> SpecAssemblerErr {
        match self {
            AssemblerErr::Encoder(e) => SpecAssemblerErr::Encoder(e@),
            AssemblerErr::Lexer(e) => SpecAssemblerErr::Lexer(e@),
            AssemblerErr::Syntax(s) => SpecAssemblerErr::Syntax(s@),
            AssemblerErr::Other(s) => SpecAssemblerErr::Other(s@),
        }
    }
}

// ---------------------------------------------------------------------------
// Token constructors and copies.
// ---------------------------------------------------------------------------

pub open spec fn sop_reg(b: char, i: u32) -> SpecOperand {
    SpecOperand::RValue(SpecRValue::Register(b, i))
}

pub open spec fn sop_id(n: Seq<char>) -> SpecOperand {
    SpecOperand::RValue(SpecRValue::Identifier(n))
}

pub open spec fn sop_imm(v: i64) -> SpecOperand {
    SpecOperand::RValue(SpecRValue::Immediate(v))
}

pub open spec fn sop_reloc(f: Seq<char>, sym: Seq<char>) -> SpecOperand {
    SpecOperand::RelocationFn(f, SpecRValue::Identifier(sym))
}

/// An instruction token.
pub open spec fn spec_ins(m: Seq<char>, ops: Seq<SpecOperand>) -> SpecToken {
    SpecToken::Emittable(SpecEmittable::Instruction(m, ops))
}

fn op_reg(b: char, i: u32) -> (o: Operand)
    ensures
        o@ == sop_reg(b, i),
{
    Operand::RValue(RValue::Register(b, i))
}

fn op_id(n: &str) -> (o: Operand)
    ensures
        o@ == sop_id(n@),
{
    Operand::RValue(RValue::Identifier(String::from_str(n)))
}

fn op_imm(v: i64) -> (o: Operand)
    ensures
        o@ == sop_imm(v),
{
    Operand::RValue(RValue::Immediate(v))
}

fn op_reloc(f: &str, sym: &str) -> (o: Operand)
    ensures
        o@ == sop_reloc(f@, sym@),
{
    Operand::RelocationFn(String::from_str(f), RValue::Identifier(String::from_str(sym)))
}

fn ins2(m: &str, a: Operand, b: Operand) -> (t: Token)
    ensures
        t@ == spec_ins(m@, seq![a@, b@]),
{
    let mut ops: Vec<Operand> = Vec::new();
    ops.push(a);
    ops.push(b);
    let t = Token::Emittable(Emittable::Instruction(String::from_str(m), ops));
    proof {
        assert(t@->Emittable_0->Instruction_1 =~= seq![a@, b@]);
    }
    t
}

fn ins3(m: &str, a: Operand, b: Operand, c: Operand) -> (t: Token)
    ensures
        t@ == spec_ins(m@, seq![a@, b@, c@]),
{
    let mut ops: Vec<Operand> = Vec::new();
    ops.push(a);
    ops.push(b);
    ops.push(c);
    let t = Token::Emittable(Emittable::Instruction(String::from_str(m), ops));
    proof {
        assert(t@->Emittable_0->Instruction_1 =~= seq![a@, b@, c@]);
    }
    t
}

fn strs0() -> (r: Vec<String>)
    ensures
        r.deep_view() == Seq::<Seq<char>>::empty(),
{
    let r: Vec<String> = Vec::new();
    proof {
        assert(r.deep_view() =~= Seq::<Seq<char>>::empty());
    }
    r
}

fn strs1(a: &str) -> (r: Vec<String>)
    ensures
        r.deep_view() == seq![a@],
{
    let mut r: Vec<String> = Vec::new();
    r.push(String::from_str(a));
    proof {
        assert(r.deep_view() =~= seq![a@]);
    }
    r
}

fn strs2(a: &str, b: &str) -> (r: Vec<String>)
    ensures
        r.deep_view() == seq![a@, b@],
{
    let mut r: Vec<String> = Vec::new();
    r.push(String::from_str(a));
    r.push(String::from_str(b));
    proof {
        assert(r.deep_view() =~= seq![a@, b@]);
    }
    r
}

fn strs3(a: &str, b: &str, c: &str) -> (r: Vec<String>)
    ensures
        r.deep_view() == seq![a@, b@, c@],
{
    let mut r: Vec<String> = Vec::new();
    r.push(String::from_str(a));
    r.push(String::from_str(b));
    r.push(String::from_str(c));
    proof {
        assert(r.deep_view() =~= seq![a@, b@, c@]);
    }
    r
}

fn toks1(a: Token) -> (r: Vec<Token>)
    ensures
        r.deep_view() == seq![a@],
{
    let mut r: Vec<Token> = Vec::new();
    r.push(a);
    proof {
        assert(r.deep_view() =~= seq![r@[0]@]);
    }
    r
}

fn toks2(a: Token, b: Token) -> (r: Vec<Token>)
    ensures
        r.deep_view() == seq![a@, b@],
{
    let ga = Ghost(a@);
    let gb = Ghost(b@);
    let mut r: Vec<Token> = Vec::new();
    r.push(a);
    r.push(b);
    proof {
        assert(r.deep_view() =~= seq![ga@, gb@]);
    }
    r
}

fn toks5(a: Token, b: Token, c: Token, d: Token, e: Token) -> (r: Vec<Token>)
    ensures
        r.deep_view() == seq![a@, b@, c@, d@, e@],
{
    let ga = Ghost(a@);
    let gb = Ghost(b@);
    let gc = Ghost(c@);
    let gd = Ghost(d@);
    let ge = Ghost(e@);
    let mut r: Vec<Token> = Vec::new();
    r.push(a);
    r.push(b);
    r.push(c);
    r.push(d);
    r.push(e);
    proof {
        assert(r.deep_view() =~= seq![ga@, gb@, gc@, gd@, ge@]);
    }
    r
}

/// A value-identical copy of an operand value.
fn copy_rvalue(v: &RValue<i64>) -> (r: RValue<i64>)
    ensures
        r@ == v@,
{
    match v {
        RValue::Register(b, i) => RValue::Register(*b, *i),
        RValue::Identifier(s) => RValue::Identifier(s.clone()),
        RValue::Immediate(x) => RValue::Immediate(*x),
    }
}

/// A value-identical copy of an operand.
fn copy_operand(o: &Operand) -> (r: Operand)
    ensures
        r@ == o@,
{
    match o {
        Operand::RValue(rv) => Operand::RValue(copy_rvalue(rv)),
        Operand::RelocationFn(f, rv) => Operand::RelocationFn(f.clone(), copy_rvalue(rv)),
        Operand::Address(b, off) => Operand::Address(copy_rvalue(b), copy_rvalue(off)),
    }
}

fn copy_operands(v: &Vec<Operand>) -> (r: Vec<Operand>)
    ensures
        r.deep_view() == v.deep_view(),
{
    let mut r: Vec<Operand> = Vec::new();
    let mut i: usize = 0;
    while i < v.len()
        invariant
            0 <= i <= v@.len(),
            r@.len() == i,
            forall|j: int| 0 <= j < i ==> r.deep_view()[j] == v.deep_view()[j],
        decreases v@.len() - i,
    {
        let c = copy_operand(&v[i]);
        r.push(c);
        i = i + 1;
    }
    proof {
        assert(r.deep_view() =~= v.deep_view());
    }
    r
}

fn copy_rvalues_i8(v: &Vec<RValue<i8>>) -> (r: Vec<RValue<i8>>)
    ensures
        r.deep_view() == v.deep_view(),
{
    let mut r: Vec<RValue<i8>> = Vec::new();
    let mut i: usize = 0;
    while i < v.len()
        invariant
            0 <= i <= v@.len(),
            r@.len() == i,
            forall|j: int| 0 <= j < i ==> r.deep_view()[j] == v.deep_view()[j],
        decreases v@.len() - i,
    {
        let c: RValue<i8> = match &v[i] {
            RValue::Register(b, k) => RValue::Register(*b, *k),
            RValue::Identifier(s) => RValue::Identifier(s.clone()),
            RValue::Immediate(x) => RValue::Immediate(*x),
        };
        r.push(c);
        i = i + 1;
    }
    proof {
        assert(r.deep_view() =~= v.deep_view());
    }
    r
}

fn copy_rvalues_i16(v: &Vec<RValue<i16>>) -> (r: Vec<RValue<i16>>)
    ensures
        r.deep_view() == v.deep_view(),
{
    let mut r: Vec<RValue<i16>> = Vec::new();
    let mut i: usize = 0;
    while i < v.len()
        invariant
            0 <= i <= v@.len(),
            r@.len() == i,
            forall|j: int| 0 <= j < i ==> r.deep_view()[j] == v.deep_view()[j],
        decreases v@.len() - i,
    {
        let c: RValue<i16> = match &v[i] {
            RValue::Register(b, k) => RValue::Register(*b, *k),
            RValue::Identifier(s) => RValue::Identifier(s.clone()),
            RValue::Immediate(x) => RValue::Immediate(*x),
        };
        r.push(c);
        i = i + 1;
    }
    proof {
        assert(r.deep_view() =~= v.deep_view());
    }
    r
}

fn copy_rvalues_i32(v: &Vec<RValue<i32>>) -> (r: Vec<RValue<i32>>)
    ensures
        r.deep_view() == v.deep_view(),
{
    let mut r: Vec<RValue<i32>> = Vec::new();
    let mut i: usize = 0;
    while i < v.len()
        invariant
            0 <= i <= v@.len(),
            r@.len() == i,
            forall|j: int| 0 <= j < i ==> r.deep_view()[j] == v.deep_view()[j],
        decreases v@.len() - i,
    {
        let c: RValue<i32> = match &v[i] {
            RValue::Register(b, k) => RValue::Register(*b, *k),
            RValue::Identifier(s) => RValue::Identifier(s.clone()),
            RValue::Immediate(x) => RValue::Immediate(*x),
        };
        r.push(c);
        i = i + 1;
    }
    proof {
        assert(r.deep_view() =~= v.deep_view());
    }
    r
}

fn copy_rvalues_i64(v: &Vec<RValue<i64>>) -> (r: Vec<RValue<i64>>)
    ensures
        r.deep_view() == v.deep_view(),
{
    let mut r: Vec<RValue<i64>> = Vec::new();
    let mut i: usize = 0;
    while i < v.len()
        invariant
            0 <= i <= v@.len(),
            r@.len() == i,
            forall|j: int| 0 <= j < i ==> r.deep_view()[j] == v.deep_view()[j],
        decreases v@.len() - i,
    {
        let c = copy_rvalue(&v[i]);
        r.push(c);
        i = i + 1;
    }
    proof {
        assert(r.deep_view() =~= v.deep_view());
    }
    r
}

/// A value-identical copy of an emittable token.
fn copy_emittable(e: &Emittable) -> (r: Emittable)
    ensures
        r@ == e@,
{
    let r = match e {
        Emittable::Byte(vs) => Emittable::Byte(copy_rvalues_i8(vs)),
        Emittable::Half(vs) => Emittable::Half(copy_rvalues_i16(vs)),
        Emittable::Word(vs) => Emittable::Word(copy_rvalues_i32(vs)),
        Emittable::Dword(vs) => Emittable::Dword(copy_rvalues_i64(vs)),
        Emittable::String(s) => Emittable::String(s.clone()),
        Emittable::Instruction(m, ops) => Emittable::Instruction(m.clone(), copy_operands(ops)),
    };
    proof {
        assert(r@ =~~= e@);
    }
    r
}

fn copy_strings(v: &Vec<String>) -> (r: Vec<String>)
    ensures
        r.deep_view() == v.deep_view(),
{
    let mut r: Vec<String> = Vec::new();
    let mut i: usize = 0;
    while i < v.len()
        invariant
            0 <= i <= v@.len(),
            r@.len() == i,
            forall|j: int| 0 <= j < i ==> r.deep_view()[j] == v.deep_view()[j],
        decreases v@.len() - i,
    {
        let c = v[i].clone();
        r.push(c);
        i = i + 1;
    }
    proof {
        assert(r.deep_view() =~= v.deep_view());
    }
    r
}

/// A value-identical copy of a token.
fn copy_token(t: &Token) -> (r: Token)
    ensures
        r@ == t@,
{
    let r = match t {
        Token::Emittable(e) => Token::Emittable(copy_emittable(e)),
        Token::Label(s) => Token::Label(s.clone()),
        Token::Directive(d) => Token::Directive(
            match d {
                Directive::Alignment(a) => Directive::Alignment(*a),
                Directive::Section(n, f, al) => Directive::Section(n.clone(), *f, *al),
                Directive::Equ(n, v) => Directive::Equ(n.clone(), copy_rvalue(v)),
                Directive::Scope(v) => Directive::Scope(
                    match v {
                        Visibility::Local(s) => Visibility::Local(s.clone()),
                        Visibility::Global(s) => Visibility::Global(s.clone()),
                    },
                ),
                Directive::Macro(n, args) => Directive::Macro(n.clone(), copy_strings(args)),
                Directive::Marker(n) => Directive::Marker(n.clone()),
            },
        ),
    };
    proof {
        assert(r@ =~~= t@);
    }
    r
}

fn copy_tokens(v: &Vec<Token>) -> (r: Vec<Token>)
    ensures
        r.deep_view() == v.deep_view(),
{
    let mut r: Vec<Token> = Vec::new();
    let mut i: usize = 0;
    while i < v.len()
        invariant
            0 <= i <= v@.len(),
            r@.len() == i,
            forall|j: int| 0 <= j < i ==> r.deep_view()[j] == v.deep_view()[j],
        decreases v@.len() - i,
    {
        let c = copy_token(&v[i]);
        r.push(c);
        i = i + 1;
    }
    proof {
        assert(r.deep_view() =~= v.deep_view());
    }
    r
}

// ---------------------------------------------------------------------------
// The pseudo-instruction table.
// ---------------------------------------------------------------------------

/// The view of a pseudo-table entry.
pub open spec fn pseudo_view(r: Option<(Vec<String>, Vec<Token>)>) -> Option<
    (Seq<Seq<char>>, Seq<SpecToken>),
> {
    match r {
        Some((f, b)) => Some((f.deep_view(), b.deep_view())),
        None => None,
    }
}

/// The pseudo-instruction table: formal parameters and the pre-lexed body.
pub open spec fn spec_pseudo_lookup(s: Seq<char>) -> Option<(Seq<Seq<char>>, Seq<SpecToken>)> {
    if s == "nop"@ {
        Some((Seq::<Seq<char>>::empty(), seq![spec_ins("addi"@, seq![sop_reg('x', 0), sop_reg('x', 0), sop_imm(0)])]))
    } else if s == "mv"@ {
        Some((seq!["rd"@, "rs"@], seq![spec_ins("addi"@, seq![sop_id("rd"@), sop_id("rs"@), sop_imm(0)])]))
    } else if s == "not"@ {
        Some((seq!["rd"@, "rs1"@], seq![spec_ins("xori"@, seq![sop_id("rd"@), sop_id("rs1"@), sop_imm(-1i64)])]))
    } else if s == "neg"@ {
        Some((seq!["rd"@, "rs1"@], seq![spec_ins("sub"@, seq![sop_id("rd"@), sop_reg('x', 0), sop_id("rs1"@)])]))
    } else if s == "negw"@ {
        Some((seq!["rd"@, "rs1"@], seq![spec_ins("subw"@, seq![sop_id("rd"@), sop_reg('x', 0), sop_id("rs1"@)])]))
    } else if s == "sext.w"@ {
        Some((seq!["rd"@, "rs1"@], seq![spec_ins("addiw"@, seq![sop_id("rd"@), sop_id("rs1"@), sop_imm(0)])]))
    } else if s == "seqz"@ {
        Some((seq!["rd"@, "rs1"@], seq![spec_ins("sltiu"@, seq![sop_id("rd"@), sop_id("rs1"@), sop_imm(1)])]))
    } else if s == "snez"@ {
        Some((seq!["rd"@, "rs1"@], seq![spec_ins("sltu"@, seq![sop_id("rd"@), sop_reg('x', 0), sop_id("rs1"@)])]))
    } else if s == "sltz"@ {
        Some((seq!["rd"@, "rs1"@], seq![spec_ins("slt"@, seq![sop_id("rd"@), sop_id("rs1"@), sop_reg('x', 0)])]))
    } else if s == "sgtz"@ {
        Some((seq!["rd"@, "rs1"@], seq![spec_ins("slt"@, seq![sop_id("rd"@), sop_reg('x', 0), sop_id("rs1"@)])]))
    } else if s == "fmv.s"@ {
        Some((seq!["frd"@, "frs1"@], seq![spec_ins("fsgnj.s"@, seq![sop_id("frd"@), sop_id("frs1"@), sop_id("frs1"@)])]))
    } else if s == "fabs.s"@ {
        Some((seq!["frd"@, "frs1"@], seq![spec_ins("fsgnjx.s"@, seq![sop_id("frd"@), sop_id("frs1"@), sop_id("frs1"@)])]))
    } else if s == "fneg.s"@ {
        Some((seq!["frd"@, "frs1"@], seq![spec_ins("fsgnjn.s"@, seq![sop_id("frd"@), sop_id("frs1"@), sop_id("frs1"@)])]))
    } else if s == "fmv.d"@ {
        Some((seq!["frd"@, "frs1"@], seq![spec_ins("fsgnj.d"@, seq![sop_id("frd"@), sop_id("frs1"@), sop_id("frs1"@)])]))
    } else if s == "fabs.d"@ {
        Some((seq!["frd"@, "frs1"@], seq![spec_ins("fsgnjx.d"@, seq![sop_id("frd"@), sop_id("frs1"@), sop_id("frs1"@)])]))
    } else if s == "fneg.d"@ {
        Some((seq!["frd"@, "frs1"@], seq![spec_ins("fsgnjn.d"@, seq![sop_id("frd"@), sop_id("frs1"@), sop_id("frs1"@)])]))
    } else if s == "beqz"@ {
        Some((seq!["rs1"@, "offset"@], seq![spec_ins("beq"@, seq![sop_id("rs1"@), sop_reg('x', 0), sop_id("offset"@)])]))
    } else if s == "bnez"@ {
        Some((seq!["rs1"@, "offset"@], seq![spec_ins("bne"@, seq![sop_id("rs1"@), sop_reg('x', 0), sop_id("offset"@)])]))
    } else if s == "blez"@ {
        Some((seq!["rs1"@, "offset"@], seq![spec_ins("bge"@, seq![sop_reg('x', 0), sop_id("rs1"@), sop_id("offset"@)])]))
    } else if s == "bgez"@ {
        Some((seq!["rs1"@, "offset"@], seq![spec_ins("bge"@, seq![sop_id("rs1"@), sop_reg('x', 0), sop_id("offset"@)])]))
    } else if s == "bltz"@ {
        Some((seq!["rs1"@, "offset"@], seq![spec_ins("blt"@, seq![sop_id("rs1"@), sop_reg('x', 0), sop_id("offset"@)])]))
    } else if s == "bgtz"@ {
        Some((seq!["rs1"@, "offset"@], seq![spec_ins("blt"@, seq![sop_reg('x', 0), sop_id("rs1"@), sop_id("offset"@)])]))
    } else if s == "bgt"@ {
        Some((seq!["rs"@, "rt"@, "offset"@], seq![spec_ins("blt"@, seq![sop_id("rt"@), sop_id("rs"@), sop_id("offset"@)])]))
    } else if s == "ble"@ {
        Some((seq!["rs"@, "rt"@, "offset"@], seq![spec_ins("bge"@, seq![sop_id("rt"@), sop_id("rs"@), sop_id("offset"@)])]))
    } else if s == "bgtu"@ {
        Some((seq!["rs"@, "rt"@, "offset"@], seq![spec_ins("bltu"@, seq![sop_id("rt"@), sop_id("rs"@), sop_id("offset"@)])]))
    } else if s == "bleu"@ {
        Some((seq!["rt"@, "rs"@, "offset"@], seq![spec_ins("bltu"@, seq![sop_id("rt"@), sop_id("rs"@), sop_id("offset"@)])]))
    } else if s == "j"@ {
        Some((seq!["offset"@], seq![spec_ins("jal"@, seq![sop_reg('x', 0), sop_id("offset"@)])]))
    } else if s == "jr"@ {
        Some((seq!["offset"@], seq![spec_ins("jal"@, seq![sop_reg('x', 1), sop_id("offset"@)])]))
    } else if s == "ret"@ {
        Some((Seq::<Seq<char>>::empty(), seq![spec_ins("jalr"@, seq![sop_reg('x', 0), sop_reg('x', 1), sop_imm(0)])]))
    } else if s == "li.16"@ {
        Some((seq!["rd"@, "imm"@], seq![spec_ins("addi"@, seq![sop_id("rd"@), sop_reg('x', 0), sop_id("imm"@)])]))
    } else if s == "li.32"@ {
        Some((seq!["rd"@, "imm"@], seq![spec_ins("lui"@, seq![sop_id("rd"@), sop_reloc("%hi"@, "imm"@)]), spec_ins("addi"@, seq![sop_id("rd"@), sop_id("rd"@), sop_reloc("%lo"@, "imm"@)])]))
    } else if s == "li.64"@ {
        Some((seq!["rd"@, "imm"@], seq![spec_ins("lui"@, seq![sop_id("rd"@), sop_reloc("%highest"@, "imm"@)]), spec_ins("addi"@, seq![sop_id("rd"@), sop_id("rd"@), sop_reloc("%higher"@, "imm"@)]), spec_ins("slli"@, seq![sop_id("rd"@), sop_id("rd"@), sop_imm(32)]), spec_ins("addi"@, seq![sop_id("rd"@), sop_id("rd"@), sop_reloc("%hi"@, "imm"@)]), spec_ins("addi"@, seq![sop_id("rd"@), sop_id("rd"@), sop_reloc("%lo"@, "imm"@)])]))
    } else if s == "la.16"@ {
        Some((seq!["rd"@, "symbol"@], seq![spec_ins("auipc"@, seq![sop_id("rd"@), sop_reloc("%pcrel_hi"@, "symbol"@)]), spec_ins("addi"@, seq![sop_id("rd"@), sop_id("rd"@), sop_reloc("%pcrel_lo"@, "symbol"@)])]))
    } else if s == "la.32"@ {
        Some((seq!["rd"@, "symbol"@], seq![spec_ins("lui"@, seq![sop_id("rd"@), sop_reloc("%hi"@, "symbol"@)]), spec_ins("addi"@, seq![sop_id("rd"@), sop_id("rd"@), sop_reloc("%lo"@, "symbol"@)])]))
    } else if s == "la.64"@ {
        Some((seq!["rd"@, "symbol"@], seq![spec_ins("lui"@, seq![sop_id("rd"@), sop_reloc("%highest"@, "symbol"@)]), spec_ins("addi"@, seq![sop_id("rd"@), sop_id("rd"@), sop_reloc("%higher"@, "symbol"@)]), spec_ins("slli"@, seq![sop_id("rd"@), sop_id("rd"@), sop_imm(32)]), spec_ins("addi"@, seq![sop_id("rd"@), sop_id("rd"@), sop_reloc("%hi"@, "symbol"@)]), spec_ins("addi"@, seq![sop_id("rd"@), sop_id("rd"@), sop_reloc("%lo"@, "symbol"@)])]))
    } else {
        None
    }
}

/// Exec lookup in the pseudo-instruction table, building a fresh body.
pub fn pseudo_lookup(m: &str) -> (r: Option<(Vec<String>, Vec<Token>)>)
    ensures
        pseudo_view(r) == spec_pseudo_lookup(m@),
{
    if str_eq(m, "nop") {
        let formals = strs0();
        let body = toks1(ins3("addi", op_reg('x', 0), op_reg('x', 0), op_imm(0)));
        Some((formals, body))
    } else if str_eq(m, "mv") {
        let formals = strs2("rd", "rs");
        let body = toks1(ins3("addi", op_id("rd"), op_id("rs"), op_imm(0)));
        Some((formals, body))
    } else if str_eq(m, "not") {
        let formals = strs2("rd", "rs1");
        let body = toks1(ins3("xori", op_id("rd"), op_id("rs1"), op_imm(-1)));
        Some((formals, body))
    } else if str_eq(m, "neg") {
        let formals = strs2("rd", "rs1");
        let body = toks1(ins3("sub", op_id("rd"), op_reg('x', 0), op_id("rs1")));
        Some((formals, body))
    } else if str_eq(m, "negw") {
        let formals = strs2("rd", "rs1");
        let body = toks1(ins3("subw", op_id("rd"), op_reg('x', 0), op_id("rs1")));
        Some((formals, body))
    } else if str_eq(m, "sext.w") {
        let formals = strs2("rd", "rs1");
        let body = toks1(ins3("addiw", op_id("rd"), op_id("rs1"), op_imm(0)));
        Some((formals, body))
    } else if str_eq(m, "seqz") {
        let formals = strs2("rd", "rs1");
        let body = toks1(ins3("sltiu", op_id("rd"), op_id("rs1"), op_imm(1)));
        Some((formals, body))
    } else if str_eq(m, "snez") {
        let formals = strs2("rd", "rs1");
        let body = toks1(ins3("sltu", op_id("rd"), op_reg('x', 0), op_id("rs1")));
        Some((formals, body))
    } else if str_eq(m, "sltz") {
        let formals = strs2("rd", "rs1");
        let body = toks1(ins3("slt", op_id("rd"), op_id("rs1"), op_reg('x', 0)));
        Some((formals, body))
    } else if str_eq(m, "sgtz") {
        let formals = strs2("rd", "rs1");
        let body = toks1(ins3("slt", op_id("rd"), op_reg('x', 0), op_id("rs1")));
        Some((formals, body))
    } else if str_eq(m, "fmv.s") {
        let formals = strs2("frd", "frs1");
        let body = toks1(ins3("fsgnj.s", op_id("frd"), op_id("frs1"), op_id("frs1")));
        Some((formals, body))
    } else if str_eq(m, "fabs.s") {
        let formals = strs2("frd", "frs1");
        let body = toks1(ins3("fsgnjx.s", op_id("frd"), op_id("frs1"), op_id("frs1")));
        Some((formals, body))
    } else if str_eq(m, "fneg.s") {
        let formals = strs2("frd", "frs1");
        let body = toks1(ins3("fsgnjn.s", op_id("frd"), op_id("frs1"), op_id("frs1")));
        Some((formals, body))
    } else if str_eq(m, "fmv.d") {
        let formals = strs2("frd", "frs1");
        let body = toks1(ins3("fsgnj.d", op_id("frd"), op_id("frs1"), op_id("frs1")));
        Some((formals, body))
    } else if str_eq(m, "fabs.d") {
        let formals = strs2("frd", "frs1");
        let body = toks1(ins3("fsgnjx.d", op_id("frd"), op_id("frs1"), op_id("frs1")));
        Some((formals, body))
    } else if str_eq(m, "fneg.d") {
        let formals = strs2("frd", "frs1");
        let body = toks1(ins3("fsgnjn.d", op_id("frd"), op_id("frs1"), op_id("frs1")));
        Some((formals, body))
    } else if str_eq(m, "beqz") {
        let formals = strs2("rs1", "offset");
        let body = toks1(ins3("beq", op_id("rs1"), op_reg('x', 0), op_id("offset")));
        Some((formals, body))
    } else if str_eq(m, "bnez") {
        let formals = strs2("rs1", "offset");
        let body = toks1(ins3("bne", op_id("rs1"), op_reg('x', 0), op_id("offset")));
        Some((formals, body))
    } else if str_eq(m, "blez") {
        let formals = strs2("rs1", "offset");
        let body = toks1(ins3("bge", op_reg('x', 0), op_id("rs1"), op_id("offset")));
        Some((formals, body))
    } else if str_eq(m, "bgez") {
        let formals = strs2("rs1", "offset");
        let body = toks1(ins3("bge", op_id("rs1"), op_reg('x', 0), op_id("offset")));
        Some((formals, body))
    } else if str_eq(m, "bltz") {
        let formals = strs2("rs1", "offset");
        let body = toks1(ins3("blt", op_id("rs1"), op_reg('x', 0), op_id("offset")));
        Some((formals, body))
    } else if str_eq(m, "bgtz") {
        let formals = strs2("rs1", "offset");
        let body = toks1(ins3("blt", op_reg('x', 0), op_id("rs1"), op_id("offset")));
        Some((formals, body))
    } else if str_eq(m, "bgt") {
        let formals = strs3("rs", "rt", "offset");
        let body = toks1(ins3("blt", op_id("rt"), op_id("rs"), op_id("offset")));
        Some((formals, body))
    } else if str_eq(m, "ble") {
        let formals = strs3("rs", "rt", "offset");
        let body = toks1(ins3("bge", op_id("rt"), op_id("rs"), op_id("offset")));
        Some((formals, body))
    } else if str_eq(m, "bgtu") {
        let formals = strs3("rs", "rt", "offset");
        let body = toks1(ins3("bltu", op_id("rt"), op_id("rs"), op_id("offset")));
        Some((formals, body))
    } else if str_eq(m, "bleu") {
        let formals = strs3("rt", "rs", "offset");
        let body = toks1(ins3("bltu", op_id("rt"), op_id("rs"), op_id("offset")));
        Some((formals, body))
    } else if str_eq(m, "j") {
        let formals = strs1("offset");
        let body = toks1(ins2("jal", op_reg('x', 0), op_id("offset")));
        Some((formals, body))
    } else if str_eq(m, "jr") {
        let formals = strs1("offset");
        let body = toks1(ins2("jal", op_reg('x', 1), op_id("offset")));
        Some((formals, body))
    } else if str_eq(m, "ret") {
        let formals = strs0();
        let body = toks1(ins3("jalr", op_reg('x', 0), op_reg('x', 1), op_imm(0)));
        Some((formals, body))
    } else if str_eq(m, "li.16") {
        let formals = strs2("rd", "imm");
        let body = toks1(ins3("addi", op_id("rd"), op_reg('x', 0), op_id("imm")));
        Some((formals, body))
    } else if str_eq(m, "li.32") {
        let formals = strs2("rd", "imm");
        let body = toks2(ins2("lui", op_id("rd"), op_reloc("%hi", "imm")), ins3("addi", op_id("rd"), op_id("rd"), op_reloc("%lo", "imm")));
        Some((formals, body))
    } else if str_eq(m, "li.64") {
        let formals = strs2("rd", "imm");
        let body = toks5(ins2("lui", op_id("rd"), op_reloc("%highest", "imm")), ins3("addi", op_id("rd"), op_id("rd"), op_reloc("%higher", "imm")), ins3("slli", op_id("rd"), op_id("rd"), op_imm(32)), ins3("addi", op_id("rd"), op_id("rd"), op_reloc("%hi", "imm")), ins3("addi", op_id("rd"), op_id("rd"), op_reloc("%lo", "imm")));
        Some((formals, body))
    } else if str_eq(m, "la.16") {
        let formals = strs2("rd", "symbol");
        let body = toks2(ins2("auipc", op_id("rd"), op_reloc("%pcrel_hi", "symbol")), ins3("addi", op_id("rd"), op_id("rd"), op_reloc("%pcrel_lo", "symbol")));
        Some((formals, body))
    } else if str_eq(m, "la.32") {
        let formals = strs2("rd", "symbol");
        let body = toks2(ins2("lui", op_id("rd"), op_reloc("%hi", "symbol")), ins3("addi", op_id("rd"), op_id("rd"), op_reloc("%lo", "symbol")));
        Some((formals, body))
    } else if str_eq(m, "la.64") {
        let formals = strs2("rd", "symbol");
        let body = toks5(ins2("lui", op_id("rd"), op_reloc("%highest", "symbol")), ins3("addi", op_id("rd"), op_id("rd"), op_reloc("%higher", "symbol")), ins3("slli", op_id("rd"), op_id("rd"), op_imm(32)), ins3("addi", op_id("rd"), op_id("rd"), op_reloc("%hi", "symbol")), ins3("addi", op_id("rd"), op_id("rd"), op_reloc("%lo", "symbol")));
        Some((formals, body))
    } else {
        None
    }
}

/// The assembler: drives the pipeline and holds the finished object.
pub struct Assembler {
    pub object: Object,
}

// ---------------------------------------------------------------------------
// Stage 1: draining macros.
// ---------------------------------------------------------------------------

/// Is the token the `endm` marker?
pub open spec fn is_endm(t: SpecToken) -> bool {
    match t {
        SpecToken::Directive(SpecDirective::Marker(n)) => n == "endm"@,
        _ => false,
    }
}

/// The index of the first `endm` marker, or the length if absent.
pub open spec fn endm_pos(ts: Seq<SpecToken>) -> int
    decreases ts.len(),
{
    if ts.len() == 0 {
        0
    } else if is_endm(ts[0]) {
        0
    } else {
        1 + endm_pos(ts.skip(1))
    }
}

pub proof fn lemma_endm_pos_props(ts: Seq<SpecToken>)
    ensures
        0 <= endm_pos(ts) <= ts.len(),
        endm_pos(ts) < ts.len() ==> is_endm(ts[endm_pos(ts)]),
        forall|j: int| 0 <= j < endm_pos(ts) ==> !is_endm(ts[j]),
    decreases ts.len(),
{
    if ts.len() > 0 && !is_endm(ts[0]) {
        lemma_endm_pos_props(ts.skip(1));
        assert(forall|j: int| 1 <= j < endm_pos(ts) ==> ts[j] == ts.skip(1)[j - 1]);
    }
}

pub proof fn lemma_endm_pos_at(ts: Seq<SpecToken>, i: int)
    requires
        0 <= i <= ts.len(),
        forall|j: int| 0 <= j < i ==> !is_endm(ts[j]),
        i < ts.len() ==> is_endm(ts[i]),
    ensures
        endm_pos(ts) == i,
    decreases i,
{
    if ts.len() == 0 {
    } else if i == 0 {
    } else {
        assert(!is_endm(ts[0]));
        let t = ts.skip(1);
        assert(forall|j: int| 0 <= j < i - 1 ==> t[j] == ts[j + 1] && !is_endm(ts[j + 1]));
        assert(i - 1 < t.len() ==> t[i - 1] == ts[i]);
        lemma_endm_pos_at(t, i - 1);
    }
}

/// A name that collides with the ISA table or the pseudo table.
pub open spec fn is_reserved_name(s: Seq<char>) -> bool {
    spec_isa_lookup(s) is Some || spec_pseudo_lookup(s) is Some
}

/// One user macro: name, formal parameters, body.
pub open spec fn spec_drain_macros(ts: Seq<SpecToken>) -> Result<
    (Seq<SpecToken>, Seq<(Seq<char>, Seq<Seq<char>>, Seq<SpecToken>)>),
    SpecAssemblerErr,
>
    decreases ts.len(),
    via spec_drain_macros_decreases
{
    if ts.len() == 0 {
        Ok((Seq::empty(), Seq::empty()))
    } else {
        match ts[0] {
            SpecToken::Directive(SpecDirective::Macro(name, args)) => {
                if is_reserved_name(name) {
                    Err(SpecAssemblerErr::Syntax("\""@ + name + "\" is a reserved keyword."@))
                } else {
                    let tail = ts.skip(1);
                    let e = endm_pos(tail);
                    if e >= tail.len() {
                        Err(
                            SpecAssemblerErr::Syntax(
                                "\""@ + name + "\" expected an end marker."@,
                            ),
                        )
                    } else {
                        match spec_drain_macros(tail.skip(e + 1)) {
                            Ok((stream, dict)) => Ok(
                                (stream, seq![(name, args, tail.take(e))] + dict),
                            ),
                            Err(er) => Err(er),
                        }
                    }
                }
            },
            _ => match spec_drain_macros(ts.skip(1)) {
                Ok((stream, dict)) => Ok((seq![ts[0]] + stream, dict)),
                Err(er) => Err(er),
            },
        }
    }
}

#[via_fn]
proof fn spec_drain_macros_decreases(ts: Seq<SpecToken>) {
    if ts.len() > 0 {
        lemma_endm_pos_props(ts.skip(1));
    }
}

/// Looks a macro name up in the drained dictionary; the first definition
/// wins.
pub open spec fn macro_lookup(
    dict: Seq<(Seq<char>, Seq<Seq<char>>, Seq<SpecToken>)>,
    name: Seq<char>,
) -> Option<(Seq<Seq<char>>, Seq<SpecToken>)>
    decreases dict.len(),
{
    if dict.len() == 0 {
        None
    } else if dict[0].0 == name {
        Some((dict[0].1, dict[0].2))
    } else {
        macro_lookup(dict.skip(1), name)
    }
}

// ---------------------------------------------------------------------------
// Stage 2 and 3: width selection and splicing.
// ---------------------------------------------------------------------------

/// Rewrites `li`/`la` into the width-selected variant by the size of the
/// immediate operand.
pub open spec fn spec_width_mnemonic(m: Seq<char>, args: Seq<SpecOperand>) -> Result<
    Seq<char>,
    SpecAssemblerErr,
> {
    if m == "li"@ || m == "la"@ {
        if args.len() >= 2 {
            match args[1] {
                SpecOperand::RValue(SpecRValue::Immediate(v)) => Ok(
                    m + (if -32768 <= v <= 32767 {
                        ".16"@
                    } else if -2147483648 <= v <= 2147483647 {
                        ".32"@
                    } else {
                        ".64"@
                    }),
                ),
                _ => Err(SpecAssemblerErr::Syntax("Expected an immediate operand."@)),
            }
        } else {
            Err(SpecAssemblerErr::Syntax("Expected an immediate operand."@))
        }
    } else {
        Ok(m)
    }
}

/// The index of a formal parameter, or the length if absent.
pub open spec fn name_pos(formals: Seq<Seq<char>>, n: Seq<char>) -> int
    decreases formals.len(),
{
    if formals.len() == 0 {
        0
    } else if formals[0] == n {
        0
    } else {
        1 + name_pos(formals.skip(1), n)
    }
}

pub proof fn lemma_name_pos_props(formals: Seq<Seq<char>>, n: Seq<char>)
    ensures
        0 <= name_pos(formals, n) <= formals.len(),
        name_pos(formals, n) < formals.len() ==> formals[name_pos(formals, n)] == n,
        forall|j: int| 0 <= j < name_pos(formals, n) ==> formals[j] != n,
    decreases formals.len(),
{
    if formals.len() > 0 && formals[0] != n {
        lemma_name_pos_props(formals.skip(1), n);
        assert(forall|j: int|
            1 <= j < name_pos(formals, n) ==> formals[j] == formals.skip(1)[j - 1]);
    }
}

pub proof fn lemma_name_pos_at(formals: Seq<Seq<char>>, n: Seq<char>, i: int)
    requires
        0 <= i <= formals.len(),
        forall|j: int| 0 <= j < i ==> formals[j] != n,
        i < formals.len() ==> formals[i] == n,
    ensures
        name_pos(formals, n) == i,
    decreases i,
{
    if formals.len() == 0 {
    } else if i == 0 {
    } else {
        assert(formals[0] != n);
        let t = formals.skip(1);
        assert(forall|j: int| 0 <= j < i - 1 ==> t[j] == formals[j + 1] && formals[j + 1] != n);
        assert(i - 1 < t.len() ==> t[i - 1] == formals[i]);
        lemma_name_pos_at(t, n, i - 1);
    }
}

/// Substitutes a formal parameter by position: a bare identifier takes the
/// actual operand; an identifier under a relocation function takes the
/// actual's bare value; other shapes are left untouched.
pub open spec fn spec_subst_operand(
    op: SpecOperand,
    formals: Seq<Seq<char>>,
    actuals: Seq<SpecOperand>,
) -> SpecOperand {
    match op {
        SpecOperand::RValue(SpecRValue::Identifier(n)) => {
            let p = name_pos(formals, n);
            if p < formals.len() && p < actuals.len() {
                actuals[p]
            } else {
                op
            }
        },
        SpecOperand::RelocationFn(f, SpecRValue::Identifier(n)) => {
            let p = name_pos(formals, n);
            if p < formals.len() && p < actuals.len() {
                match actuals[p] {
                    SpecOperand::RValue(rv) => SpecOperand::RelocationFn(f, rv),
                    _ => op,
                }
            } else {
                op
            }
        },
        _ => op,
    }
}

pub open spec fn spec_subst_ops(
    ops: Seq<SpecOperand>,
    formals: Seq<Seq<char>>,
    actuals: Seq<SpecOperand>,
) -> Seq<SpecOperand>
    decreases ops.len(),
{
    if ops.len() == 0 {
        Seq::empty()
    } else {
        seq![spec_subst_operand(ops[0], formals, actuals)] + spec_subst_ops(
            ops.skip(1),
            formals,
            actuals,
        )
    }
}

/// Substitutes formals in every instruction of a body; other tokens are
/// kept as they stand.
pub open spec fn spec_subst_tokens(
    body: Seq<SpecToken>,
    formals: Seq<Seq<char>>,
    actuals: Seq<SpecOperand>,
) -> Seq<SpecToken>
    decreases body.len(),
{
    if body.len() == 0 {
        Seq::empty()
    } else {
        let head = match body[0] {
            SpecToken::Emittable(SpecEmittable::Instruction(m, ops)) => spec_ins(
                m,
                spec_subst_ops(ops, formals, actuals),
            ),
            _ => body[0],
        };
        seq![head] + spec_subst_tokens(body.skip(1), formals, actuals)
    }
}

/// Checks the arity of an invocation and substitutes the actuals into the
/// body.
pub open spec fn spec_expand_code(
    actuals: Seq<SpecOperand>,
    formals: Seq<Seq<char>>,
    body: Seq<SpecToken>,
) -> Result<Seq<SpecToken>, SpecAssemblerErr> {
    if actuals.len() != formals.len() {
        Err(
            SpecAssemblerErr::Syntax(
                "Expected "@ + dec_str(formals.len() as int) + " arguments, found "@ + dec_str(
                    actuals.len() as int,
                ) + "."@,
            ),
        )
    } else {
        Ok(spec_subst_tokens(body, formals, actuals))
    }
}

/// Expands one token through the width rewrite and the pseudo table
/// alone: what a spliced macro body goes through, so that pseudo
/// invocations inside it become primitive instructions.
pub open spec fn spec_pseudo_expand_tok(t: SpecToken) -> Result<Seq<SpecToken>, SpecAssemblerErr> {
    match t {
        SpecToken::Emittable(SpecEmittable::Instruction(m, args)) => {
            match spec_width_mnemonic(m, args) {
                Err(e) => Err(e),
                Ok(m2) => match spec_pseudo_lookup(m2) {
                    Some((formals, body)) => spec_expand_code(args, formals, body),
                    None => Ok(seq![spec_ins(m2, args)]),
                },
            }
        },
        _ => Ok(seq![t]),
    }
}

/// The pseudo-only pass over a spliced macro body.
pub open spec fn spec_pseudo_pass(ts: Seq<SpecToken>) -> Result<Seq<SpecToken>, SpecAssemblerErr>
    decreases ts.len(),
{
    if ts.len() == 0 {
        Ok(Seq::empty())
    } else {
        match spec_pseudo_expand_tok(ts[0]) {
            Err(e) => Err(e),
            Ok(hd) => match spec_pseudo_pass(ts.skip(1)) {
                Ok(rest) => Ok(hd + rest),
                Err(e) => Err(e),
            },
        }
    }
}

/// Walks the stream, splicing pseudo-instruction and macro expansions in
/// place of their invocations.
pub open spec fn spec_process_expansions(
    ts: Seq<SpecToken>,
    dict: Seq<(Seq<char>, Seq<Seq<char>>, Seq<SpecToken>)>,
) -> Result<Seq<SpecToken>, SpecAssemblerErr>
    decreases ts.len(),
{
    if ts.len() == 0 {
        Ok(Seq::empty())
    } else {
        let head: Result<Seq<SpecToken>, SpecAssemblerErr> = match ts[0] {
            SpecToken::Emittable(SpecEmittable::Instruction(m, args)) => {
                match spec_width_mnemonic(m, args) {
                    Err(e) => Err(e),
                    Ok(m2) => {
                        match spec_pseudo_lookup(m2) {
                            Some((formals, body)) => spec_expand_code(args, formals, body),
                            None => match macro_lookup(dict, m2) {
                                Some((formals, body)) => match spec_expand_code(
                                    args,
                                    formals,
                                    body,
                                ) {
                                    Ok(sub) => spec_pseudo_pass(sub),
                                    Err(e) => Err(e),
                                },
                                None => Ok(seq![spec_ins(m2, args)]),
                            },
                        }
                    },
                }
            },
            _ => Ok(seq![ts[0]]),
        };
        match head {
            Err(e) => Err(e),
            Ok(hd) => match spec_process_expansions(ts.skip(1), dict) {
                Ok(rest) => Ok(hd + rest),
                Err(e) => Err(e),
            },
        }
    }
}

// ---------------------------------------------------------------------------
// Binary emission.
// ---------------------------------------------------------------------------

pub open spec fn le1(v: u64) -> Seq<u8> {
    seq![(v & 0xff) as u8]
}

pub open spec fn le2(v: u64) -> Seq<u8> {
    seq![(v & 0xff) as u8, ((v >> 8) & 0xff) as u8]
}

pub open spec fn le4(v: u64) -> Seq<u8> {
    seq![
        (v & 0xff) as u8,
        ((v >> 8) & 0xff) as u8,
        ((v >> 16) & 0xff) as u8,
        ((v >> 24) & 0xff) as u8,
    ]
}

pub open spec fn le8(v: u64) -> Seq<u8> {
    seq![
        (v & 0xff) as u8,
        ((v >> 8) & 0xff) as u8,
        ((v >> 16) & 0xff) as u8,
        ((v >> 24) & 0xff) as u8,
        ((v >> 32) & 0xff) as u8,
        ((v >> 40) & 0xff) as u8,
        ((v >> 48) & 0xff) as u8,
        ((v >> 56) & 0xff) as u8,
    ]
}

/// The little-endian bytes of an encoded instruction word.
pub open spec fn le32_word(w: u32) -> Seq<u8> {
    seq![
        (w & 0xff) as u8,
        ((w >> 8) & 0xff) as u8,
        ((w >> 16) & 0xff) as u8,
        ((w >> 24) & 0xff) as u8,
    ]
}

/// The little-endian bytes of one data element at the width: a symbolic
/// element encodes as zero bytes.
pub open spec fn data_elem_bytes(rv: SpecRValue, width: int) -> Seq<u8> {
    let v: u64 = match rv {
        SpecRValue::Immediate(x) => x as u64,
        _ => 0,
    };
    if width == 1 {
        le1(v)
    } else if width == 2 {
        le2(v)
    } else if width == 4 {
        le4(v)
    } else {
        le8(v)
    }
}

pub open spec fn data_bytes(vs: Seq<SpecRValue>, width: int) -> Seq<u8>
    decreases vs.len(),
{
    if vs.len() == 0 {
        Seq::empty()
    } else {
        data_elem_bytes(vs[0], width) + data_bytes(vs.skip(1), width)
    }
}

/// Does the data list hold a symbolic element the linker must resolve?
pub open spec fn data_has_ident(vs: Seq<SpecRValue>) -> bool
    decreases vs.len(),
{
    if vs.len() == 0 {
        false
    } else {
        (vs[0] is Identifier) || data_has_ident(vs.skip(1))
    }
}

/// One token's effect on the object image.
pub open spec fn spec_step(t: SpecToken, acc: SpecObject) -> Result<SpecObject, SpecAssemblerErr> {
    match t {
        SpecToken::Emittable(e) => match e {
            SpecEmittable::Instruction(m, ops) => match spec_encode(m, ops, Xlen::Rv64) {
                Err(er) => Err(SpecAssemblerErr::Encoder(er)),
                Ok((w, rel)) => Ok(
                    SpecObject {
                        binary: acc.binary + le32_word(w),
                        relocations: if rel {
                            acc.relocations + seq![(e, acc.binary.len() as int)]
                        } else {
                            acc.relocations
                        },
                        symbols: acc.symbols,
                    },
                ),
            },
            SpecEmittable::Byte(vs) => Ok(spec_emit_data(e, vs, 1, acc)),
            SpecEmittable::Half(vs) => Ok(spec_emit_data(e, vs, 2, acc)),
            SpecEmittable::Word(vs) => Ok(spec_emit_data(e, vs, 4, acc)),
            SpecEmittable::Dword(vs) => Ok(spec_emit_data(e, vs, 8, acc)),
            SpecEmittable::String(s) => Ok(
                SpecObject {
                    binary: acc.binary + vstd::utf8::encode_utf8(s) + seq![0u8],
                    relocations: acc.relocations,
                    symbols: acc.symbols,
                },
            ),
        },
        SpecToken::Label(name) => {
            if sym_lookup(acc.symbols, name) is Some {
                Err(SpecAssemblerErr::Other("Duplicate label: \""@ + name + "\""@))
            } else {
                Ok(
                    SpecObject {
                        binary: acc.binary,
                        relocations: acc.relocations,
                        symbols: acc.symbols + seq![(name, acc.binary.len() as int)],
                    },
                )
            }
        },
        SpecToken::Directive(_) => Ok(acc),
    }
}

/// A data emittable appends its little-endian bytes; one relocation is
/// recorded at the block's start where any element is symbolic.
pub open spec fn spec_emit_data(
    e: SpecEmittable,
    vs: Seq<SpecRValue>,
    width: int,
    acc: SpecObject,
) -> SpecObject {
    SpecObject {
        binary: acc.binary + data_bytes(vs, width),
        relocations: if data_has_ident(vs) {
            acc.relocations + seq![(e, acc.binary.len() as int)]
        } else {
            acc.relocations
        },
        symbols: acc.symbols,
    }
}

/// Assembles a token stream into the accumulated object image.
pub open spec fn spec_assemble_tokens(ts: Seq<SpecToken>, acc: SpecObject) -> Result<
    SpecObject,
    SpecAssemblerErr,
>
    decreases ts.len(),
{
    if ts.len() == 0 {
        Ok(acc)
    } else {
        match spec_step(ts[0], acc) {
            Err(e) => Err(e),
            Ok(acc2) => spec_assemble_tokens(ts.skip(1), acc2),
        }
    }
}

/// The empty object image.
pub open spec fn spec_empty_object() -> SpecObject {
    SpecObject {
        binary: Seq::empty(),
        relocations: Seq::empty(),
        symbols: Seq::empty(),
    }
}

/// The whole assembler: lex, drain macros, expand, emit.
pub open spec fn spec_assemble(code: Seq<char>) -> Result<SpecObject, SpecAssemblerErr> {
    match spec_lex(code) {
        Err(e) => Err(SpecAssemblerErr::Lexer(e)),
        Ok(tokens) => match spec_drain_macros(tokens) {
            Err(e) => Err(e),
            Ok((stream, dict)) => match spec_process_expansions(stream, dict) {
                Err(e) => Err(e),
                Ok(expanded) => spec_assemble_tokens(expanded, spec_empty_object()),
            },
        },
    }
}

// ---------------------------------------------------------------------------
// Exec: draining macros.
// ---------------------------------------------------------------------------

fn is_endm_exec(t: &Token) -> (r: bool)
    ensures
        r == is_endm(t@),
{
    match t {
        Token::Directive(Directive::Marker(n)) => str_eq(n.as_str(), "endm"),
        _ => false,
    }
}

/// The absolute index of the first `endm` at or after `i`.
fn find_endm(tokens: &Vec<Token>, i: usize) -> (r: usize)
    requires
        i <= tokens@.len(),
    ensures
        i <= r <= tokens@.len(),
        endm_pos(tokens.deep_view().skip(i as int)) == r - i,
{
    let mut k: usize = i;
    while k < tokens.len()
        invariant
            i <= k <= tokens@.len(),
            forall|j: int| i <= j < k ==> !is_endm(tokens.deep_view()[j]),
        decreases tokens@.len() - k,
    {
        if is_endm_exec(&tokens[k]) {
            proof {
                assert(tokens.deep_view().skip(i as int)[k - i] == tokens.deep_view()[k as int]);
                assert(forall|j: int|
                    0 <= j < k - i ==> tokens.deep_view().skip(i as int)[j]
                        == tokens.deep_view()[j + i]);
                lemma_endm_pos_at(tokens.deep_view().skip(i as int), k - i);
            }
            return k;
        }
        k = k + 1;
    }
    proof {
        assert(forall|j: int|
            0 <= j < tokens.deep_view().skip(i as int).len() ==> tokens.deep_view().skip(
                i as int,
            )[j] == tokens.deep_view()[j + i]);
        lemma_endm_pos_at(tokens.deep_view().skip(i as int), tokens@.len() - i as int);
    }
    tokens.len()
}

/// Copies `tokens[a..b]`.
fn copy_token_range(tokens: &Vec<Token>, a: usize, b: usize) -> (r: Vec<Token>)
    requires
        a <= b <= tokens@.len(),
    ensures
        r.deep_view() == tokens.deep_view().subrange(a as int, b as int),
{
    let mut r: Vec<Token> = Vec::new();
    proof {
        assert(r.deep_view() =~= tokens.deep_view().subrange(a as int, a as int));
    }
    let mut k: usize = a;
    while k < b
        invariant
            a <= k <= b <= tokens@.len(),
            r@.len() == k - a,
            r.deep_view() == tokens.deep_view().subrange(a as int, k as int),
        decreases b - k,
    {
        let c = copy_token(&tokens[k]);
        r.push(c);
        proof {
            assert(r.deep_view() =~= tokens.deep_view().subrange(a as int, k as int + 1));
        }
        k = k + 1;
    }
    r
}

impl Assembler {
    /// Drains user macro definitions from the stream into a dictionary,
    /// refusing names that collide with the ISA or pseudo tables and
    /// definitions without an end marker.
    fn drain_macros(tokens: &Vec<Token>, i: usize) -> (r: Result<
        (Vec<Token>, Vec<(String, Vec<String>, Vec<Token>)>),
        AssemblerErr,
    >)
        requires
            i <= tokens@.len(),
        ensures
            match r {
                Ok(p) => spec_drain_macros(tokens.deep_view().skip(i as int)) == Ok::<
                    (Seq<SpecToken>, Seq<(Seq<char>, Seq<Seq<char>>, Seq<SpecToken>)>),
                    SpecAssemblerErr,
                >((p.0.deep_view(), p.1.deep_view())),
                Err(e) => spec_drain_macros(tokens.deep_view().skip(i as int)) == Err::<
                    (Seq<SpecToken>, Seq<(Seq<char>, Seq<Seq<char>>, Seq<SpecToken>)>),
                    SpecAssemblerErr,
                >(e@),
            },
        decreases tokens@.len() - i,
    {
        if i == tokens.len() {
            let r: (Vec<Token>, Vec<(String, Vec<String>, Vec<Token>)>) = (
                Vec::new(),
                Vec::new(),
            );
            proof {
                assert(r.0.deep_view() =~= Seq::<SpecToken>::empty());
                assert(r.1.deep_view() =~= Seq::<
                    (Seq<char>, Seq<Seq<char>>, Seq<SpecToken>),
                >::empty());
            }
            Ok(r)
        } else {
            proof {
                assert(tokens.deep_view().skip(i as int)[0] =~~= tokens@[i as int]@);
                assert(tokens.deep_view().skip(i as int).skip(1) =~= tokens.deep_view().skip(
                    i as int + 1,
                ));
            }
            let is_macro_def = match &tokens[i] {
                Token::Directive(Directive::Macro(_, _)) => true,
                _ => false,
            };
            if is_macro_def {
                let (name, args) = match &tokens[i] {
                    Token::Directive(Directive::Macro(n, a)) => (n.clone(), copy_strings(a)),
                    _ => (String::new(), Vec::new()),
                };
                if isa_lookup(name.as_str()).is_some() || pseudo_lookup(name.as_str()).is_some() {
                    return Err(
                        AssemblerErr::Syntax(
                            String::from_str("\"").concat(name.as_str()).concat(
                                "\" is a reserved keyword.",
                            ),
                        ),
                    );
                }
                let e = find_endm(tokens, i + 1);
                proof {
                    assert(tokens.deep_view().skip(i as int).skip(1) =~= tokens.deep_view().skip(
                        i as int + 1,
                    ));
                }
                if e >= tokens.len() {
                    return Err(
                        AssemblerErr::Syntax(
                            String::from_str("\"").concat(name.as_str()).concat(
                                "\" expected an end marker.",
                            ),
                        ),
                    );
                }
                let body = copy_token_range(tokens, i + 1, e);
                proof {
                    assert(tokens.deep_view().skip(i as int + 1).take(e - (i + 1))
                        =~= tokens.deep_view().subrange(i as int + 1, e as int));
                }
                match Self::drain_macros(tokens, e + 1) {
                    Ok((stream, mut dict)) => {
                        let mut d: Vec<(String, Vec<String>, Vec<Token>)> = Vec::new();
                        d.push((name, args, body));
                        d.append(&mut dict);
                        proof {
                            assert(tokens.deep_view().skip(i as int + 1).skip(e - (i + 1) + 1)
                                =~= tokens.deep_view().skip(e as int + 1));
                            assert(d.deep_view() =~~= spec_drain_macros(
                                tokens.deep_view().skip(i as int),
                            )->Ok_0.1);
                        }
                        Ok((stream, d))
                    },
                    Err(er) => {
                        proof {
                            assert(tokens.deep_view().skip(i as int + 1).skip(e - (i + 1) + 1)
                                =~= tokens.deep_view().skip(e as int + 1));
                        }
                        Err(er)
                    },
                }
            } else {
                match Self::drain_macros(tokens, i + 1) {
                    Ok((mut stream, dict)) => {
                        let head = copy_token(&tokens[i]);
                        let mut s: Vec<Token> = Vec::new();
                        s.push(head);
                        s.append(&mut stream);
                        proof {
                            assert(s.deep_view() =~~= spec_drain_macros(
                                tokens.deep_view().skip(i as int),
                            )->Ok_0.0);
                        }
                        Ok((s, dict))
                    },
                    Err(er) => Err(er),
                }
            }
        }
    }
}

// ---------------------------------------------------------------------------
// Exec: expansion.
// ---------------------------------------------------------------------------

/// The index of the first macro definition with the name, if any.
fn macro_find(
    dict: &Vec<(String, Vec<String>, Vec<Token>)>,
    name: &str,
) -> (r: Option<usize>)
    ensures
        match r {
            Some(ix) => ix < dict@.len() && macro_lookup(dict.deep_view(), name@) == Some(
                (dict.deep_view()[ix as int].1, dict.deep_view()[ix as int].2),
            ),
            None => macro_lookup(dict.deep_view(), name@) is None,
        },
{
    let mut k: usize = 0;
    while k < dict.len()
        invariant
            0 <= k <= dict@.len(),
            forall|j: int| 0 <= j < k ==> dict.deep_view()[j].0 != name@,
        decreases dict@.len() - k,
    {
        if str_eq(dict[k].0.as_str(), name) {
            proof {
                lemma_macro_lookup_at(dict.deep_view(), name@, k as int);
            }
            return Some(k);
        }
        k = k + 1;
    }
    proof {
        lemma_macro_lookup_at(dict.deep_view(), name@, dict@.len() as int);
    }
    None
}

proof fn lemma_macro_lookup_at(
    dict: Seq<(Seq<char>, Seq<Seq<char>>, Seq<SpecToken>)>,
    name: Seq<char>,
    i: int,
)
    requires
        0 <= i <= dict.len(),
        forall|j: int| 0 <= j < i ==> dict[j].0 != name,
        i < dict.len() ==> dict[i].0 == name,
    ensures
        macro_lookup(dict, name) == (if i < dict.len() {
            Some((dict[i].1, dict[i].2))
        } else {
            None::<(Seq<Seq<char>>, Seq<SpecToken>)>
        }),
    decreases i,
{
    if dict.len() == 0 {
    } else if i == 0 {
    } else {
        assert(dict[0].0 != name);
        let t = dict.skip(1);
        assert(forall|j: int| 0 <= j < i - 1 ==> t[j] == dict[j + 1] && dict[j + 1].0 != name);
        assert(i - 1 < t.len() ==> t[i - 1] == dict[i]);
        lemma_macro_lookup_at(t, name, i - 1);
    }
}

/// The index of a formal parameter, or the count if absent.
fn formal_pos(formals: &Vec<String>, n: &str) -> (r: usize)
    ensures
        r as int == name_pos(formals.deep_view(), n@),
        r <= formals@.len(),
{
    let mut k: usize = 0;
    while k < formals.len()
        invariant
            0 <= k <= formals@.len(),
            forall|j: int| 0 <= j < k ==> formals.deep_view()[j] != n@,
        decreases formals@.len() - k,
    {
        if str_eq(formals[k].as_str(), n) {
            proof {
                lemma_name_pos_at(formals.deep_view(), n@, k as int);
            }
            return k;
        }
        k = k + 1;
    }
    proof {
        lemma_name_pos_at(formals.deep_view(), n@, formals@.len() as int);
    }
    formals.len()
}

/// Substitutes a formal parameter by position.
fn subst_operand(op: &Operand, formals: &Vec<String>, actuals: &Vec<Operand>) -> (r: Operand)
    ensures
        r@ == spec_subst_operand(op@, formals.deep_view(), actuals.deep_view()),
{
    match op {
        Operand::RValue(RValue::Identifier(n)) => {
            let p = formal_pos(formals, n.as_str());
            if p < formals.len() && p < actuals.len() {
                proof {
                    assert(actuals.deep_view()[p as int] =~~= actuals@[p as int]@);
                }
                copy_operand(&actuals[p])
            } else {
                copy_operand(op)
            }
        },
        Operand::RelocationFn(f, RValue::Identifier(n)) => {
            let p = formal_pos(formals, n.as_str());
            if p < formals.len() && p < actuals.len() {
                proof {
                    assert(actuals.deep_view()[p as int] =~~= actuals@[p as int]@);
                }
                match &actuals[p] {
                    Operand::RValue(rv) => Operand::RelocationFn(f.clone(), copy_rvalue(rv)),
                    _ => copy_operand(op),
                }
            } else {
                copy_operand(op)
            }
        },
        _ => copy_operand(op),
    }
}

fn subst_ops(ops: &Vec<Operand>, i: usize, formals: &Vec<String>, actuals: &Vec<Operand>) -> (r:
    Vec<Operand>)
    requires
        i <= ops@.len(),
    ensures
        r.deep_view() == spec_subst_ops(
            ops.deep_view().skip(i as int),
            formals.deep_view(),
            actuals.deep_view(),
        ),
    decreases ops@.len() - i,
{
    if i == ops.len() {
        let r: Vec<Operand> = Vec::new();
        proof {
            assert(r.deep_view() =~= Seq::<SpecOperand>::empty());
        }
        r
    } else {
        proof {
            assert(ops.deep_view().skip(i as int)[0] =~~= ops@[i as int]@);
            assert(ops.deep_view().skip(i as int).skip(1) =~= ops.deep_view().skip(i as int + 1));
        }
        let head = subst_operand(&ops[i], formals, actuals);
        let mut rest = subst_ops(ops, i + 1, formals, actuals);
        let mut r: Vec<Operand> = Vec::new();
        r.push(head);
        r.append(&mut rest);
        proof {
            assert(r.deep_view() =~= spec_subst_ops(
                ops.deep_view().skip(i as int),
                formals.deep_view(),
                actuals.deep_view(),
            ));
        }
        r
    }
}

fn subst_tokens(body: &Vec<Token>, i: usize, formals: &Vec<String>, actuals: &Vec<Operand>) -> (r:
    Vec<Token>)
    requires
        i <= body@.len(),
    ensures
        r.deep_view() == spec_subst_tokens(
            body.deep_view().skip(i as int),
            formals.deep_view(),
            actuals.deep_view(),
        ),
    decreases body@.len() - i,
{
    if i == body.len() {
        let r: Vec<Token> = Vec::new();
        proof {
            assert(r.deep_view() =~= Seq::<SpecToken>::empty());
        }
        r
    } else {
        proof {
            assert(body.deep_view().skip(i as int)[0] =~~= body@[i as int]@);
            assert(body.deep_view().skip(i as int).skip(1) =~= body.deep_view().skip(
                i as int + 1,
            ));
        }
        let head: Token = match &body[i] {
            Token::Emittable(Emittable::Instruction(m, ops)) => {
                let so = subst_ops(ops, 0, formals, actuals);
                proof {
                    assert(ops.deep_view().skip(0) =~~= ops.deep_view());
                }
                Token::Emittable(Emittable::Instruction(m.clone(), so))
            },
            other => copy_token(other),
        };
        proof {
            assert(head@ =~~= (match body.deep_view().skip(i as int)[0] {
                SpecToken::Emittable(SpecEmittable::Instruction(m, ops)) => spec_ins(
                    m,
                    spec_subst_ops(ops, formals.deep_view(), actuals.deep_view()),
                ),
                _ => body.deep_view().skip(i as int)[0],
            }));
        }
        let mut rest = subst_tokens(body, i + 1, formals, actuals);
        let mut r: Vec<Token> = Vec::new();
        r.push(head);
        r.append(&mut rest);
        proof {
            assert(r.deep_view() =~= spec_subst_tokens(
                body.deep_view().skip(i as int),
                formals.deep_view(),
                actuals.deep_view(),
            ));
        }
        r
    }
}

impl Assembler {
    /// Checks the arity of an invocation and splices the actual operands
    /// into the body.
    fn expand_code(arguments: &Vec<Operand>, formals: &Vec<String>, body: &Vec<Token>) -> (r:
        Result<Vec<Token>, AssemblerErr>)
        ensures
            match r {
                Ok(v) => spec_expand_code(
                    arguments.deep_view(),
                    formals.deep_view(),
                    body.deep_view(),
                ) == Ok::<Seq<SpecToken>, SpecAssemblerErr>(v.deep_view()),
                Err(e) => spec_expand_code(
                    arguments.deep_view(),
                    formals.deep_view(),
                    body.deep_view(),
                ) == Err::<Seq<SpecToken>, SpecAssemblerErr>(e@),
            },
    {
        if arguments.len() != formals.len() {
            let c1 = dec_string(formals.len());
            let c2 = dec_string(arguments.len());
            Err(
                AssemblerErr::Syntax(
                    String::from_str("Expected ").concat(c1.as_str()).concat(
                        " arguments, found ",
                    ).concat(c2.as_str()).concat("."),
                ),
            )
        } else {
            let r = subst_tokens(body, 0, formals, arguments);
            proof {
                assert(body.deep_view().skip(0) =~~= body.deep_view());
            }
            Ok(r)
        }
    }

    /// Expands one token through the width rewrite and the pseudo table
    /// alone: what a spliced macro body goes through.
    fn pseudo_expand_tok(t: &Token) -> (r: Result<Vec<Token>, AssemblerErr>)
        ensures
            match r {
                Ok(v) => spec_pseudo_expand_tok(t@) == Ok::<Seq<SpecToken>, SpecAssemblerErr>(
                    v.deep_view(),
                ),
                Err(e) => spec_pseudo_expand_tok(t@) == Err::<Seq<SpecToken>, SpecAssemblerErr>(
                    e@,
                ),
            },
    {
        match t {
            Token::Emittable(Emittable::Instruction(m, args)) => {
                let width_name: Result<String, AssemblerErr> = if str_eq(m.as_str(), "li")
                    || str_eq(m.as_str(), "la") {
                    if args.len() >= 2 {
                        match &args[1] {
                            Operand::RValue(RValue::Immediate(v)) => {
                                let suffix: &str = if -32768 <= *v && *v <= 32767 {
                                    ".16"
                                } else if -2147483648 <= *v && *v <= 2147483647 {
                                    ".32"
                                } else {
                                    ".64"
                                };
                                proof {
                                    assert(args.deep_view()[1] =~~= args@[1]@);
                                }
                                Ok(m.clone().concat(suffix))
                            },
                            _ => {
                                proof {
                                    assert(args.deep_view()[1] =~~= args@[1]@);
                                }
                                Err(
                                    AssemblerErr::Syntax(
                                        String::from_str("Expected an immediate operand."),
                                    ),
                                )
                            },
                        }
                    } else {
                        Err(
                            AssemblerErr::Syntax(
                                String::from_str("Expected an immediate operand."),
                            ),
                        )
                    }
                } else {
                    Ok(m.clone())
                };
                match width_name {
                    Err(e) => Err(e),
                    Ok(m2) => {
                        match pseudo_lookup(m2.as_str()) {
                            Some((formals, body)) => Self::expand_code(args, &formals, &body),
                            None => {
                                let tk = Token::Emittable(
                                    Emittable::Instruction(m2, copy_operands(args)),
                                );
                                let mut v: Vec<Token> = Vec::new();
                                v.push(tk);
                                proof {
                                    assert(v.deep_view() =~~= spec_pseudo_expand_tok(t@)->Ok_0);
                                }
                                Ok(v)
                            },
                        }
                    },
                }
            },
            other => {
                let ct = copy_token(other);
                let mut v: Vec<Token> = Vec::new();
                v.push(ct);
                proof {
                    assert(v.deep_view() =~~= seq![t@]);
                }
                Ok(v)
            },
        }
    }

    /// The pseudo-only pass over a spliced macro body.
    fn pseudo_pass(tokens: &Vec<Token>, i: usize) -> (r: Result<Vec<Token>, AssemblerErr>)
        requires
            i <= tokens@.len(),
        ensures
            match r {
                Ok(v) => spec_pseudo_pass(tokens.deep_view().skip(i as int)) == Ok::<
                    Seq<SpecToken>,
                    SpecAssemblerErr,
                >(v.deep_view()),
                Err(e) => spec_pseudo_pass(tokens.deep_view().skip(i as int)) == Err::<
                    Seq<SpecToken>,
                    SpecAssemblerErr,
                >(e@),
            },
        decreases tokens@.len() - i,
    {
        if i == tokens.len() {
            let r: Vec<Token> = Vec::new();
            proof {
                assert(r.deep_view() =~= Seq::<SpecToken>::empty());
            }
            Ok(r)
        } else {
            proof {
                assert(tokens.deep_view().skip(i as int)[0] =~~= tokens@[i as int]@);
                assert(tokens.deep_view().skip(i as int).skip(1) =~= tokens.deep_view().skip(
                    i as int + 1,
                ));
            }
            match Self::pseudo_expand_tok(&tokens[i]) {
                Err(e) => Err(e),
                Ok(mut hd) => match Self::pseudo_pass(tokens, i + 1) {
                    Ok(mut rest) => {
                        hd.append(&mut rest);
                        proof {
                            assert(hd.deep_view() =~= spec_pseudo_pass(
                                tokens.deep_view().skip(i as int),
                            )->Ok_0);
                        }
                        Ok(hd)
                    },
                    Err(e) => Err(e),
                },
            }
        }
    }

    /// Walks the stream, splicing pseudo-instruction and macro expansions
    /// in place of their invocations; a spliced macro body has its own
    /// pseudo invocations expanded in turn.
    fn process_expansions(
        tokens: &Vec<Token>,
        macros: &Vec<(String, Vec<String>, Vec<Token>)>,
        i: usize,
    ) -> (r: Result<Vec<Token>, AssemblerErr>)
        requires
            i <= tokens@.len(),
        ensures
            match r {
                Ok(v) => spec_process_expansions(
                    tokens.deep_view().skip(i as int),
                    macros.deep_view(),
                ) == Ok::<Seq<SpecToken>, SpecAssemblerErr>(v.deep_view()),
                Err(e) => spec_process_expansions(
                    tokens.deep_view().skip(i as int),
                    macros.deep_view(),
                ) == Err::<Seq<SpecToken>, SpecAssemblerErr>(e@),
            },
        decreases tokens@.len() - i,
    {
        if i == tokens.len() {
            let r: Vec<Token> = Vec::new();
            proof {
                assert(r.deep_view() =~= Seq::<SpecToken>::empty());
            }
            return Ok(r);
        }
        proof {
            assert(tokens.deep_view().skip(i as int)[0] =~~= tokens@[i as int]@);
            assert(tokens.deep_view().skip(i as int).skip(1) =~= tokens.deep_view().skip(
                i as int + 1,
            ));
        }
        let head: Result<Vec<Token>, AssemblerErr> = match &tokens[i] {
            Token::Emittable(Emittable::Instruction(m, args)) => {
                let width_name: Result<String, AssemblerErr> = if str_eq(m.as_str(), "li")
                    || str_eq(m.as_str(), "la") {
                    if args.len() >= 2 {
                        match &args[1] {
                            Operand::RValue(RValue::Immediate(v)) => {
                                let suffix: &str = if -32768 <= *v && *v <= 32767 {
                                    ".16"
                                } else if -2147483648 <= *v && *v <= 2147483647 {
                                    ".32"
                                } else {
                                    ".64"
                                };
                                proof {
                                    assert(args.deep_view()[1] =~~= args@[1]@);
                                }
                                Ok(m.clone().concat(suffix))
                            },
                            _ => {
                                proof {
                                    assert(args.deep_view()[1] =~~= args@[1]@);
                                }
                                Err(
                                    AssemblerErr::Syntax(
                                        String::from_str("Expected an immediate operand."),
                                    ),
                                )
                            },
                        }
                    } else {
                        Err(
                            AssemblerErr::Syntax(
                                String::from_str("Expected an immediate operand."),
                            ),
                        )
                    }
                } else {
                    Ok(m.clone())
                };
                match width_name {
                    Err(e) => Err(e),
                    Ok(m2) => {
                        match pseudo_lookup(m2.as_str()) {
                            Some((formals, body)) => Self::expand_code(args, &formals, &body),
                            None => {
                                match macro_find(macros, m2.as_str()) {
                                    Some(ix) => {
                                        match Self::expand_code(
                                            args,
                                            &macros[ix].1,
                                            &macros[ix].2,
                                        ) {
                                            Ok(sub) => {
                                                proof {
                                                    assert(sub.deep_view().skip(0)
                                                        =~~= sub.deep_view());
                                                }
                                                Self::pseudo_pass(&sub, 0)
                                            },
                                            Err(e) => Err(e),
                                        }
                                    },
                                    None => {
                                        let tk = Token::Emittable(
                                            Emittable::Instruction(m2, copy_operands(args)),
                                        );
                                        let mut v: Vec<Token> = Vec::new();
                                        v.push(tk);
                                        proof {
                                            assert(v.deep_view() =~~= seq![
                                                spec_ins(
                                                    spec_width_mnemonic(
                                                        tokens.deep_view().skip(
                                                            i as int,
                                                        )[0]->Emittable_0->Instruction_0,
                                                        tokens.deep_view().skip(
                                                            i as int,
                                                        )[0]->Emittable_0->Instruction_1,
                                                    )->Ok_0,
                                                    tokens.deep_view().skip(
                                                        i as int,
                                                    )[0]->Emittable_0->Instruction_1,
                                                ),
                                            ]);
                                        }
                                        Ok(v)
                                    },
                                }
                            },
                        }
                    },
                }
            },
            other => {
                let ct = copy_token(other);
                let mut v: Vec<Token> = Vec::new();
                v.push(ct);
                proof {
                    assert(v.deep_view() =~~= seq![tokens.deep_view().skip(i as int)[0]]);
                }
                Ok(v)
            },
        };
        match head {
            Err(e) => Err(e),
            Ok(mut hd) => {
                match Self::process_expansions(tokens, macros, i + 1) {
                    Ok(mut rest) => {
                        hd.append(&mut rest);
                        proof {
                            assert(hd.deep_view() =~= spec_process_expansions(
                                tokens.deep_view().skip(i as int),
                                macros.deep_view(),
                            )->Ok_0);
                        }
                        Ok(hd)
                    },
                    Err(e) => Err(e),
                }
            },
        }
    }
}

// ---------------------------------------------------------------------------
// Exec: binary emission.
// ---------------------------------------------------------------------------

/// Appends the little-endian bytes of `uv` at the width.
fn push_le_bytes(out: &mut Vec<u8>, uv: u64, width: usize)
    requires
        width == 1 || width == 2 || width == 4 || width == 8,
    ensures
        final(out)@ == old(out)@ + (if width == 1 {
            le1(uv)
        } else if width == 2 {
            le2(uv)
        } else if width == 4 {
            le4(uv)
        } else {
            le8(uv)
        }),
{
    out.push(#[verifier::truncate] ((uv & 0xff) as u8));
    if width >= 2 {
        out.push(#[verifier::truncate] (((uv >> 8) & 0xff) as u8));
    }
    if width >= 4 {
        out.push(#[verifier::truncate] (((uv >> 16) & 0xff) as u8));
        out.push(#[verifier::truncate] (((uv >> 24) & 0xff) as u8));
    }
    if width == 8 {
        out.push(#[verifier::truncate] (((uv >> 32) & 0xff) as u8));
        out.push(#[verifier::truncate] (((uv >> 40) & 0xff) as u8));
        out.push(#[verifier::truncate] (((uv >> 48) & 0xff) as u8));
        out.push(#[verifier::truncate] (((uv >> 56) & 0xff) as u8));
    }
    proof {
        if width == 1 {
            assert(final(out)@ =~= old(out)@ + le1(uv));
        } else if width == 2 {
            assert(final(out)@ =~= old(out)@ + le2(uv));
        } else if width == 4 {
            assert(final(out)@ =~= old(out)@ + le4(uv));
        } else {
            assert(final(out)@ =~= old(out)@ + le8(uv));
        }
    }
}

/// The unsigned 64-bit image of a data element; symbolic elements encode
/// as zero.
fn elem_u64_i8(rv: &RValue<i8>) -> (r: u64)
    ensures
        r == (match rv@ {
            SpecRValue::Immediate(x) => x as u64,
            _ => 0u64,
        }),
{
    match rv {
        RValue::Immediate(x) => #[verifier::truncate] ((*x as i64) as u64),
        _ => 0,
    }
}

fn elem_u64_i16(rv: &RValue<i16>) -> (r: u64)
    ensures
        r == (match rv@ {
            SpecRValue::Immediate(x) => x as u64,
            _ => 0u64,
        }),
{
    match rv {
        RValue::Immediate(x) => #[verifier::truncate] ((*x as i64) as u64),
        _ => 0,
    }
}

fn elem_u64_i32(rv: &RValue<i32>) -> (r: u64)
    ensures
        r == (match rv@ {
            SpecRValue::Immediate(x) => x as u64,
            _ => 0u64,
        }),
{
    match rv {
        RValue::Immediate(x) => #[verifier::truncate] ((*x as i64) as u64),
        _ => 0,
    }
}

fn elem_u64_i64(rv: &RValue<i64>) -> (r: u64)
    ensures
        r == (match rv@ {
            SpecRValue::Immediate(x) => x as u64,
            _ => 0u64,
        }),
{
    match rv {
        RValue::Immediate(x) => #[verifier::truncate] (*x as u64),
        _ => 0,
    }
}

fn data_bytes_i8(vs: &Vec<RValue<i8>>, i: usize) -> (r: Vec<u8>)
    requires
        i <= vs@.len(),
    ensures
        r@ == data_bytes(vs.deep_view().skip(i as int), 1),
    decreases vs@.len() - i,
{
    if i == vs.len() {
        let r: Vec<u8> = Vec::new();
        proof {
            assert(r@ =~= data_bytes(vs.deep_view().skip(i as int), 1));
        }
        r
    } else {
        proof {
            assert(vs.deep_view().skip(i as int)[0] =~~= vs@[i as int]@);
            assert(vs.deep_view().skip(i as int).skip(1) =~= vs.deep_view().skip(i as int + 1));
        }
        let uv = elem_u64_i8(&vs[i]);
        let mut r: Vec<u8> = Vec::new();
        push_le_bytes(&mut r, uv, 1);
        let mut rest = data_bytes_i8(vs, i + 1);
        r.append(&mut rest);
        proof {
            assert(r@ =~= data_bytes(vs.deep_view().skip(i as int), 1));
        }
        r
    }
}

fn data_has_ident_i8(vs: &Vec<RValue<i8>>, i: usize) -> (r: bool)
    requires
        i <= vs@.len(),
    ensures
        r == data_has_ident(vs.deep_view().skip(i as int)),
    decreases vs@.len() - i,
{
    if i == vs.len() {
        proof {
            assert(vs.deep_view().skip(i as int) =~= Seq::<SpecRValue>::empty());
        }
        false
    } else {
        proof {
            assert(vs.deep_view().skip(i as int)[0] =~~= vs@[i as int]@);
            assert(vs.deep_view().skip(i as int).skip(1) =~= vs.deep_view().skip(i as int + 1));
        }
        let head = match &vs[i] {
            RValue::Identifier(_) => true,
            _ => false,
        };
        if head {
            true
        } else {
            data_has_ident_i8(vs, i + 1)
        }
    }
}


fn data_bytes_i16(vs: &Vec<RValue<i16>>, i: usize) -> (r: Vec<u8>)
    requires
        i <= vs@.len(),
    ensures
        r@ == data_bytes(vs.deep_view().skip(i as int), 2),
    decreases vs@.len() - i,
{
    if i == vs.len() {
        let r: Vec<u8> = Vec::new();
        proof {
            assert(r@ =~= data_bytes(vs.deep_view().skip(i as int), 2));
        }
        r
    } else {
        proof {
            assert(vs.deep_view().skip(i as int)[0] =~~= vs@[i as int]@);
            assert(vs.deep_view().skip(i as int).skip(1) =~= vs.deep_view().skip(i as int + 1));
        }
        let uv = elem_u64_i16(&vs[i]);
        let mut r: Vec<u8> = Vec::new();
        push_le_bytes(&mut r, uv, 2);
        let mut rest = data_bytes_i16(vs, i + 1);
        r.append(&mut rest);
        proof {
            assert(r@ =~= data_bytes(vs.deep_view().skip(i as int), 2));
        }
        r
    }
}

fn data_has_ident_i16(vs: &Vec<RValue<i16>>, i: usize) -> (r: bool)
    requires
        i <= vs@.len(),
    ensures
        r == data_has_ident(vs.deep_view().skip(i as int)),
    decreases vs@.len() - i,
{
    if i == vs.len() {
        proof {
            assert(vs.deep_view().skip(i as int) =~= Seq::<SpecRValue>::empty());
        }
        false
    } else {
        proof {
            assert(vs.deep_view().skip(i as int)[0] =~~= vs@[i as int]@);
            assert(vs.deep_view().skip(i as int).skip(1) =~= vs.deep_view().skip(i as int + 1));
        }
        let head = match &vs[i] {
            RValue::Identifier(_) => true,
            _ => false,
        };
        if head {
            true
        } else {
            data_has_ident_i16(vs, i + 1)
        }
    }
}


fn data_bytes_i32(vs: &Vec<RValue<i32>>, i: usize) -> (r: Vec<u8>)
    requires
        i <= vs@.len(),
    ensures
        r@ == data_bytes(vs.deep_view().skip(i as int), 4),
    decreases vs@.len() - i,
{
    if i == vs.len() {
        let r: Vec<u8> = Vec::new();
        proof {
            assert(r@ =~= data_bytes(vs.deep_view().skip(i as int), 4));
        }
        r
    } else {
        proof {
            assert(vs.deep_view().skip(i as int)[0] =~~= vs@[i as int]@);
            assert(vs.deep_view().skip(i as int).skip(1) =~= vs.deep_view().skip(i as int + 1));
        }
        let uv = elem_u64_i32(&vs[i]);
        let mut r: Vec<u8> = Vec::new();
        push_le_bytes(&mut r, uv, 4);
        let mut rest = data_bytes_i32(vs, i + 1);
        r.append(&mut rest);
        proof {
            assert(r@ =~= data_bytes(vs.deep_view().skip(i as int), 4));
        }
        r
    }
}

fn data_has_ident_i32(vs: &Vec<RValue<i32>>, i: usize) -> (r: bool)
    requires
        i <= vs@.len(),
    ensures
        r == data_has_ident(vs.deep_view().skip(i as int)),
    decreases vs@.len() - i,
{
    if i == vs.len() {
        proof {
            assert(vs.deep_view().skip(i as int) =~= Seq::<SpecRValue>::empty());
        }
        false
    } else {
        proof {
            assert(vs.deep_view().skip(i as int)[0] =~~= vs@[i as int]@);
            assert(vs.deep_view().skip(i as int).skip(1) =~= vs.deep_view().skip(i as int + 1));
        }
        let head = match &vs[i] {
            RValue::Identifier(_) => true,
            _ => false,
        };
        if head {
            true
        } else {
            data_has_ident_i32(vs, i + 1)
        }
    }
}


fn data_bytes_i64(vs: &Vec<RValue<i64>>, i: usize) -> (r: Vec<u8>)
    requires
        i <= vs@.len(),
    ensures
        r@ == data_bytes(vs.deep_view().skip(i as int), 8),
    decreases vs@.len() - i,
{
    if i == vs.len() {
        let r: Vec<u8> = Vec::new();
        proof {
            assert(r@ =~= data_bytes(vs.deep_view().skip(i as int), 8));
        }
        r
    } else {
        proof {
            assert(vs.deep_view().skip(i as int)[0] =~~= vs@[i as int]@);
            assert(vs.deep_view().skip(i as int).skip(1) =~= vs.deep_view().skip(i as int + 1));
        }
        let uv = elem_u64_i64(&vs[i]);
        let mut r: Vec<u8> = Vec::new();
        push_le_bytes(&mut r, uv, 8);
        let mut rest = data_bytes_i64(vs, i + 1);
        r.append(&mut rest);
        proof {
            assert(r@ =~= data_bytes(vs.deep_view().skip(i as int), 8));
        }
        r
    }
}

fn data_has_ident_i64(vs: &Vec<RValue<i64>>, i: usize) -> (r: bool)
    requires
        i <= vs@.len(),
    ensures
        r == data_has_ident(vs.deep_view().skip(i as int)),
    decreases vs@.len() - i,
{
    if i == vs.len() {
        proof {
            assert(vs.deep_view().skip(i as int) =~= Seq::<SpecRValue>::empty());
        }
        false
    } else {
        proof {
            assert(vs.deep_view().skip(i as int)[0] =~~= vs@[i as int]@);
            assert(vs.deep_view().skip(i as int).skip(1) =~= vs.deep_view().skip(i as int + 1));
        }
        let head = match &vs[i] {
            RValue::Identifier(_) => true,
            _ => false,
        };
        if head {
            true
        } else {
            data_has_ident_i64(vs, i + 1)
        }
    }
}

/// Is the name already present in the symbol table?
fn symbols_has(syms: &Vec<(String, usize)>, i: usize, name: &str) -> (r: bool)
    requires
        i <= syms@.len(),
    ensures
        r == (sym_lookup(syms_view(syms@).skip(i as int), name@) is Some),
    decreases syms@.len() - i,
{
    if i == syms.len() {
        proof {
            assert(syms_view(syms@).skip(i as int) =~= Seq::<(Seq<char>, int)>::empty());
        }
        false
    } else {
        proof {
            assert(syms_view(syms@).skip(i as int)[0] == syms_view(syms@)[i as int]);
            assert(syms_view(syms@).skip(i as int).skip(1) =~= syms_view(syms@).skip(
                i as int + 1,
            ));
        }
        if str_eq(syms[i].0.as_str(), name) {
            true
        } else {
            symbols_has(syms, i + 1, name)
        }
    }
}

impl Assembler {
    /// Applies one token to the object image under construction.
    fn step_token(t: &Token, obj: Object) -> (r: Result<Object, AssemblerErr>)
        ensures
            match r {
                Ok(o2) => spec_step(t@, obj@) == Ok::<SpecObject, SpecAssemblerErr>(o2@),
                Err(e) => spec_step(t@, obj@) == Err::<SpecObject, SpecAssemblerErr>(e@),
            },
    {
        let ghost o0 = obj@;
        match t {
            Token::Emittable(e) => match e {
                Emittable::Instruction(m, ops) => {
                    match Encoder::new(m, ops) {
                        Err(er) => Err(AssemblerErr::Encoder(er)),
                        Ok(enc) => {
                            let w = enc.binary;
                            let off = obj.binary.len();
                            let mut obj2 = obj;
                            obj2.binary.push(#[verifier::truncate] ((w & 0xff) as u8));
                            obj2.binary.push(#[verifier::truncate] (((w >> 8) & 0xff) as u8));
                            obj2.binary.push(#[verifier::truncate] (((w >> 16) & 0xff) as u8));
                            obj2.binary.push(#[verifier::truncate] (((w >> 24) & 0xff) as u8));
                            if enc.relocation {
                                let ec = copy_emittable(e);
                                obj2.relocations.push((ec, off));
                            }
                            proof {
                                assert(obj2@.binary =~= o0.binary + le32_word(w));
                                if enc.relocation {
                                    assert(obj2@.relocations =~~= o0.relocations + seq![
                                        (e@, o0.binary.len() as int),
                                    ]);
                                }
                                assert(obj2@ =~~= spec_step(t@, o0)->Ok_0);
                            }
                            Ok(obj2)
                        },
                    }
                },
                Emittable::Byte(vs) => {
                    let mut bytes = data_bytes_i8(vs, 0);
                    let has = data_has_ident_i8(vs, 0);
                    let off = obj.binary.len();
                    let mut obj2 = obj;
                    obj2.binary.append(&mut bytes);
                    if has {
                        let ec = copy_emittable(e);
                        obj2.relocations.push((ec, off));
                    }
                    proof {
                        assert(vs.deep_view().skip(0) =~= vs.deep_view());
                        assert(obj2@ =~~= spec_step(t@, o0)->Ok_0);
                    }
                    Ok(obj2)
                },
                Emittable::Half(vs) => {
                    let mut bytes = data_bytes_i16(vs, 0);
                    let has = data_has_ident_i16(vs, 0);
                    let off = obj.binary.len();
                    let mut obj2 = obj;
                    obj2.binary.append(&mut bytes);
                    if has {
                        let ec = copy_emittable(e);
                        obj2.relocations.push((ec, off));
                    }
                    proof {
                        assert(vs.deep_view().skip(0) =~= vs.deep_view());
                        assert(obj2@ =~~= spec_step(t@, o0)->Ok_0);
                    }
                    Ok(obj2)
                },
                Emittable::Word(vs) => {
                    let mut bytes = data_bytes_i32(vs, 0);
                    let has = data_has_ident_i32(vs, 0);
                    let off = obj.binary.len();
                    let mut obj2 = obj;
                    obj2.binary.append(&mut bytes);
                    if has {
                        let ec = copy_emittable(e);
                        obj2.relocations.push((ec, off));
                    }
                    proof {
                        assert(vs.deep_view().skip(0) =~= vs.deep_view());
                        assert(obj2@ =~~= spec_step(t@, o0)->Ok_0);
                    }
                    Ok(obj2)
                },
                Emittable::Dword(vs) => {
                    let mut bytes = data_bytes_i64(vs, 0);
                    let has = data_has_ident_i64(vs, 0);
                    let off = obj.binary.len();
                    let mut obj2 = obj;
                    obj2.binary.append(&mut bytes);
                    if has {
                        let ec = copy_emittable(e);
                        obj2.relocations.push((ec, off));
                    }
                    proof {
                        assert(vs.deep_view().skip(0) =~= vs.deep_view());
                        assert(obj2@ =~~= spec_step(t@, o0)->Ok_0);
                    }
                    Ok(obj2)
                },
                Emittable::String(s) => {
                    let bs = s.as_str().as_bytes();
                    let mut tmp = vstd::slice::slice_to_vec(bs);
                    let mut obj2 = obj;
                    obj2.binary.append(&mut tmp);
                    obj2.binary.push(0u8);
                    proof {
                        assert(obj2@.binary =~= o0.binary + vstd::utf8::encode_utf8(s@) + seq![
                            0u8,
                        ]);
                        assert(obj2@ =~~= spec_step(t@, o0)->Ok_0);
                    }
                    Ok(obj2)
                },
            },
            Token::Label(name) => {
                proof {
                    assert(syms_view(obj.symbols@).skip(0) =~= syms_view(obj.symbols@));
                }
                if symbols_has(&obj.symbols, 0, name.as_str()) {
                    Err(
                        AssemblerErr::Other(
                            String::from_str("Duplicate label: \"").concat(name.as_str()).concat(
                                "\"",
                            ),
                        ),
                    )
                } else {
                    let off = obj.binary.len();
                    let mut obj2 = obj;
                    obj2.symbols.push((name.clone(), off));
                    proof {
                        assert(obj2@.symbols =~= o0.symbols + seq![(name@, o0.binary.len() as int)]);
                        assert(obj2@ =~~= spec_step(t@, o0)->Ok_0);
                    }
                    Ok(obj2)
                }
            },
            Token::Directive(_) => Ok(obj),
        }
    }

    /// Assembles the tokens from index `i` on into the accumulated image.
    fn assemble_from(tokens: &Vec<Token>, i: usize, obj: Object) -> (r: Result<
        Object,
        AssemblerErr,
    >)
        requires
            i <= tokens@.len(),
        ensures
            match r {
                Ok(o2) => spec_assemble_tokens(tokens.deep_view().skip(i as int), obj@) == Ok::<
                    SpecObject,
                    SpecAssemblerErr,
                >(o2@),
                Err(e) => spec_assemble_tokens(tokens.deep_view().skip(i as int), obj@) == Err::<
                    SpecObject,
                    SpecAssemblerErr,
                >(e@),
            },
        decreases tokens@.len() - i,
    {
        if i == tokens.len() {
            Ok(obj)
        } else {
            proof {
                assert(tokens.deep_view().skip(i as int)[0] =~~= tokens@[i as int]@);
                assert(tokens.deep_view().skip(i as int).skip(1) =~= tokens.deep_view().skip(
                    i as int + 1,
                ));
            }
            match Self::step_token(&tokens[i], obj) {
                Err(e) => Err(e),
                Ok(obj2) => Self::assemble_from(tokens, i + 1, obj2),
            }
        }
    }

    /// Emits the binary image, symbol table and relocations for a fully
    /// expanded token stream.
    fn process_binary(tokens: &Vec<Token>) -> (r: Result<Object, AssemblerErr>)
        ensures
            match r {
                Ok(o) => spec_assemble_tokens(tokens.deep_view(), spec_empty_object()) == Ok::<
                    SpecObject,
                    SpecAssemblerErr,
                >(o@),
                Err(e) => spec_assemble_tokens(tokens.deep_view(), spec_empty_object()) == Err::<
                    SpecObject,
                    SpecAssemblerErr,
                >(e@),
            },
    {
        let obj = Object::new();
        proof {
            assert(obj@ =~~= spec_empty_object());
            assert(tokens.deep_view().skip(0) =~= tokens.deep_view());
        }
        Self::assemble_from(tokens, 0, obj)
    }

    /// Assembles a source text: lex, drain macros, expand, and emit.
    pub fn new(code: &str) -> (r: Result<Self, AssemblerErr>)
        ensures
            match r {
                Ok(a) => spec_assemble(code@) == Ok::<SpecObject, SpecAssemblerErr>(a.object@),
                Err(e) => spec_assemble(code@) == Err::<SpecObject, SpecAssemblerErr>(e@),
            },
    {
        match Lexer::new(code) {
            Err(e) => Err(AssemblerErr::Lexer(e)),
            Ok(lexer) => {
                let tokens = lexer.tokens;
                proof {
                    assert(tokens.deep_view().skip(0) =~= tokens.deep_view());
                }
                match Self::drain_macros(&tokens, 0) {
                    Err(e) => Err(e),
                    Ok((stream, dict)) => {
                        proof {
                            assert(stream.deep_view().skip(0) =~= stream.deep_view());
                        }
                        match Self::process_expansions(&stream, &dict, 0) {
                            Err(e) => Err(e),
                            Ok(expanded) => {
                                match Self::process_binary(&expanded) {
                                    Ok(object) => Ok(Assembler { object }),
                                    Err(e) => Err(e),
                                }
                            },
                        }
                    },
                }
            },
        }
    }
}

// ---------------------------------------------------------------------------
// Laws of expansion.
// ---------------------------------------------------------------------------

/// An instruction token.
pub open spec fn is_instruction_tok(t: SpecToken) -> bool {
    match t {
        SpecToken::Emittable(SpecEmittable::Instruction(_, _)) => true,
        _ => false,
    }
}

/// The number of instruction tokens in a stream.
pub open spec fn count_instructions(ts: Seq<SpecToken>) -> int
    decreases ts.len(),
{
    if ts.len() == 0 {
        0
    } else {
        (if is_instruction_tok(ts[0]) {
            1int
        } else {
            0int
        }) + count_instructions(ts.skip(1))
    }
}

/// Substitution touches only operands: every token keeps its position and
/// its kind, so the body's length and instruction count are preserved.
pub proof fn lemma_subst_preserves_shape(
    body: Seq<SpecToken>,
    formals: Seq<Seq<char>>,
    actuals: Seq<SpecOperand>,
)
    ensures
        spec_subst_tokens(body, formals, actuals).len() == body.len(),
        forall|i: int| 0 <= i < body.len() ==> is_instruction_tok(
            #[trigger] spec_subst_tokens(body, formals, actuals)[i],
        ) == is_instruction_tok(body[i]),
        count_instructions(spec_subst_tokens(body, formals, actuals)) == count_instructions(body),
    decreases body.len(),
{
    if body.len() > 0 {
        lemma_subst_preserves_shape(body.skip(1), formals, actuals);
        let out = spec_subst_tokens(body, formals, actuals);
        let rest = spec_subst_tokens(body.skip(1), formals, actuals);
        assert(out.skip(1) =~= rest);
        assert(forall|i: int|
            1 <= i < body.len() ==> out[i] == #[trigger] rest[i - 1] && body.skip(1)[i - 1]
                == body[i]);
    }
}

/// Macro expansion preserves the number of emittable instructions: the
/// spliced output of one invocation holds exactly as many instruction
/// tokens as the macro's body.
pub proof fn lemma_expansion_preserves_instruction_count(
    actuals: Seq<SpecOperand>,
    formals: Seq<Seq<char>>,
    body: Seq<SpecToken>,
)
    requires
        spec_expand_code(actuals, formals, body) is Ok,
    ensures
        spec_expand_code(actuals, formals, body)->Ok_0.len() == body.len(),
        count_instructions(spec_expand_code(actuals, formals, body)->Ok_0)
            == count_instructions(body),
{
    lemma_subst_preserves_shape(body, formals, actuals);
}



/// Pseudo-instruction names are disjoint from ISA mnemonic names: a name
/// the pseudo table defines is never an ISA mnemonic.
#[verifier::rlimit(100)]
pub proof fn lemma_pseudo_disjoint_from_isa(s: Seq<char>)
    ensures
        spec_pseudo_lookup(s) is Some ==> spec_isa_lookup(s) is None,
{
    if spec_pseudo_lookup(s) is Some {
        reveal_strlit("add");
        reveal_strlit("addd");
        reveal_strlit("addi");
        reveal_strlit("addid");
        reveal_strlit("addiw");
        reveal_strlit("addw");
        reveal_strlit("amoadd.d");
        reveal_strlit("amoadd.q");
        reveal_strlit("amoadd.w");
        reveal_strlit("amoand.d");
        reveal_strlit("amoand.q");
        reveal_strlit("amoand.w");
        reveal_strlit("amomax.d");
        reveal_strlit("amomax.q");
        reveal_strlit("amomax.w");
        reveal_strlit("amomaxu.d");
        reveal_strlit("amomaxu.q");
        reveal_strlit("amomaxu.w");
        reveal_strlit("amomin.d");
        reveal_strlit("amomin.q");
        reveal_strlit("amomin.w");
        reveal_strlit("amominu.d");
        reveal_strlit("amominu.q");
        reveal_strlit("amominu.w");
        reveal_strlit("amoor.d");
        reveal_strlit("amoor.q");
        reveal_strlit("amoor.w");
        reveal_strlit("amoswap.d");
        reveal_strlit("amoswap.q");
        reveal_strlit("amoswap.w");
        reveal_strlit("amoxor.d");
        reveal_strlit("amoxor.q");
        reveal_strlit("amoxor.w");
        reveal_strlit("and");
        reveal_strlit("andi");
        reveal_strlit("auipc");
        reveal_strlit("beq");
        reveal_strlit("beqz");
        reveal_strlit("bge");
        reveal_strlit("bgeu");
        reveal_strlit("bgez");
        reveal_strlit("bgt");
        reveal_strlit("bgtu");
        reveal_strlit("bgtz");
        reveal_strlit("ble");
        reveal_strlit("bleu");
        reveal_strlit("blez");
        reveal_strlit("blt");
        reveal_strlit("bltu");
        reveal_strlit("bltz");
        reveal_strlit("bne");
        reveal_strlit("bnez");
        reveal_strlit("csrrc");
        reveal_strlit("csrrci");
        reveal_strlit("csrrs");
        reveal_strlit("csrrsi");
        reveal_strlit("csrrw");
        reveal_strlit("csrrwi");
        reveal_strlit("div");
        reveal_strlit("divd");
        reveal_strlit("divu");
        reveal_strlit("divud");
        reveal_strlit("divuw");
        reveal_strlit("divw");
        reveal_strlit("ebreak");
        reveal_strlit("ecall");
        reveal_strlit("fabs.d");
        reveal_strlit("fabs.s");
        reveal_strlit("fadd.d");
        reveal_strlit("fadd.q");
        reveal_strlit("fadd.s");
        reveal_strlit("fclass.d");
        reveal_strlit("fclass.q");
        reveal_strlit("fclass.s");
        reveal_strlit("fcvt.d.l");
        reveal_strlit("fcvt.d.lu");
        reveal_strlit("fcvt.d.q");
        reveal_strlit("fcvt.d.s");
        reveal_strlit("fcvt.d.t");
        reveal_strlit("fcvt.d.tu");
        reveal_strlit("fcvt.d.w");
        reveal_strlit("fcvt.d.wu");
        reveal_strlit("fcvt.l.d");
        reveal_strlit("fcvt.l.q");
        reveal_strlit("fcvt.l.s");
        reveal_strlit("fcvt.lu.d");
        reveal_strlit("fcvt.lu.q");
        reveal_strlit("fcvt.lu.s");
        reveal_strlit("fcvt.q.d");
        reveal_strlit("fcvt.q.l");
        reveal_strlit("fcvt.q.lu");
        reveal_strlit("fcvt.q.s");
        reveal_strlit("fcvt.q.t");
        reveal_strlit("fcvt.q.tu");
        reveal_strlit("fcvt.q.w");
        reveal_strlit("fcvt.q.wu");
        reveal_strlit("fcvt.s.d");
        reveal_strlit("fcvt.s.l");
        reveal_strlit("fcvt.s.lu");
        reveal_strlit("fcvt.s.q");
        reveal_strlit("fcvt.s.t");
        reveal_strlit("fcvt.s.tu");
        reveal_strlit("fcvt.s.w");
        reveal_strlit("fcvt.s.wu");
        reveal_strlit("fcvt.t.d");
        reveal_strlit("fcvt.t.q");
        reveal_strlit("fcvt.t.s");
        reveal_strlit("fcvt.tu.d");
        reveal_strlit("fcvt.tu.q");
        reveal_strlit("fcvt.tu.s");
        reveal_strlit("fcvt.w.d");
        reveal_strlit("fcvt.w.q");
        reveal_strlit("fcvt.w.s");
        reveal_strlit("fcvt.wu.d");
        reveal_strlit("fcvt.wu.q");
        reveal_strlit("fcvt.wu.s");
        reveal_strlit("fdiv.d");
        reveal_strlit("fdiv.q");
        reveal_strlit("fdiv.s");
        reveal_strlit("fence");
        reveal_strlit("fence.i");
        reveal_strlit("feq.d");
        reveal_strlit("feq.q");
        reveal_strlit("feq.s");
        reveal_strlit("fld");
        reveal_strlit("fle.d");
        reveal_strlit("fle.q");
        reveal_strlit("fle.s");
        reveal_strlit("flq");
        reveal_strlit("flt.d");
        reveal_strlit("flt.q");
        reveal_strlit("flt.s");
        reveal_strlit("flw");
        reveal_strlit("fmadd.d");
        reveal_strlit("fmadd.q");
        reveal_strlit("fmadd.s");
        reveal_strlit("fmax.d");
        reveal_strlit("fmax.q");
        reveal_strlit("fmax.s");
        reveal_strlit("fmin.d");
        reveal_strlit("fmin.q");
        reveal_strlit("fmin.s");
        reveal_strlit("fmsub.d");
        reveal_strlit("fmsub.q");
        reveal_strlit("fmsub.s");
        reveal_strlit("fmul.d");
        reveal_strlit("fmul.q");
        reveal_strlit("fmul.s");
        reveal_strlit("fmv.d");
        reveal_strlit("fmv.d.x");
        reveal_strlit("fmv.q.x");
        reveal_strlit("fmv.s");
        reveal_strlit("fmv.w.x");
        reveal_strlit("fmv.x.d");
        reveal_strlit("fmv.x.q");
        reveal_strlit("fmv.x.w");
        reveal_strlit("fneg.d");
        reveal_strlit("fneg.s");
        reveal_strlit("fnmadd.d");
        reveal_strlit("fnmadd.q");
        reveal_strlit("fnmadd.s");
        reveal_strlit("fnmsub.d");
        reveal_strlit("fnmsub.q");
        reveal_strlit("fnmsub.s");
        reveal_strlit("fsd");
        reveal_strlit("fsgnj.d");
        reveal_strlit("fsgnj.q");
        reveal_strlit("fsgnj.s");
        reveal_strlit("fsgnjn.d");
        reveal_strlit("fsgnjn.q");
        reveal_strlit("fsgnjn.s");
        reveal_strlit("fsgnjx.d");
        reveal_strlit("fsgnjx.q");
        reveal_strlit("fsgnjx.s");
        reveal_strlit("fsq");
        reveal_strlit("fsqrt.d");
        reveal_strlit("fsqrt.q");
        reveal_strlit("fsqrt.s");
        reveal_strlit("fsub.d");
        reveal_strlit("fsub.q");
        reveal_strlit("fsub.s");
        reveal_strlit("fsw");
        reveal_strlit("j");
        reveal_strlit("jal");
        reveal_strlit("jalr");
        reveal_strlit("jr");
        reveal_strlit("la.16");
        reveal_strlit("la.32");
        reveal_strlit("la.64");
        reveal_strlit("lb");
        reveal_strlit("lbu");
        reveal_strlit("ld");
        reveal_strlit("ldu");
        reveal_strlit("lh");
        reveal_strlit("lhu");
        reveal_strlit("li.16");
        reveal_strlit("li.32");
        reveal_strlit("li.64");
        reveal_strlit("lq");
        reveal_strlit("lr.d");
        reveal_strlit("lr.q");
        reveal_strlit("lr.w");
        reveal_strlit("lui");
        reveal_strlit("lw");
        reveal_strlit("lwu");
        reveal_strlit("mul");
        reveal_strlit("muld");
        reveal_strlit("mulh");
        reveal_strlit("mulhsu");
        reveal_strlit("mulhu");
        reveal_strlit("mulw");
        reveal_strlit("mv");
        reveal_strlit("neg");
        reveal_strlit("negw");
        reveal_strlit("nop");
        reveal_strlit("not");
        reveal_strlit("or");
        reveal_strlit("ori");
        reveal_strlit("rem");
        reveal_strlit("remd");
        reveal_strlit("remu");
        reveal_strlit("remud");
        reveal_strlit("remuw");
        reveal_strlit("remw");
        reveal_strlit("ret");
        reveal_strlit("sb");
        reveal_strlit("sc.d");
        reveal_strlit("sc.q");
        reveal_strlit("sc.w");
        reveal_strlit("sd");
        reveal_strlit("seqz");
        reveal_strlit("sext.w");
        reveal_strlit("sgtz");
        reveal_strlit("sh");
        reveal_strlit("sll");
        reveal_strlit("slld");
        reveal_strlit("slli");
        reveal_strlit("sllid");
        reveal_strlit("slliw");
        reveal_strlit("sllw");
        reveal_strlit("slt");
        reveal_strlit("slti");
        reveal_strlit("sltiu");
        reveal_strlit("sltu");
        reveal_strlit("sltz");
        reveal_strlit("snez");
        reveal_strlit("sq");
        reveal_strlit("sra");
        reveal_strlit("srad");
        reveal_strlit("srai");
        reveal_strlit("sraid");
        reveal_strlit("sraiw");
        reveal_strlit("sraw");
        reveal_strlit("srl");
        reveal_strlit("srld");
        reveal_strlit("srli");
        reveal_strlit("srlid");
        reveal_strlit("srliw");
        reveal_strlit("srlw");
        reveal_strlit("sub");
        reveal_strlit("subd");
        reveal_strlit("subw");
        reveal_strlit("sw");
        reveal_strlit("xor");
        reveal_strlit("xori");
        assert("add"@.len() == 3 && "add"@[0] == 'a' && "add"@[1] == 'd' && "add"@[2] == 'd');
        assert("addd"@.len() == 4 && "addd"@[0] == 'a' && "addd"@[1] == 'd' && "addd"@[2] == 'd' && "addd"@[3] == 'd');
        assert("addi"@.len() == 4 && "addi"@[0] == 'a' && "addi"@[1] == 'd' && "addi"@[2] == 'd' && "addi"@[3] == 'i');
        assert("addid"@.len() == 5 && "addid"@[0] == 'a' && "addid"@[1] == 'd' && "addid"@[2] == 'd' && "addid"@[3] == 'i' && "addid"@[4] == 'd');
        assert("addiw"@.len() == 5 && "addiw"@[0] == 'a' && "addiw"@[1] == 'd' && "addiw"@[2] == 'd' && "addiw"@[3] == 'i' && "addiw"@[4] == 'w');
        assert("addw"@.len() == 4 && "addw"@[0] == 'a' && "addw"@[1] == 'd' && "addw"@[2] == 'd' && "addw"@[3] == 'w');
        assert("amoadd.d"@.len() == 8 && "amoadd.d"@[0] == 'a' && "amoadd.d"@[1] == 'm' && "amoadd.d"@[2] == 'o' && "amoadd.d"@[3] == 'a' && "amoadd.d"@[4] == 'd' && "amoadd.d"@[5] == 'd' && "amoadd.d"@[6] == '.' && "amoadd.d"@[7] == 'd');
        assert("amoadd.q"@.len() == 8 && "amoadd.q"@[0] == 'a' && "amoadd.q"@[1] == 'm' && "amoadd.q"@[2] == 'o' && "amoadd.q"@[3] == 'a' && "amoadd.q"@[4] == 'd' && "amoadd.q"@[5] == 'd' && "amoadd.q"@[6] == '.' && "amoadd.q"@[7] == 'q');
        assert("amoadd.w"@.len() == 8 && "amoadd.w"@[0] == 'a' && "amoadd.w"@[1] == 'm' && "amoadd.w"@[2] == 'o' && "amoadd.w"@[3] == 'a' && "amoadd.w"@[4] == 'd' && "amoadd.w"@[5] == 'd' && "amoadd.w"@[6] == '.' && "amoadd.w"@[7] == 'w');
        assert("amoand.d"@.len() == 8 && "amoand.d"@[0] == 'a' && "amoand.d"@[1] == 'm' && "amoand.d"@[2] == 'o' && "amoand.d"@[3] == 'a' && "amoand.d"@[4] == 'n' && "amoand.d"@[5] == 'd' && "amoand.d"@[6] == '.' && "amoand.d"@[7] == 'd');
        assert("amoand.q"@.len() == 8 && "amoand.q"@[0] == 'a' && "amoand.q"@[1] == 'm' && "amoand.q"@[2] == 'o' && "amoand.q"@[3] == 'a' && "amoand.q"@[4] == 'n' && "amoand.q"@[5] == 'd' && "amoand.q"@[6] == '.' && "amoand.q"@[7] == 'q');
        assert("amoand.w"@.len() == 8 && "amoand.w"@[0] == 'a' && "amoand.w"@[1] == 'm' && "amoand.w"@[2] == 'o' && "amoand.w"@[3] == 'a' && "amoand.w"@[4] == 'n' && "amoand.w"@[5] == 'd' && "amoand.w"@[6] == '.' && "amoand.w"@[7] == 'w');
        assert("amomax.d"@.len() == 8 && "amomax.d"@[0] == 'a' && "amomax.d"@[1] == 'm' && "amomax.d"@[2] == 'o' && "amomax.d"@[3] == 'm' && "amomax.d"@[4] == 'a' && "amomax.d"@[5] == 'x' && "amomax.d"@[6] == '.' && "amomax.d"@[7] == 'd');
        assert("amomax.q"@.len() == 8 && "amomax.q"@[0] == 'a' && "amomax.q"@[1] == 'm' && "amomax.q"@[2] == 'o' && "amomax.q"@[3] == 'm' && "amomax.q"@[4] == 'a' && "amomax.q"@[5] == 'x' && "amomax.q"@[6] == '.' && "amomax.q"@[7] == 'q');
        assert("amomax.w"@.len() == 8 && "amomax.w"@[0] == 'a' && "amomax.w"@[1] == 'm' && "amomax.w"@[2] == 'o' && "amomax.w"@[3] == 'm' && "amomax.w"@[4] == 'a' && "amomax.w"@[5] == 'x' && "amomax.w"@[6] == '.' && "amomax.w"@[7] == 'w');
        assert("amomaxu.d"@.len() == 9 && "amomaxu.d"@[0] == 'a' && "amomaxu.d"@[1] == 'm' && "amomaxu.d"@[2] == 'o' && "amomaxu.d"@[3] == 'm' && "amomaxu.d"@[4] == 'a' && "amomaxu.d"@[5] == 'x' && "amomaxu.d"@[6] == 'u' && "amomaxu.d"@[7] == '.' && "amomaxu.d"@[8] == 'd');
        assert("amomaxu.q"@.len() == 9 && "amomaxu.q"@[0] == 'a' && "amomaxu.q"@[1] == 'm' && "amomaxu.q"@[2] == 'o' && "amomaxu.q"@[3] == 'm' && "amomaxu.q"@[4] == 'a' && "amomaxu.q"@[5] == 'x' && "amomaxu.q"@[6] == 'u' && "amomaxu.q"@[7] == '.' && "amomaxu.q"@[8] == 'q');
        assert("amomaxu.w"@.len() == 9 && "amomaxu.w"@[0] == 'a' && "amomaxu.w"@[1] == 'm' && "amomaxu.w"@[2] == 'o' && "amomaxu.w"@[3] == 'm' && "amomaxu.w"@[4] == 'a' && "amomaxu.w"@[5] == 'x' && "amomaxu.w"@[6] == 'u' && "amomaxu.w"@[7] == '.' && "amomaxu.w"@[8] == 'w');
        assert("amomin.d"@.len() == 8 && "amomin.d"@[0] == 'a' && "amomin.d"@[1] == 'm' && "amomin.d"@[2] == 'o' && "amomin.d"@[3] == 'm' && "amomin.d"@[4] == 'i' && "amomin.d"@[5] == 'n' && "amomin.d"@[6] == '.' && "amomin.d"@[7] == 'd');
        assert("amomin.q"@.len() == 8 && "amomin.q"@[0] == 'a' && "amomin.q"@[1] == 'm' && "amomin.q"@[2] == 'o' && "amomin.q"@[3] == 'm' && "amomin.q"@[4] == 'i' && "amomin.q"@[5] == 'n' && "amomin.q"@[6] == '.' && "amomin.q"@[7] == 'q');
        assert("amomin.w"@.len() == 8 && "amomin.w"@[0] == 'a' && "amomin.w"@[1] == 'm' && "amomin.w"@[2] == 'o' && "amomin.w"@[3] == 'm' && "amomin.w"@[4] == 'i' && "amomin.w"@[5] == 'n' && "amomin.w"@[6] == '.' && "amomin.w"@[7] == 'w');
        assert("amominu.d"@.len() == 9 && "amominu.d"@[0] == 'a' && "amominu.d"@[1] == 'm' && "amominu.d"@[2] == 'o' && "amominu.d"@[3] == 'm' && "amominu.d"@[4] == 'i' && "amominu.d"@[5] == 'n' && "amominu.d"@[6] == 'u' && "amominu.d"@[7] == '.' && "amominu.d"@[8] == 'd');
        assert("amominu.q"@.len() == 9 && "amominu.q"@[0] == 'a' && "amominu.q"@[1] == 'm' && "amominu.q"@[2] == 'o' && "amominu.q"@[3] == 'm' && "amominu.q"@[4] == 'i' && "amominu.q"@[5] == 'n' && "amominu.q"@[6] == 'u' && "amominu.q"@[7] == '.' && "amominu.q"@[8] == 'q');
        assert("amominu.w"@.len() == 9 && "amominu.w"@[0] == 'a' && "amominu.w"@[1] == 'm' && "amominu.w"@[2] == 'o' && "amominu.w"@[3] == 'm' && "amominu.w"@[4] == 'i' && "amominu.w"@[5] == 'n' && "amominu.w"@[6] == 'u' && "amominu.w"@[7] == '.' && "amominu.w"@[8] == 'w');
        assert("amoor.d"@.len() == 7 && "amoor.d"@[0] == 'a' && "amoor.d"@[1] == 'm' && "amoor.d"@[2] == 'o' && "amoor.d"@[3] == 'o' && "amoor.d"@[4] == 'r' && "amoor.d"@[5] == '.' && "amoor.d"@[6] == 'd');
        assert("amoor.q"@.len() == 7 && "amoor.q"@[0] == 'a' && "amoor.q"@[1] == 'm' && "amoor.q"@[2] == 'o' && "amoor.q"@[3] == 'o' && "amoor.q"@[4] == 'r' && "amoor.q"@[5] == '.' && "amoor.q"@[6] == 'q');
        assert("amoor.w"@.len() == 7 && "amoor.w"@[0] == 'a' && "amoor.w"@[1] == 'm' && "amoor.w"@[2] == 'o' && "amoor.w"@[3] == 'o' && "amoor.w"@[4] == 'r' && "amoor.w"@[5] == '.' && "amoor.w"@[6] == 'w');
        assert("amoswap.d"@.len() == 9 && "amoswap.d"@[0] == 'a' && "amoswap.d"@[1] == 'm' && "amoswap.d"@[2] == 'o' && "amoswap.d"@[3] == 's' && "amoswap.d"@[4] == 'w' && "amoswap.d"@[5] == 'a' && "amoswap.d"@[6] == 'p' && "amoswap.d"@[7] == '.' && "amoswap.d"@[8] == 'd');
        assert("amoswap.q"@.len() == 9 && "amoswap.q"@[0] == 'a' && "amoswap.q"@[1] == 'm' && "amoswap.q"@[2] == 'o' && "amoswap.q"@[3] == 's' && "amoswap.q"@[4] == 'w' && "amoswap.q"@[5] == 'a' && "amoswap.q"@[6] == 'p' && "amoswap.q"@[7] == '.' && "amoswap.q"@[8] == 'q');
        assert("amoswap.w"@.len() == 9 && "amoswap.w"@[0] == 'a' && "amoswap.w"@[1] == 'm' && "amoswap.w"@[2] == 'o' && "amoswap.w"@[3] == 's' && "amoswap.w"@[4] == 'w' && "amoswap.w"@[5] == 'a' && "amoswap.w"@[6] == 'p' && "amoswap.w"@[7] == '.' && "amoswap.w"@[8] == 'w');
        assert("amoxor.d"@.len() == 8 && "amoxor.d"@[0] == 'a' && "amoxor.d"@[1] == 'm' && "amoxor.d"@[2] == 'o' && "amoxor.d"@[3] == 'x' && "amoxor.d"@[4] == 'o' && "amoxor.d"@[5] == 'r' && "amoxor.d"@[6] == '.' && "amoxor.d"@[7] == 'd');
        assert("amoxor.q"@.len() == 8 && "amoxor.q"@[0] == 'a' && "amoxor.q"@[1] == 'm' && "amoxor.q"@[2] == 'o' && "amoxor.q"@[3] == 'x' && "amoxor.q"@[4] == 'o' && "amoxor.q"@[5] == 'r' && "amoxor.q"@[6] == '.' && "amoxor.q"@[7] == 'q');
        assert("amoxor.w"@.len() == 8 && "amoxor.w"@[0] == 'a' && "amoxor.w"@[1] == 'm' && "amoxor.w"@[2] == 'o' && "amoxor.w"@[3] == 'x' && "amoxor.w"@[4] == 'o' && "amoxor.w"@[5] == 'r' && "amoxor.w"@[6] == '.' && "amoxor.w"@[7] == 'w');
        assert("and"@.len() == 3 && "and"@[0] == 'a' && "and"@[1] == 'n' && "and"@[2] == 'd');
        assert("andi"@.len() == 4 && "andi"@[0] == 'a' && "andi"@[1] == 'n' && "andi"@[2] == 'd' && "andi"@[3] == 'i');
        assert("auipc"@.len() == 5 && "auipc"@[0] == 'a' && "auipc"@[1] == 'u' && "auipc"@[2] == 'i' && "auipc"@[3] == 'p' && "auipc"@[4] == 'c');
        assert("beq"@.len() == 3 && "beq"@[0] == 'b' && "beq"@[1] == 'e' && "beq"@[2] == 'q');
        assert("beqz"@.len() == 4 && "beqz"@[0] == 'b' && "beqz"@[1] == 'e' && "beqz"@[2] == 'q' && "beqz"@[3] == 'z');
        assert("bge"@.len() == 3 && "bge"@[0] == 'b' && "bge"@[1] == 'g' && "bge"@[2] == 'e');
        assert("bgeu"@.len() == 4 && "bgeu"@[0] == 'b' && "bgeu"@[1] == 'g' && "bgeu"@[2] == 'e' && "bgeu"@[3] == 'u');
        assert("bgez"@.len() == 4 && "bgez"@[0] == 'b' && "bgez"@[1] == 'g' && "bgez"@[2] == 'e' && "bgez"@[3] == 'z');
        assert("bgt"@.len() == 3 && "bgt"@[0] == 'b' && "bgt"@[1] == 'g' && "bgt"@[2] == 't');
        assert("bgtu"@.len() == 4 && "bgtu"@[0] == 'b' && "bgtu"@[1] == 'g' && "bgtu"@[2] == 't' && "bgtu"@[3] == 'u');
        assert("bgtz"@.len() == 4 && "bgtz"@[0] == 'b' && "bgtz"@[1] == 'g' && "bgtz"@[2] == 't' && "bgtz"@[3] == 'z');
        assert("ble"@.len() == 3 && "ble"@[0] == 'b' && "ble"@[1] == 'l' && "ble"@[2] == 'e');
        assert("bleu"@.len() == 4 && "bleu"@[0] == 'b' && "bleu"@[1] == 'l' && "bleu"@[2] == 'e' && "bleu"@[3] == 'u');
        assert("blez"@.len() == 4 && "blez"@[0] == 'b' && "blez"@[1] == 'l' && "blez"@[2] == 'e' && "blez"@[3] == 'z');
        assert("blt"@.len() == 3 && "blt"@[0] == 'b' && "blt"@[1] == 'l' && "blt"@[2] == 't');
        assert("bltu"@.len() == 4 && "bltu"@[0] == 'b' && "bltu"@[1] == 'l' && "bltu"@[2] == 't' && "bltu"@[3] == 'u');
        assert("bltz"@.len() == 4 && "bltz"@[0] == 'b' && "bltz"@[1] == 'l' && "bltz"@[2] == 't' && "bltz"@[3] == 'z');
        assert("bne"@.len() == 3 && "bne"@[0] == 'b' && "bne"@[1] == 'n' && "bne"@[2] == 'e');
        assert("bnez"@.len() == 4 && "bnez"@[0] == 'b' && "bnez"@[1] == 'n' && "bnez"@[2] == 'e' && "bnez"@[3] == 'z');
        assert("csrrc"@.len() == 5 && "csrrc"@[0] == 'c' && "csrrc"@[1] == 's' && "csrrc"@[2] == 'r' && "csrrc"@[3] == 'r' && "csrrc"@[4] == 'c');
        assert("csrrci"@.len() == 6 && "csrrci"@[0] == 'c' && "csrrci"@[1] == 's' && "csrrci"@[2] == 'r' && "csrrci"@[3] == 'r' && "csrrci"@[4] == 'c' && "csrrci"@[5] == 'i');
        assert("csrrs"@.len() == 5 && "csrrs"@[0] == 'c' && "csrrs"@[1] == 's' && "csrrs"@[2] == 'r' && "csrrs"@[3] == 'r' && "csrrs"@[4] == 's');
        assert("csrrsi"@.len() == 6 && "csrrsi"@[0] == 'c' && "csrrsi"@[1] == 's' && "csrrsi"@[2] == 'r' && "csrrsi"@[3] == 'r' && "csrrsi"@[4] == 's' && "csrrsi"@[5] == 'i');
        assert("csrrw"@.len() == 5 && "csrrw"@[0] == 'c' && "csrrw"@[1] == 's' && "csrrw"@[2] == 'r' && "csrrw"@[3] == 'r' && "csrrw"@[4] == 'w');
        assert("csrrwi"@.len() == 6 && "csrrwi"@[0] == 'c' && "csrrwi"@[1] == 's' && "csrrwi"@[2] == 'r' && "csrrwi"@[3] == 'r' && "csrrwi"@[4] == 'w' && "csrrwi"@[5] == 'i');
        assert("div"@.len() == 3 && "div"@[0] == 'd' && "div"@[1] == 'i' && "div"@[2] == 'v');
        assert("divd"@.len() == 4 && "divd"@[0] == 'd' && "divd"@[1] == 'i' && "divd"@[2] == 'v' && "divd"@[3] == 'd');
        assert("divu"@.len() == 4 && "divu"@[0] == 'd' && "divu"@[1] == 'i' && "divu"@[2] == 'v' && "divu"@[3] == 'u');
        assert("divud"@.len() == 5 && "divud"@[0] == 'd' && "divud"@[1] == 'i' && "divud"@[2] == 'v' && "divud"@[3] == 'u' && "divud"@[4] == 'd');
        assert("divuw"@.len() == 5 && "divuw"@[0] == 'd' && "divuw"@[1] == 'i' && "divuw"@[2] == 'v' && "divuw"@[3] == 'u' && "divuw"@[4] == 'w');
        assert("divw"@.len() == 4 && "divw"@[0] == 'd' && "divw"@[1] == 'i' && "divw"@[2] == 'v' && "divw"@[3] == 'w');
        assert("ebreak"@.len() == 6 && "ebreak"@[0] == 'e' && "ebreak"@[1] == 'b' && "ebreak"@[2] == 'r' && "ebreak"@[3] == 'e' && "ebreak"@[4] == 'a' && "ebreak"@[5] == 'k');
        assert("ecall"@.len() == 5 && "ecall"@[0] == 'e' && "ecall"@[1] == 'c' && "ecall"@[2] == 'a' && "ecall"@[3] == 'l' && "ecall"@[4] == 'l');
        assert("fabs.d"@.len() == 6 && "fabs.d"@[0] == 'f' && "fabs.d"@[1] == 'a' && "fabs.d"@[2] == 'b' && "fabs.d"@[3] == 's' && "fabs.d"@[4] == '.' && "fabs.d"@[5] == 'd');
        assert("fabs.s"@.len() == 6 && "fabs.s"@[0] == 'f' && "fabs.s"@[1] == 'a' && "fabs.s"@[2] == 'b' && "fabs.s"@[3] == 's' && "fabs.s"@[4] == '.' && "fabs.s"@[5] == 's');
        assert("fadd.d"@.len() == 6 && "fadd.d"@[0] == 'f' && "fadd.d"@[1] == 'a' && "fadd.d"@[2] == 'd' && "fadd.d"@[3] == 'd' && "fadd.d"@[4] == '.' && "fadd.d"@[5] == 'd');
        assert("fadd.q"@.len() == 6 && "fadd.q"@[0] == 'f' && "fadd.q"@[1] == 'a' && "fadd.q"@[2] == 'd' && "fadd.q"@[3] == 'd' && "fadd.q"@[4] == '.' && "fadd.q"@[5] == 'q');
        assert("fadd.s"@.len() == 6 && "fadd.s"@[0] == 'f' && "fadd.s"@[1] == 'a' && "fadd.s"@[2] == 'd' && "fadd.s"@[3] == 'd' && "fadd.s"@[4] == '.' && "fadd.s"@[5] == 's');
        assert("fclass.d"@.len() == 8 && "fclass.d"@[0] == 'f' && "fclass.d"@[1] == 'c' && "fclass.d"@[2] == 'l' && "fclass.d"@[3] == 'a' && "fclass.d"@[4] == 's' && "fclass.d"@[5] == 's' && "fclass.d"@[6] == '.' && "fclass.d"@[7] == 'd');
        assert("fclass.q"@.len() == 8 && "fclass.q"@[0] == 'f' && "fclass.q"@[1] == 'c' && "fclass.q"@[2] == 'l' && "fclass.q"@[3] == 'a' && "fclass.q"@[4] == 's' && "fclass.q"@[5] == 's' && "fclass.q"@[6] == '.' && "fclass.q"@[7] == 'q');
        assert("fclass.s"@.len() == 8 && "fclass.s"@[0] == 'f' && "fclass.s"@[1] == 'c' && "fclass.s"@[2] == 'l' && "fclass.s"@[3] == 'a' && "fclass.s"@[4] == 's' && "fclass.s"@[5] == 's' && "fclass.s"@[6] == '.' && "fclass.s"@[7] == 's');
        assert("fcvt.d.l"@.len() == 8 && "fcvt.d.l"@[0] == 'f' && "fcvt.d.l"@[1] == 'c' && "fcvt.d.l"@[2] == 'v' && "fcvt.d.l"@[3] == 't' && "fcvt.d.l"@[4] == '.' && "fcvt.d.l"@[5] == 'd' && "fcvt.d.l"@[6] == '.' && "fcvt.d.l"@[7] == 'l');
        assert("fcvt.d.lu"@.len() == 9 && "fcvt.d.lu"@[0] == 'f' && "fcvt.d.lu"@[1] == 'c' && "fcvt.d.lu"@[2] == 'v' && "fcvt.d.lu"@[3] == 't' && "fcvt.d.lu"@[4] == '.' && "fcvt.d.lu"@[5] == 'd' && "fcvt.d.lu"@[6] == '.' && "fcvt.d.lu"@[7] == 'l' && "fcvt.d.lu"@[8] == 'u');
        assert("fcvt.d.q"@.len() == 8 && "fcvt.d.q"@[0] == 'f' && "fcvt.d.q"@[1] == 'c' && "fcvt.d.q"@[2] == 'v' && "fcvt.d.q"@[3] == 't' && "fcvt.d.q"@[4] == '.' && "fcvt.d.q"@[5] == 'd' && "fcvt.d.q"@[6] == '.' && "fcvt.d.q"@[7] == 'q');
        assert("fcvt.d.s"@.len() == 8 && "fcvt.d.s"@[0] == 'f' && "fcvt.d.s"@[1] == 'c' && "fcvt.d.s"@[2] == 'v' && "fcvt.d.s"@[3] == 't' && "fcvt.d.s"@[4] == '.' && "fcvt.d.s"@[5] == 'd' && "fcvt.d.s"@[6] == '.' && "fcvt.d.s"@[7] == 's');
        assert("fcvt.d.t"@.len() == 8 && "fcvt.d.t"@[0] == 'f' && "fcvt.d.t"@[1] == 'c' && "fcvt.d.t"@[2] == 'v' && "fcvt.d.t"@[3] == 't' && "fcvt.d.t"@[4] == '.' && "fcvt.d.t"@[5] == 'd' && "fcvt.d.t"@[6] == '.' && "fcvt.d.t"@[7] == 't');
        assert("fcvt.d.tu"@.len() == 9 && "fcvt.d.tu"@[0] == 'f' && "fcvt.d.tu"@[1] == 'c' && "fcvt.d.tu"@[2] == 'v' && "fcvt.d.tu"@[3] == 't' && "fcvt.d.tu"@[4] == '.' && "fcvt.d.tu"@[5] == 'd' && "fcvt.d.tu"@[6] == '.' && "fcvt.d.tu"@[7] == 't' && "fcvt.d.tu"@[8] == 'u');
        assert("fcvt.d.w"@.len() == 8 && "fcvt.d.w"@[0] == 'f' && "fcvt.d.w"@[1] == 'c' && "fcvt.d.w"@[2] == 'v' && "fcvt.d.w"@[3] == 't' && "fcvt.d.w"@[4] == '.' && "fcvt.d.w"@[5] == 'd' && "fcvt.d.w"@[6] == '.' && "fcvt.d.w"@[7] == 'w');
        assert("fcvt.d.wu"@.len() == 9 && "fcvt.d.wu"@[0] == 'f' && "fcvt.d.wu"@[1] == 'c' && "fcvt.d.wu"@[2] == 'v' && "fcvt.d.wu"@[3] == 't' && "fcvt.d.wu"@[4] == '.' && "fcvt.d.wu"@[5] == 'd' && "fcvt.d.wu"@[6] == '.' && "fcvt.d.wu"@[7] == 'w' && "fcvt.d.wu"@[8] == 'u');
        assert("fcvt.l.d"@.len() == 8 && "fcvt.l.d"@[0] == 'f' && "fcvt.l.d"@[1] == 'c' && "fcvt.l.d"@[2] == 'v' && "fcvt.l.d"@[3] == 't' && "fcvt.l.d"@[4] == '.' && "fcvt.l.d"@[5] == 'l' && "fcvt.l.d"@[6] == '.' && "fcvt.l.d"@[7] == 'd');
        assert("fcvt.l.q"@.len() == 8 && "fcvt.l.q"@[0] == 'f' && "fcvt.l.q"@[1] == 'c' && "fcvt.l.q"@[2] == 'v' && "fcvt.l.q"@[3] == 't' && "fcvt.l.q"@[4] == '.' && "fcvt.l.q"@[5] == 'l' && "fcvt.l.q"@[6] == '.' && "fcvt.l.q"@[7] == 'q');
        assert("fcvt.l.s"@.len() == 8 && "fcvt.l.s"@[0] == 'f' && "fcvt.l.s"@[1] == 'c' && "fcvt.l.s"@[2] == 'v' && "fcvt.l.s"@[3] == 't' && "fcvt.l.s"@[4] == '.' && "fcvt.l.s"@[5] == 'l' && "fcvt.l.s"@[6] == '.' && "fcvt.l.s"@[7] == 's');
        assert("fcvt.lu.d"@.len() == 9 && "fcvt.lu.d"@[0] == 'f' && "fcvt.lu.d"@[1] == 'c' && "fcvt.lu.d"@[2] == 'v' && "fcvt.lu.d"@[3] == 't' && "fcvt.lu.d"@[4] == '.' && "fcvt.lu.d"@[5] == 'l' && "fcvt.lu.d"@[6] == 'u' && "fcvt.lu.d"@[7] == '.' && "fcvt.lu.d"@[8] == 'd');
        assert("fcvt.lu.q"@.len() == 9 && "fcvt.lu.q"@[0] == 'f' && "fcvt.lu.q"@[1] == 'c' && "fcvt.lu.q"@[2] == 'v' && "fcvt.lu.q"@[3] == 't' && "fcvt.lu.q"@[4] == '.' && "fcvt.lu.q"@[5] == 'l' && "fcvt.lu.q"@[6] == 'u' && "fcvt.lu.q"@[7] == '.' && "fcvt.lu.q"@[8] == 'q');
        assert("fcvt.lu.s"@.len() == 9 && "fcvt.lu.s"@[0] == 'f' && "fcvt.lu.s"@[1] == 'c' && "fcvt.lu.s"@[2] == 'v' && "fcvt.lu.s"@[3] == 't' && "fcvt.lu.s"@[4] == '.' && "fcvt.lu.s"@[5] == 'l' && "fcvt.lu.s"@[6] == 'u' && "fcvt.lu.s"@[7] == '.' && "fcvt.lu.s"@[8] == 's');
        assert("fcvt.q.d"@.len() == 8 && "fcvt.q.d"@[0] == 'f' && "fcvt.q.d"@[1] == 'c' && "fcvt.q.d"@[2] == 'v' && "fcvt.q.d"@[3] == 't' && "fcvt.q.d"@[4] == '.' && "fcvt.q.d"@[5] == 'q' && "fcvt.q.d"@[6] == '.' && "fcvt.q.d"@[7] == 'd');
        assert("fcvt.q.l"@.len() == 8 && "fcvt.q.l"@[0] == 'f' && "fcvt.q.l"@[1] == 'c' && "fcvt.q.l"@[2] == 'v' && "fcvt.q.l"@[3] == 't' && "fcvt.q.l"@[4] == '.' && "fcvt.q.l"@[5] == 'q' && "fcvt.q.l"@[6] == '.' && "fcvt.q.l"@[7] == 'l');
        assert("fcvt.q.lu"@.len() == 9 && "fcvt.q.lu"@[0] == 'f' && "fcvt.q.lu"@[1] == 'c' && "fcvt.q.lu"@[2] == 'v' && "fcvt.q.lu"@[3] == 't' && "fcvt.q.lu"@[4] == '.' && "fcvt.q.lu"@[5] == 'q' && "fcvt.q.lu"@[6] == '.' && "fcvt.q.lu"@[7] == 'l' && "fcvt.q.lu"@[8] == 'u');
        assert("fcvt.q.s"@.len() == 8 && "fcvt.q.s"@[0] == 'f' && "fcvt.q.s"@[1] == 'c' && "fcvt.q.s"@[2] == 'v' && "fcvt.q.s"@[3] == 't' && "fcvt.q.s"@[4] == '.' && "fcvt.q.s"@[5] == 'q' && "fcvt.q.s"@[6] == '.' && "fcvt.q.s"@[7] == 's');
        assert("fcvt.q.t"@.len() == 8 && "fcvt.q.t"@[0] == 'f' && "fcvt.q.t"@[1] == 'c' && "fcvt.q.t"@[2] == 'v' && "fcvt.q.t"@[3] == 't' && "fcvt.q.t"@[4] == '.' && "fcvt.q.t"@[5] == 'q' && "fcvt.q.t"@[6] == '.' && "fcvt.q.t"@[7] == 't');
        assert("fcvt.q.tu"@.len() == 9 && "fcvt.q.tu"@[0] == 'f' && "fcvt.q.tu"@[1] == 'c' && "fcvt.q.tu"@[2] == 'v' && "fcvt.q.tu"@[3] == 't' && "fcvt.q.tu"@[4] == '.' && "fcvt.q.tu"@[5] == 'q' && "fcvt.q.tu"@[6] == '.' && "fcvt.q.tu"@[7] == 't' && "fcvt.q.tu"@[8] == 'u');
        assert("fcvt.q.w"@.len() == 8 && "fcvt.q.w"@[0] == 'f' && "fcvt.q.w"@[1] == 'c' && "fcvt.q.w"@[2] == 'v' && "fcvt.q.w"@[3] == 't' && "fcvt.q.w"@[4] == '.' && "fcvt.q.w"@[5] == 'q' && "fcvt.q.w"@[6] == '.' && "fcvt.q.w"@[7] == 'w');
        assert("fcvt.q.wu"@.len() == 9 && "fcvt.q.wu"@[0] == 'f' && "fcvt.q.wu"@[1] == 'c' && "fcvt.q.wu"@[2] == 'v' && "fcvt.q.wu"@[3] == 't' && "fcvt.q.wu"@[4] == '.' && "fcvt.q.wu"@[5] == 'q' && "fcvt.q.wu"@[6] == '.' && "fcvt.q.wu"@[7] == 'w' && "fcvt.q.wu"@[8] == 'u');
        assert("fcvt.s.d"@.len() == 8 && "fcvt.s.d"@[0] == 'f' && "fcvt.s.d"@[1] == 'c' && "fcvt.s.d"@[2] == 'v' && "fcvt.s.d"@[3] == 't' && "fcvt.s.d"@[4] == '.' && "fcvt.s.d"@[5] == 's' && "fcvt.s.d"@[6] == '.' && "fcvt.s.d"@[7] == 'd');
        assert("fcvt.s.l"@.len() == 8 && "fcvt.s.l"@[0] == 'f' && "fcvt.s.l"@[1] == 'c' && "fcvt.s.l"@[2] == 'v' && "fcvt.s.l"@[3] == 't' && "fcvt.s.l"@[4] == '.' && "fcvt.s.l"@[5] == 's' && "fcvt.s.l"@[6] == '.' && "fcvt.s.l"@[7] == 'l');
        assert("fcvt.s.lu"@.len() == 9 && "fcvt.s.lu"@[0] == 'f' && "fcvt.s.lu"@[1] == 'c' && "fcvt.s.lu"@[2] == 'v' && "fcvt.s.lu"@[3] == 't' && "fcvt.s.lu"@[4] == '.' && "fcvt.s.lu"@[5] == 's' && "fcvt.s.lu"@[6] == '.' && "fcvt.s.lu"@[7] == 'l' && "fcvt.s.lu"@[8] == 'u');
        assert("fcvt.s.q"@.len() == 8 && "fcvt.s.q"@[0] == 'f' && "fcvt.s.q"@[1] == 'c' && "fcvt.s.q"@[2] == 'v' && "fcvt.s.q"@[3] == 't' && "fcvt.s.q"@[4] == '.' && "fcvt.s.q"@[5] == 's' && "fcvt.s.q"@[6] == '.' && "fcvt.s.q"@[7] == 'q');
        assert("fcvt.s.t"@.len() == 8 && "fcvt.s.t"@[0] == 'f' && "fcvt.s.t"@[1] == 'c' && "fcvt.s.t"@[2] == 'v' && "fcvt.s.t"@[3] == 't' && "fcvt.s.t"@[4] == '.' && "fcvt.s.t"@[5] == 's' && "fcvt.s.t"@[6] == '.' && "fcvt.s.t"@[7] == 't');
        assert("fcvt.s.tu"@.len() == 9 && "fcvt.s.tu"@[0] == 'f' && "fcvt.s.tu"@[1] == 'c' && "fcvt.s.tu"@[2] == 'v' && "fcvt.s.tu"@[3] == 't' && "fcvt.s.tu"@[4] == '.' && "fcvt.s.tu"@[5] == 's' && "fcvt.s.tu"@[6] == '.' && "fcvt.s.tu"@[7] == 't' && "fcvt.s.tu"@[8] == 'u');
        assert("fcvt.s.w"@.len() == 8 && "fcvt.s.w"@[0] == 'f' && "fcvt.s.w"@[1] == 'c' && "fcvt.s.w"@[2] == 'v' && "fcvt.s.w"@[3] == 't' && "fcvt.s.w"@[4] == '.' && "fcvt.s.w"@[5] == 's' && "fcvt.s.w"@[6] == '.' && "fcvt.s.w"@[7] == 'w');
        assert("fcvt.s.wu"@.len() == 9 && "fcvt.s.wu"@[0] == 'f' && "fcvt.s.wu"@[1] == 'c' && "fcvt.s.wu"@[2] == 'v' && "fcvt.s.wu"@[3] == 't' && "fcvt.s.wu"@[4] == '.' && "fcvt.s.wu"@[5] == 's' && "fcvt.s.wu"@[6] == '.' && "fcvt.s.wu"@[7] == 'w' && "fcvt.s.wu"@[8] == 'u');
        assert("fcvt.t.d"@.len() == 8 && "fcvt.t.d"@[0] == 'f' && "fcvt.t.d"@[1] == 'c' && "fcvt.t.d"@[2] == 'v' && "fcvt.t.d"@[3] == 't' && "fcvt.t.d"@[4] == '.' && "fcvt.t.d"@[5] == 't' && "fcvt.t.d"@[6] == '.' && "fcvt.t.d"@[7] == 'd');
        assert("fcvt.t.q"@.len() == 8 && "fcvt.t.q"@[0] == 'f' && "fcvt.t.q"@[1] == 'c' && "fcvt.t.q"@[2] == 'v' && "fcvt.t.q"@[3] == 't' && "fcvt.t.q"@[4] == '.' && "fcvt.t.q"@[5] == 't' && "fcvt.t.q"@[6] == '.' && "fcvt.t.q"@[7] == 'q');
        assert("fcvt.t.s"@.len() == 8 && "fcvt.t.s"@[0] == 'f' && "fcvt.t.s"@[1] == 'c' && "fcvt.t.s"@[2] == 'v' && "fcvt.t.s"@[3] == 't' && "fcvt.t.s"@[4] == '.' && "fcvt.t.s"@[5] == 't' && "fcvt.t.s"@[6] == '.' && "fcvt.t.s"@[7] == 's');
        assert("fcvt.tu.d"@.len() == 9 && "fcvt.tu.d"@[0] == 'f' && "fcvt.tu.d"@[1] == 'c' && "fcvt.tu.d"@[2] == 'v' && "fcvt.tu.d"@[3] == 't' && "fcvt.tu.d"@[4] == '.' && "fcvt.tu.d"@[5] == 't' && "fcvt.tu.d"@[6] == 'u' && "fcvt.tu.d"@[7] == '.' && "fcvt.tu.d"@[8] == 'd');
        assert("fcvt.tu.q"@.len() == 9 && "fcvt.tu.q"@[0] == 'f' && "fcvt.tu.q"@[1] == 'c' && "fcvt.tu.q"@[2] == 'v' && "fcvt.tu.q"@[3] == 't' && "fcvt.tu.q"@[4] == '.' && "fcvt.tu.q"@[5] == 't' && "fcvt.tu.q"@[6] == 'u' && "fcvt.tu.q"@[7] == '.' && "fcvt.tu.q"@[8] == 'q');
        assert("fcvt.tu.s"@.len() == 9 && "fcvt.tu.s"@[0] == 'f' && "fcvt.tu.s"@[1] == 'c' && "fcvt.tu.s"@[2] == 'v' && "fcvt.tu.s"@[3] == 't' && "fcvt.tu.s"@[4] == '.' && "fcvt.tu.s"@[5] == 't' && "fcvt.tu.s"@[6] == 'u' && "fcvt.tu.s"@[7] == '.' && "fcvt.tu.s"@[8] == 's');
        assert("fcvt.w.d"@.len() == 8 && "fcvt.w.d"@[0] == 'f' && "fcvt.w.d"@[1] == 'c' && "fcvt.w.d"@[2] == 'v' && "fcvt.w.d"@[3] == 't' && "fcvt.w.d"@[4] == '.' && "fcvt.w.d"@[5] == 'w' && "fcvt.w.d"@[6] == '.' && "fcvt.w.d"@[7] == 'd');
        assert("fcvt.w.q"@.len() == 8 && "fcvt.w.q"@[0] == 'f' && "fcvt.w.q"@[1] == 'c' && "fcvt.w.q"@[2] == 'v' && "fcvt.w.q"@[3] == 't' && "fcvt.w.q"@[4] == '.' && "fcvt.w.q"@[5] == 'w' && "fcvt.w.q"@[6] == '.' && "fcvt.w.q"@[7] == 'q');
        assert("fcvt.w.s"@.len() == 8 && "fcvt.w.s"@[0] == 'f' && "fcvt.w.s"@[1] == 'c' && "fcvt.w.s"@[2] == 'v' && "fcvt.w.s"@[3] == 't' && "fcvt.w.s"@[4] == '.' && "fcvt.w.s"@[5] == 'w' && "fcvt.w.s"@[6] == '.' && "fcvt.w.s"@[7] == 's');
        assert("fcvt.wu.d"@.len() == 9 && "fcvt.wu.d"@[0] == 'f' && "fcvt.wu.d"@[1] == 'c' && "fcvt.wu.d"@[2] == 'v' && "fcvt.wu.d"@[3] == 't' && "fcvt.wu.d"@[4] == '.' && "fcvt.wu.d"@[5] == 'w' && "fcvt.wu.d"@[6] == 'u' && "fcvt.wu.d"@[7] == '.' && "fcvt.wu.d"@[8] == 'd');
        assert("fcvt.wu.q"@.len() == 9 && "fcvt.wu.q"@[0] == 'f' && "fcvt.wu.q"@[1] == 'c' && "fcvt.wu.q"@[2] == 'v' && "fcvt.wu.q"@[3] == 't' && "fcvt.wu.q"@[4] == '.' && "fcvt.wu.q"@[5] == 'w' && "fcvt.wu.q"@[6] == 'u' && "fcvt.wu.q"@[7] == '.' && "fcvt.wu.q"@[8] == 'q');
        assert("fcvt.wu.s"@.len() == 9 && "fcvt.wu.s"@[0] == 'f' && "fcvt.wu.s"@[1] == 'c' && "fcvt.wu.s"@[2] == 'v' && "fcvt.wu.s"@[3] == 't' && "fcvt.wu.s"@[4] == '.' && "fcvt.wu.s"@[5] == 'w' && "fcvt.wu.s"@[6] == 'u' && "fcvt.wu.s"@[7] == '.' && "fcvt.wu.s"@[8] == 's');
        assert("fdiv.d"@.len() == 6 && "fdiv.d"@[0] == 'f' && "fdiv.d"@[1] == 'd' && "fdiv.d"@[2] == 'i' && "fdiv.d"@[3] == 'v' && "fdiv.d"@[4] == '.' && "fdiv.d"@[5] == 'd');
        assert("fdiv.q"@.len() == 6 && "fdiv.q"@[0] == 'f' && "fdiv.q"@[1] == 'd' && "fdiv.q"@[2] == 'i' && "fdiv.q"@[3] == 'v' && "fdiv.q"@[4] == '.' && "fdiv.q"@[5] == 'q');
        assert("fdiv.s"@.len() == 6 && "fdiv.s"@[0] == 'f' && "fdiv.s"@[1] == 'd' && "fdiv.s"@[2] == 'i' && "fdiv.s"@[3] == 'v' && "fdiv.s"@[4] == '.' && "fdiv.s"@[5] == 's');
        assert("fence"@.len() == 5 && "fence"@[0] == 'f' && "fence"@[1] == 'e' && "fence"@[2] == 'n' && "fence"@[3] == 'c' && "fence"@[4] == 'e');
        assert("fence.i"@.len() == 7 && "fence.i"@[0] == 'f' && "fence.i"@[1] == 'e' && "fence.i"@[2] == 'n' && "fence.i"@[3] == 'c' && "fence.i"@[4] == 'e' && "fence.i"@[5] == '.' && "fence.i"@[6] == 'i');
        assert("feq.d"@.len() == 5 && "feq.d"@[0] == 'f' && "feq.d"@[1] == 'e' && "feq.d"@[2] == 'q' && "feq.d"@[3] == '.' && "feq.d"@[4] == 'd');
        assert("feq.q"@.len() == 5 && "feq.q"@[0] == 'f' && "feq.q"@[1] == 'e' && "feq.q"@[2] == 'q' && "feq.q"@[3] == '.' && "feq.q"@[4] == 'q');
        assert("feq.s"@.len() == 5 && "feq.s"@[0] == 'f' && "feq.s"@[1] == 'e' && "feq.s"@[2] == 'q' && "feq.s"@[3] == '.' && "feq.s"@[4] == 's');
        assert("fld"@.len() == 3 && "fld"@[0] == 'f' && "fld"@[1] == 'l' && "fld"@[2] == 'd');
        assert("fle.d"@.len() == 5 && "fle.d"@[0] == 'f' && "fle.d"@[1] == 'l' && "fle.d"@[2] == 'e' && "fle.d"@[3] == '.' && "fle.d"@[4] == 'd');
        assert("fle.q"@.len() == 5 && "fle.q"@[0] == 'f' && "fle.q"@[1] == 'l' && "fle.q"@[2] == 'e' && "fle.q"@[3] == '.' && "fle.q"@[4] == 'q');
        assert("fle.s"@.len() == 5 && "fle.s"@[0] == 'f' && "fle.s"@[1] == 'l' && "fle.s"@[2] == 'e' && "fle.s"@[3] == '.' && "fle.s"@[4] == 's');
        assert("flq"@.len() == 3 && "flq"@[0] == 'f' && "flq"@[1] == 'l' && "flq"@[2] == 'q');
        assert("flt.d"@.len() == 5 && "flt.d"@[0] == 'f' && "flt.d"@[1] == 'l' && "flt.d"@[2] == 't' && "flt.d"@[3] == '.' && "flt.d"@[4] == 'd');
        assert("flt.q"@.len() == 5 && "flt.q"@[0] == 'f' && "flt.q"@[1] == 'l' && "flt.q"@[2] == 't' && "flt.q"@[3] == '.' && "flt.q"@[4] == 'q');
        assert("flt.s"@.len() == 5 && "flt.s"@[0] == 'f' && "flt.s"@[1] == 'l' && "flt.s"@[2] == 't' && "flt.s"@[3] == '.' && "flt.s"@[4] == 's');
        assert("flw"@.len() == 3 && "flw"@[0] == 'f' && "flw"@[1] == 'l' && "flw"@[2] == 'w');
        assert("fmadd.d"@.len() == 7 && "fmadd.d"@[0] == 'f' && "fmadd.d"@[1] == 'm' && "fmadd.d"@[2] == 'a' && "fmadd.d"@[3] == 'd' && "fmadd.d"@[4] == 'd' && "fmadd.d"@[5] == '.' && "fmadd.d"@[6] == 'd');
        assert("fmadd.q"@.len() == 7 && "fmadd.q"@[0] == 'f' && "fmadd.q"@[1] == 'm' && "fmadd.q"@[2] == 'a' && "fmadd.q"@[3] == 'd' && "fmadd.q"@[4] == 'd' && "fmadd.q"@[5] == '.' && "fmadd.q"@[6] == 'q');
        assert("fmadd.s"@.len() == 7 && "fmadd.s"@[0] == 'f' && "fmadd.s"@[1] == 'm' && "fmadd.s"@[2] == 'a' && "fmadd.s"@[3] == 'd' && "fmadd.s"@[4] == 'd' && "fmadd.s"@[5] == '.' && "fmadd.s"@[6] == 's');
        assert("fmax.d"@.len() == 6 && "fmax.d"@[0] == 'f' && "fmax.d"@[1] == 'm' && "fmax.d"@[2] == 'a' && "fmax.d"@[3] == 'x' && "fmax.d"@[4] == '.' && "fmax.d"@[5] == 'd');
        assert("fmax.q"@.len() == 6 && "fmax.q"@[0] == 'f' && "fmax.q"@[1] == 'm' && "fmax.q"@[2] == 'a' && "fmax.q"@[3] == 'x' && "fmax.q"@[4] == '.' && "fmax.q"@[5] == 'q');
        assert("fmax.s"@.len() == 6 && "fmax.s"@[0] == 'f' && "fmax.s"@[1] == 'm' && "fmax.s"@[2] == 'a' && "fmax.s"@[3] == 'x' && "fmax.s"@[4] == '.' && "fmax.s"@[5] == 's');
        assert("fmin.d"@.len() == 6 && "fmin.d"@[0] == 'f' && "fmin.d"@[1] == 'm' && "fmin.d"@[2] == 'i' && "fmin.d"@[3] == 'n' && "fmin.d"@[4] == '.' && "fmin.d"@[5] == 'd');
        assert("fmin.q"@.len() == 6 && "fmin.q"@[0] == 'f' && "fmin.q"@[1] == 'm' && "fmin.q"@[2] == 'i' && "fmin.q"@[3] == 'n' && "fmin.q"@[4] == '.' && "fmin.q"@[5] == 'q');
        assert("fmin.s"@.len() == 6 && "fmin.s"@[0] == 'f' && "fmin.s"@[1] == 'm' && "fmin.s"@[2] == 'i' && "fmin.s"@[3] == 'n' && "fmin.s"@[4] == '.' && "fmin.s"@[5] == 's');
        assert("fmsub.d"@.len() == 7 && "fmsub.d"@[0] == 'f' && "fmsub.d"@[1] == 'm' && "fmsub.d"@[2] == 's' && "fmsub.d"@[3] == 'u' && "fmsub.d"@[4] == 'b' && "fmsub.d"@[5] == '.' && "fmsub.d"@[6] == 'd');
        assert("fmsub.q"@.len() == 7 && "fmsub.q"@[0] == 'f' && "fmsub.q"@[1] == 'm' && "fmsub.q"@[2] == 's' && "fmsub.q"@[3] == 'u' && "fmsub.q"@[4] == 'b' && "fmsub.q"@[5] == '.' && "fmsub.q"@[6] == 'q');
        assert("fmsub.s"@.len() == 7 && "fmsub.s"@[0] == 'f' && "fmsub.s"@[1] == 'm' && "fmsub.s"@[2] == 's' && "fmsub.s"@[3] == 'u' && "fmsub.s"@[4] == 'b' && "fmsub.s"@[5] == '.' && "fmsub.s"@[6] == 's');
        assert("fmul.d"@.len() == 6 && "fmul.d"@[0] == 'f' && "fmul.d"@[1] == 'm' && "fmul.d"@[2] == 'u' && "fmul.d"@[3] == 'l' && "fmul.d"@[4] == '.' && "fmul.d"@[5] == 'd');
        assert("fmul.q"@.len() == 6 && "fmul.q"@[0] == 'f' && "fmul.q"@[1] == 'm' && "fmul.q"@[2] == 'u' && "fmul.q"@[3] == 'l' && "fmul.q"@[4] == '.' && "fmul.q"@[5] == 'q');
        assert("fmul.s"@.len() == 6 && "fmul.s"@[0] == 'f' && "fmul.s"@[1] == 'm' && "fmul.s"@[2] == 'u' && "fmul.s"@[3] == 'l' && "fmul.s"@[4] == '.' && "fmul.s"@[5] == 's');
        assert("fmv.d"@.len() == 5 && "fmv.d"@[0] == 'f' && "fmv.d"@[1] == 'm' && "fmv.d"@[2] == 'v' && "fmv.d"@[3] == '.' && "fmv.d"@[4] == 'd');
        assert("fmv.d.x"@.len() == 7 && "fmv.d.x"@[0] == 'f' && "fmv.d.x"@[1] == 'm' && "fmv.d.x"@[2] == 'v' && "fmv.d.x"@[3] == '.' && "fmv.d.x"@[4] == 'd' && "fmv.d.x"@[5] == '.' && "fmv.d.x"@[6] == 'x');
        assert("fmv.q.x"@.len() == 7 && "fmv.q.x"@[0] == 'f' && "fmv.q.x"@[1] == 'm' && "fmv.q.x"@[2] == 'v' && "fmv.q.x"@[3] == '.' && "fmv.q.x"@[4] == 'q' && "fmv.q.x"@[5] == '.' && "fmv.q.x"@[6] == 'x');
        assert("fmv.s"@.len() == 5 && "fmv.s"@[0] == 'f' && "fmv.s"@[1] == 'm' && "fmv.s"@[2] == 'v' && "fmv.s"@[3] == '.' && "fmv.s"@[4] == 's');
        assert("fmv.w.x"@.len() == 7 && "fmv.w.x"@[0] == 'f' && "fmv.w.x"@[1] == 'm' && "fmv.w.x"@[2] == 'v' && "fmv.w.x"@[3] == '.' && "fmv.w.x"@[4] == 'w' && "fmv.w.x"@[5] == '.' && "fmv.w.x"@[6] == 'x');
        assert("fmv.x.d"@.len() == 7 && "fmv.x.d"@[0] == 'f' && "fmv.x.d"@[1] == 'm' && "fmv.x.d"@[2] == 'v' && "fmv.x.d"@[3] == '.' && "fmv.x.d"@[4] == 'x' && "fmv.x.d"@[5] == '.' && "fmv.x.d"@[6] == 'd');
        assert("fmv.x.q"@.len() == 7 && "fmv.x.q"@[0] == 'f' && "fmv.x.q"@[1] == 'm' && "fmv.x.q"@[2] == 'v' && "fmv.x.q"@[3] == '.' && "fmv.x.q"@[4] == 'x' && "fmv.x.q"@[5] == '.' && "fmv.x.q"@[6] == 'q');
        assert("fmv.x.w"@.len() == 7 && "fmv.x.w"@[0] == 'f' && "fmv.x.w"@[1] == 'm' && "fmv.x.w"@[2] == 'v' && "fmv.x.w"@[3] == '.' && "fmv.x.w"@[4] == 'x' && "fmv.x.w"@[5] == '.' && "fmv.x.w"@[6] == 'w');
        assert("fneg.d"@.len() == 6 && "fneg.d"@[0] == 'f' && "fneg.d"@[1] == 'n' && "fneg.d"@[2] == 'e' && "fneg.d"@[3] == 'g' && "fneg.d"@[4] == '.' && "fneg.d"@[5] == 'd');
        assert("fneg.s"@.len() == 6 && "fneg.s"@[0] == 'f' && "fneg.s"@[1] == 'n' && "fneg.s"@[2] == 'e' && "fneg.s"@[3] == 'g' && "fneg.s"@[4] == '.' && "fneg.s"@[5] == 's');
        assert("fnmadd.d"@.len() == 8 && "fnmadd.d"@[0] == 'f' && "fnmadd.d"@[1] == 'n' && "fnmadd.d"@[2] == 'm' && "fnmadd.d"@[3] == 'a' && "fnmadd.d"@[4] == 'd' && "fnmadd.d"@[5] == 'd' && "fnmadd.d"@[6] == '.' && "fnmadd.d"@[7] == 'd');
        assert("fnmadd.q"@.len() == 8 && "fnmadd.q"@[0] == 'f' && "fnmadd.q"@[1] == 'n' && "fnmadd.q"@[2] == 'm' && "fnmadd.q"@[3] == 'a' && "fnmadd.q"@[4] == 'd' && "fnmadd.q"@[5] == 'd' && "fnmadd.q"@[6] == '.' && "fnmadd.q"@[7] == 'q');
        assert("fnmadd.s"@.len() == 8 && "fnmadd.s"@[0] == 'f' && "fnmadd.s"@[1] == 'n' && "fnmadd.s"@[2] == 'm' && "fnmadd.s"@[3] == 'a' && "fnmadd.s"@[4] == 'd' && "fnmadd.s"@[5] == 'd' && "fnmadd.s"@[6] == '.' && "fnmadd.s"@[7] == 's');
        assert("fnmsub.d"@.len() == 8 && "fnmsub.d"@[0] == 'f' && "fnmsub.d"@[1] == 'n' && "fnmsub.d"@[2] == 'm' && "fnmsub.d"@[3] == 's' && "fnmsub.d"@[4] == 'u' && "fnmsub.d"@[5] == 'b' && "fnmsub.d"@[6] == '.' && "fnmsub.d"@[7] == 'd');
        assert("fnmsub.q"@.len() == 8 && "fnmsub.q"@[0] == 'f' && "fnmsub.q"@[1] == 'n' && "fnmsub.q"@[2] == 'm' && "fnmsub.q"@[3] == 's' && "fnmsub.q"@[4] == 'u' && "fnmsub.q"@[5] == 'b' && "fnmsub.q"@[6] == '.' && "fnmsub.q"@[7] == 'q');
        assert("fnmsub.s"@.len() == 8 && "fnmsub.s"@[0] == 'f' && "fnmsub.s"@[1] == 'n' && "fnmsub.s"@[2] == 'm' && "fnmsub.s"@[3] == 's' && "fnmsub.s"@[4] == 'u' && "fnmsub.s"@[5] == 'b' && "fnmsub.s"@[6] == '.' && "fnmsub.s"@[7] == 's');
        assert("fsd"@.len() == 3 && "fsd"@[0] == 'f' && "fsd"@[1] == 's' && "fsd"@[2] == 'd');
        assert("fsgnj.d"@.len() == 7 && "fsgnj.d"@[0] == 'f' && "fsgnj.d"@[1] == 's' && "fsgnj.d"@[2] == 'g' && "fsgnj.d"@[3] == 'n' && "fsgnj.d"@[4] == 'j' && "fsgnj.d"@[5] == '.' && "fsgnj.d"@[6] == 'd');
        assert("fsgnj.q"@.len() == 7 && "fsgnj.q"@[0] == 'f' && "fsgnj.q"@[1] == 's' && "fsgnj.q"@[2] == 'g' && "fsgnj.q"@[3] == 'n' && "fsgnj.q"@[4] == 'j' && "fsgnj.q"@[5] == '.' && "fsgnj.q"@[6] == 'q');
        assert("fsgnj.s"@.len() == 7 && "fsgnj.s"@[0] == 'f' && "fsgnj.s"@[1] == 's' && "fsgnj.s"@[2] == 'g' && "fsgnj.s"@[3] == 'n' && "fsgnj.s"@[4] == 'j' && "fsgnj.s"@[5] == '.' && "fsgnj.s"@[6] == 's');
        assert("fsgnjn.d"@.len() == 8 && "fsgnjn.d"@[0] == 'f' && "fsgnjn.d"@[1] == 's' && "fsgnjn.d"@[2] == 'g' && "fsgnjn.d"@[3] == 'n' && "fsgnjn.d"@[4] == 'j' && "fsgnjn.d"@[5] == 'n' && "fsgnjn.d"@[6] == '.' && "fsgnjn.d"@[7] == 'd');
        assert("fsgnjn.q"@.len() == 8 && "fsgnjn.q"@[0] == 'f' && "fsgnjn.q"@[1] == 's' && "fsgnjn.q"@[2] == 'g' && "fsgnjn.q"@[3] == 'n' && "fsgnjn.q"@[4] == 'j' && "fsgnjn.q"@[5] == 'n' && "fsgnjn.q"@[6] == '.' && "fsgnjn.q"@[7] == 'q');
        assert("fsgnjn.s"@.len() == 8 && "fsgnjn.s"@[0] == 'f' && "fsgnjn.s"@[1] == 's' && "fsgnjn.s"@[2] == 'g' && "fsgnjn.s"@[3] == 'n' && "fsgnjn.s"@[4] == 'j' && "fsgnjn.s"@[5] == 'n' && "fsgnjn.s"@[6] == '.' && "fsgnjn.s"@[7] == 's');
        assert("fsgnjx.d"@.len() == 8 && "fsgnjx.d"@[0] == 'f' && "fsgnjx.d"@[1] == 's' && "fsgnjx.d"@[2] == 'g' && "fsgnjx.d"@[3] == 'n' && "fsgnjx.d"@[4] == 'j' && "fsgnjx.d"@[5] == 'x' && "fsgnjx.d"@[6] == '.' && "fsgnjx.d"@[7] == 'd');
        assert("fsgnjx.q"@.len() == 8 && "fsgnjx.q"@[0] == 'f' && "fsgnjx.q"@[1] == 's' && "fsgnjx.q"@[2] == 'g' && "fsgnjx.q"@[3] == 'n' && "fsgnjx.q"@[4] == 'j' && "fsgnjx.q"@[5] == 'x' && "fsgnjx.q"@[6] == '.' && "fsgnjx.q"@[7] == 'q');
        assert("fsgnjx.s"@.len() == 8 && "fsgnjx.s"@[0] == 'f' && "fsgnjx.s"@[1] == 's' && "fsgnjx.s"@[2] == 'g' && "fsgnjx.s"@[3] == 'n' && "fsgnjx.s"@[4] == 'j' && "fsgnjx.s"@[5] == 'x' && "fsgnjx.s"@[6] == '.' && "fsgnjx.s"@[7] == 's');
        assert("fsq"@.len() == 3 && "fsq"@[0] == 'f' && "fsq"@[1] == 's' && "fsq"@[2] == 'q');
        assert("fsqrt.d"@.len() == 7 && "fsqrt.d"@[0] == 'f' && "fsqrt.d"@[1] == 's' && "fsqrt.d"@[2] == 'q' && "fsqrt.d"@[3] == 'r' && "fsqrt.d"@[4] == 't' && "fsqrt.d"@[5] == '.' && "fsqrt.d"@[6] == 'd');
        assert("fsqrt.q"@.len() == 7 && "fsqrt.q"@[0] == 'f' && "fsqrt.q"@[1] == 's' && "fsqrt.q"@[2] == 'q' && "fsqrt.q"@[3] == 'r' && "fsqrt.q"@[4] == 't' && "fsqrt.q"@[5] == '.' && "fsqrt.q"@[6] == 'q');
        assert("fsqrt.s"@.len() == 7 && "fsqrt.s"@[0] == 'f' && "fsqrt.s"@[1] == 's' && "fsqrt.s"@[2] == 'q' && "fsqrt.s"@[3] == 'r' && "fsqrt.s"@[4] == 't' && "fsqrt.s"@[5] == '.' && "fsqrt.s"@[6] == 's');
        assert("fsub.d"@.len() == 6 && "fsub.d"@[0] == 'f' && "fsub.d"@[1] == 's' && "fsub.d"@[2] == 'u' && "fsub.d"@[3] == 'b' && "fsub.d"@[4] == '.' && "fsub.d"@[5] == 'd');
        assert("fsub.q"@.len() == 6 && "fsub.q"@[0] == 'f' && "fsub.q"@[1] == 's' && "fsub.q"@[2] == 'u' && "fsub.q"@[3] == 'b' && "fsub.q"@[4] == '.' && "fsub.q"@[5] == 'q');
        assert("fsub.s"@.len() == 6 && "fsub.s"@[0] == 'f' && "fsub.s"@[1] == 's' && "fsub.s"@[2] == 'u' && "fsub.s"@[3] == 'b' && "fsub.s"@[4] == '.' && "fsub.s"@[5] == 's');
        assert("fsw"@.len() == 3 && "fsw"@[0] == 'f' && "fsw"@[1] == 's' && "fsw"@[2] == 'w');
        assert("j"@.len() == 1 && "j"@[0] == 'j');
        assert("jal"@.len() == 3 && "jal"@[0] == 'j' && "jal"@[1] == 'a' && "jal"@[2] == 'l');
        assert("jalr"@.len() == 4 && "jalr"@[0] == 'j' && "jalr"@[1] == 'a' && "jalr"@[2] == 'l' && "jalr"@[3] == 'r');
        assert("jr"@.len() == 2 && "jr"@[0] == 'j' && "jr"@[1] == 'r');
        assert("la.16"@.len() == 5 && "la.16"@[0] == 'l' && "la.16"@[1] == 'a' && "la.16"@[2] == '.' && "la.16"@[3] == '1' && "la.16"@[4] == '6');
        assert("la.32"@.len() == 5 && "la.32"@[0] == 'l' && "la.32"@[1] == 'a' && "la.32"@[2] == '.' && "la.32"@[3] == '3' && "la.32"@[4] == '2');
        assert("la.64"@.len() == 5 && "la.64"@[0] == 'l' && "la.64"@[1] == 'a' && "la.64"@[2] == '.' && "la.64"@[3] == '6' && "la.64"@[4] == '4');
        assert("lb"@.len() == 2 && "lb"@[0] == 'l' && "lb"@[1] == 'b');
        assert("lbu"@.len() == 3 && "lbu"@[0] == 'l' && "lbu"@[1] == 'b' && "lbu"@[2] == 'u');
        assert("ld"@.len() == 2 && "ld"@[0] == 'l' && "ld"@[1] == 'd');
        assert("ldu"@.len() == 3 && "ldu"@[0] == 'l' && "ldu"@[1] == 'd' && "ldu"@[2] == 'u');
        assert("lh"@.len() == 2 && "lh"@[0] == 'l' && "lh"@[1] == 'h');
        assert("lhu"@.len() == 3 && "lhu"@[0] == 'l' && "lhu"@[1] == 'h' && "lhu"@[2] == 'u');
        assert("li.16"@.len() == 5 && "li.16"@[0] == 'l' && "li.16"@[1] == 'i' && "li.16"@[2] == '.' && "li.16"@[3] == '1' && "li.16"@[4] == '6');
        assert("li.32"@.len() == 5 && "li.32"@[0] == 'l' && "li.32"@[1] == 'i' && "li.32"@[2] == '.' && "li.32"@[3] == '3' && "li.32"@[4] == '2');
        assert("li.64"@.len() == 5 && "li.64"@[0] == 'l' && "li.64"@[1] == 'i' && "li.64"@[2] == '.' && "li.64"@[3] == '6' && "li.64"@[4] == '4');
        assert("lq"@.len() == 2 && "lq"@[0] == 'l' && "lq"@[1] == 'q');
        assert("lr.d"@.len() == 4 && "lr.d"@[0] == 'l' && "lr.d"@[1] == 'r' && "lr.d"@[2] == '.' && "lr.d"@[3] == 'd');
        assert("lr.q"@.len() == 4 && "lr.q"@[0] == 'l' && "lr.q"@[1] == 'r' && "lr.q"@[2] == '.' && "lr.q"@[3] == 'q');
        assert("lr.w"@.len() == 4 && "lr.w"@[0] == 'l' && "lr.w"@[1] == 'r' && "lr.w"@[2] == '.' && "lr.w"@[3] == 'w');
        assert("lui"@.len() == 3 && "lui"@[0] == 'l' && "lui"@[1] == 'u' && "lui"@[2] == 'i');
        assert("lw"@.len() == 2 && "lw"@[0] == 'l' && "lw"@[1] == 'w');
        assert("lwu"@.len() == 3 && "lwu"@[0] == 'l' && "lwu"@[1] == 'w' && "lwu"@[2] == 'u');
        assert("mul"@.len() == 3 && "mul"@[0] == 'm' && "mul"@[1] == 'u' && "mul"@[2] == 'l');
        assert("muld"@.len() == 4 && "muld"@[0] == 'm' && "muld"@[1] == 'u' && "muld"@[2] == 'l' && "muld"@[3] == 'd');
        assert("mulh"@.len() == 4 && "mulh"@[0] == 'm' && "mulh"@[1] == 'u' && "mulh"@[2] == 'l' && "mulh"@[3] == 'h');
        assert("mulhsu"@.len() == 6 && "mulhsu"@[0] == 'm' && "mulhsu"@[1] == 'u' && "mulhsu"@[2] == 'l' && "mulhsu"@[3] == 'h' && "mulhsu"@[4] == 's' && "mulhsu"@[5] == 'u');
        assert("mulhu"@.len() == 5 && "mulhu"@[0] == 'm' && "mulhu"@[1] == 'u' && "mulhu"@[2] == 'l' && "mulhu"@[3] == 'h' && "mulhu"@[4] == 'u');
        assert("mulw"@.len() == 4 && "mulw"@[0] == 'm' && "mulw"@[1] == 'u' && "mulw"@[2] == 'l' && "mulw"@[3] == 'w');
        assert("mv"@.len() == 2 && "mv"@[0] == 'm' && "mv"@[1] == 'v');
        assert("neg"@.len() == 3 && "neg"@[0] == 'n' && "neg"@[1] == 'e' && "neg"@[2] == 'g');
        assert("negw"@.len() == 4 && "negw"@[0] == 'n' && "negw"@[1] == 'e' && "negw"@[2] == 'g' && "negw"@[3] == 'w');
        assert("nop"@.len() == 3 && "nop"@[0] == 'n' && "nop"@[1] == 'o' && "nop"@[2] == 'p');
        assert("not"@.len() == 3 && "not"@[0] == 'n' && "not"@[1] == 'o' && "not"@[2] == 't');
        assert("or"@.len() == 2 && "or"@[0] == 'o' && "or"@[1] == 'r');
        assert("ori"@.len() == 3 && "ori"@[0] == 'o' && "ori"@[1] == 'r' && "ori"@[2] == 'i');
        assert("rem"@.len() == 3 && "rem"@[0] == 'r' && "rem"@[1] == 'e' && "rem"@[2] == 'm');
        assert("remd"@.len() == 4 && "remd"@[0] == 'r' && "remd"@[1] == 'e' && "remd"@[2] == 'm' && "remd"@[3] == 'd');
        assert("remu"@.len() == 4 && "remu"@[0] == 'r' && "remu"@[1] == 'e' && "remu"@[2] == 'm' && "remu"@[3] == 'u');
        assert("remud"@.len() == 5 && "remud"@[0] == 'r' && "remud"@[1] == 'e' && "remud"@[2] == 'm' && "remud"@[3] == 'u' && "remud"@[4] == 'd');
        assert("remuw"@.len() == 5 && "remuw"@[0] == 'r' && "remuw"@[1] == 'e' && "remuw"@[2] == 'm' && "remuw"@[3] == 'u' && "remuw"@[4] == 'w');
        assert("remw"@.len() == 4 && "remw"@[0] == 'r' && "remw"@[1] == 'e' && "remw"@[2] == 'm' && "remw"@[3] == 'w');
        assert("ret"@.len() == 3 && "ret"@[0] == 'r' && "ret"@[1] == 'e' && "ret"@[2] == 't');
        assert("sb"@.len() == 2 && "sb"@[0] == 's' && "sb"@[1] == 'b');
        assert("sc.d"@.len() == 4 && "sc.d"@[0] == 's' && "sc.d"@[1] == 'c' && "sc.d"@[2] == '.' && "sc.d"@[3] == 'd');
        assert("sc.q"@.len() == 4 && "sc.q"@[0] == 's' && "sc.q"@[1] == 'c' && "sc.q"@[2] == '.' && "sc.q"@[3] == 'q');
        assert("sc.w"@.len() == 4 && "sc.w"@[0] == 's' && "sc.w"@[1] == 'c' && "sc.w"@[2] == '.' && "sc.w"@[3] == 'w');
        assert("sd"@.len() == 2 && "sd"@[0] == 's' && "sd"@[1] == 'd');
        assert("seqz"@.len() == 4 && "seqz"@[0] == 's' && "seqz"@[1] == 'e' && "seqz"@[2] == 'q' && "seqz"@[3] == 'z');
        assert("sext.w"@.len() == 6 && "sext.w"@[0] == 's' && "sext.w"@[1] == 'e' && "sext.w"@[2] == 'x' && "sext.w"@[3] == 't' && "sext.w"@[4] == '.' && "sext.w"@[5] == 'w');
        assert("sgtz"@.len() == 4 && "sgtz"@[0] == 's' && "sgtz"@[1] == 'g' && "sgtz"@[2] == 't' && "sgtz"@[3] == 'z');
        assert("sh"@.len() == 2 && "sh"@[0] == 's' && "sh"@[1] == 'h');
        assert("sll"@.len() == 3 && "sll"@[0] == 's' && "sll"@[1] == 'l' && "sll"@[2] == 'l');
        assert("slld"@.len() == 4 && "slld"@[0] == 's' && "slld"@[1] == 'l' && "slld"@[2] == 'l' && "slld"@[3] == 'd');
        assert("slli"@.len() == 4 && "slli"@[0] == 's' && "slli"@[1] == 'l' && "slli"@[2] == 'l' && "slli"@[3] == 'i');
        assert("sllid"@.len() == 5 && "sllid"@[0] == 's' && "sllid"@[1] == 'l' && "sllid"@[2] == 'l' && "sllid"@[3] == 'i' && "sllid"@[4] == 'd');
        assert("slliw"@.len() == 5 && "slliw"@[0] == 's' && "slliw"@[1] == 'l' && "slliw"@[2] == 'l' && "slliw"@[3] == 'i' && "slliw"@[4] == 'w');
        assert("sllw"@.len() == 4 && "sllw"@[0] == 's' && "sllw"@[1] == 'l' && "sllw"@[2] == 'l' && "sllw"@[3] == 'w');
        assert("slt"@.len() == 3 && "slt"@[0] == 's' && "slt"@[1] == 'l' && "slt"@[2] == 't');
        assert("slti"@.len() == 4 && "slti"@[0] == 's' && "slti"@[1] == 'l' && "slti"@[2] == 't' && "slti"@[3] == 'i');
        assert("sltiu"@.len() == 5 && "sltiu"@[0] == 's' && "sltiu"@[1] == 'l' && "sltiu"@[2] == 't' && "sltiu"@[3] == 'i' && "sltiu"@[4] == 'u');
        assert("sltu"@.len() == 4 && "sltu"@[0] == 's' && "sltu"@[1] == 'l' && "sltu"@[2] == 't' && "sltu"@[3] == 'u');
        assert("sltz"@.len() == 4 && "sltz"@[0] == 's' && "sltz"@[1] == 'l' && "sltz"@[2] == 't' && "sltz"@[3] == 'z');
        assert("snez"@.len() == 4 && "snez"@[0] == 's' && "snez"@[1] == 'n' && "snez"@[2] == 'e' && "snez"@[3] == 'z');
        assert("sq"@.len() == 2 && "sq"@[0] == 's' && "sq"@[1] == 'q');
        assert("sra"@.len() == 3 && "sra"@[0] == 's' && "sra"@[1] == 'r' && "sra"@[2] == 'a');
        assert("srad"@.len() == 4 && "srad"@[0] == 's' && "srad"@[1] == 'r' && "srad"@[2] == 'a' && "srad"@[3] == 'd');
        assert("srai"@.len() == 4 && "srai"@[0] == 's' && "srai"@[1] == 'r' && "srai"@[2] == 'a' && "srai"@[3] == 'i');
        assert("sraid"@.len() == 5 && "sraid"@[0] == 's' && "sraid"@[1] == 'r' && "sraid"@[2] == 'a' && "sraid"@[3] == 'i' && "sraid"@[4] == 'd');
        assert("sraiw"@.len() == 5 && "sraiw"@[0] == 's' && "sraiw"@[1] == 'r' && "sraiw"@[2] == 'a' && "sraiw"@[3] == 'i' && "sraiw"@[4] == 'w');
        assert("sraw"@.len() == 4 && "sraw"@[0] == 's' && "sraw"@[1] == 'r' && "sraw"@[2] == 'a' && "sraw"@[3] == 'w');
        assert("srl"@.len() == 3 && "srl"@[0] == 's' && "srl"@[1] == 'r' && "srl"@[2] == 'l');
        assert("srld"@.len() == 4 && "srld"@[0] == 's' && "srld"@[1] == 'r' && "srld"@[2] == 'l' && "srld"@[3] == 'd');
        assert("srli"@.len() == 4 && "srli"@[0] == 's' && "srli"@[1] == 'r' && "srli"@[2] == 'l' && "srli"@[3] == 'i');
        assert("srlid"@.len() == 5 && "srlid"@[0] == 's' && "srlid"@[1] == 'r' && "srlid"@[2] == 'l' && "srlid"@[3] == 'i' && "srlid"@[4] == 'd');
        assert("srliw"@.len() == 5 && "srliw"@[0] == 's' && "srliw"@[1] == 'r' && "srliw"@[2] == 'l' && "srliw"@[3] == 'i' && "srliw"@[4] == 'w');
        assert("srlw"@.len() == 4 && "srlw"@[0] == 's' && "srlw"@[1] == 'r' && "srlw"@[2] == 'l' && "srlw"@[3] == 'w');
        assert("sub"@.len() == 3 && "sub"@[0] == 's' && "sub"@[1] == 'u' && "sub"@[2] == 'b');
        assert("subd"@.len() == 4 && "subd"@[0] == 's' && "subd"@[1] == 'u' && "subd"@[2] == 'b' && "subd"@[3] == 'd');
        assert("subw"@.len() == 4 && "subw"@[0] == 's' && "subw"@[1] == 'u' && "subw"@[2] == 'b' && "subw"@[3] == 'w');
        assert("sw"@.len() == 2 && "sw"@[0] == 's' && "sw"@[1] == 'w');
        assert("xor"@.len() == 3 && "xor"@[0] == 'x' && "xor"@[1] == 'o' && "xor"@[2] == 'r');
        assert("xori"@.len() == 4 && "xori"@[0] == 'x' && "xori"@[1] == 'o' && "xori"@[2] == 'r' && "xori"@[3] == 'i');
    }
}

} // verus!

//! The encoder: one little-endian 32-bit word per instruction, dispatched
//! over the mnemonic's opcode group, with format-specific immediate
//! scrambling and symbolic operands deferred to relocations.

use vstd::prelude::*;
use crate::arch::{
    Format, FloatFormat, ISA, Instruction, Opcode, ShiftType, spec_float_format_bits,
    spec_isa_lookup, spec_opcode_bits, spec_shift_is_arith, isa_lookup, opcode_bits,
    float_format_bits, shift_is_arith, lemma_isa_lookup_wf, wf_desc,
};
use crate::lexer::{Operand, RValue, SpecOperand, SpecRValue};
use crate::util::{str_eq, dec_str_signed, dec_string_i64};

verus! {

/// Encoder failures.
#[derive(Debug, Clone, PartialEq)]
pub enum EncoderErr {
    Token(String),
    Mnemonic(String),
    Format(String),
    Operands(String),
    FloatRounding(String),
}

/// The mathematical shape of an `EncoderErr`.
#[verifier::ext_equal]
pub enum SpecEncoderErr {
    Token(Seq<char>),
    Mnemonic(Seq<char>),
    Format(Seq<char>),
    Operands(Seq<char>),
    FloatRounding(Seq<char>),
}

impl View for EncoderErr {
    type V = SpecEncoderErr;

    open spec fn view(&self) -> SpecEncoderErr {
        match self {
            EncoderErr::Token(s) => SpecEncoderErr::Token(s@),
            EncoderErr::Mnemonic(s) => SpecEncoderErr::Mnemonic(s@),
            EncoderErr::Format(s) => SpecEncoderErr::Format(s@),
            EncoderErr::Operands(s) => SpecEncoderErr::Operands(s@),
            EncoderErr::FloatRounding(s) => SpecEncoderErr::FloatRounding(s@),
        }
    }
}

/// The target register width, deciding how wide a shift amount may be.
#[derive(Debug, Clone, Copy, PartialEq, Eq, Structural)]
pub enum Xlen {
    Rv32,
    Rv64,
    Rv128,
}

// ---------------------------------------------------------------------------
// Operand shapes.
// ---------------------------------------------------------------------------

/// The register named by a bare register operand.
pub open spec fn spec_reg_of(o: SpecOperand) -> Option<(char, u32)> {
    match o {
        SpecOperand::RValue(SpecRValue::Register(b, i)) => Some((b, i)),
        _ => None,
    }
}

/// The value of a bare immediate operand.
pub open spec fn spec_imm_of(o: SpecOperand) -> Option<i64> {
    match o {
        SpecOperand::RValue(SpecRValue::Immediate(v)) => Some(v),
        _ => None,
    }
}

/// A symbolic operand whose value the linker supplies: an identifier or a
/// relocation function.
pub open spec fn spec_is_symbolic(o: SpecOperand) -> bool {
    match o {
        SpecOperand::RValue(SpecRValue::Identifier(_)) => true,
        SpecOperand::RelocationFn(_, _) => true,
        _ => false,
    }
}

/// A base+offset operand with a register base and immediate displacement.
pub open spec fn spec_addr_of(o: SpecOperand) -> Option<(char, u32, i64)> {
    match o {
        SpecOperand::Address(SpecRValue::Register(b, i), SpecRValue::Immediate(v)) => Some(
            (b, i, v),
        ),
        _ => None,
    }
}

fn reg_of(o: &Operand) -> (r: Option<(char, u32)>)
    ensures
        r == spec_reg_of(o@),
{
    match o {
        Operand::RValue(RValue::Register(b, i)) => Some((*b, *i)),
        _ => None,
    }
}

fn imm_of(o: &Operand) -> (r: Option<i64>)
    ensures
        r == spec_imm_of(o@),
{
    match o {
        Operand::RValue(RValue::Immediate(v)) => Some(*v),
        _ => None,
    }
}

fn is_symbolic(o: &Operand) -> (r: bool)
    ensures
        r == spec_is_symbolic(o@),
{
    match o {
        Operand::RValue(RValue::Identifier(_)) => true,
        Operand::RelocationFn(_, _) => true,
        _ => false,
    }
}

fn addr_of(o: &Operand) -> (r: Option<(char, u32, i64)>)
    ensures
        r == spec_addr_of(o@),
{
    match o {
        Operand::Address(RValue::Register(b, i), RValue::Immediate(v)) => Some((*b, *i, *v)),
        _ => None,
    }
}

// ---------------------------------------------------------------------------
// Descriptor fields and immediates as bits.
// ---------------------------------------------------------------------------

/// A descriptor field that is absent encodes as zero.
pub open spec fn f3_bits(d: Instruction) -> u32 {
    match d.funct3 {
        Some(f) => f as u32,
        None => 0,
    }
}

pub open spec fn f5_bits(d: Instruction) -> u32 {
    match d.funct5 {
        Some(f) => f as u32,
        None => 0,
    }
}

pub open spec fn f7_bits(d: Instruction) -> u32 {
    match d.funct7 {
        Some(f) => f as u32,
        None => 0,
    }
}

pub open spec fn f12_bits(d: Instruction) -> u32 {
    match d.funct12 {
        Some(f) => f as u32,
        None => 0,
    }
}

pub open spec fn fmt_bits(d: Instruction) -> u32 {
    match d.float_format {
        Some(f) => spec_float_format_bits(f),
        None => 0,
    }
}

fn f3_of(d: &Instruction) -> (r: u32)
    ensures
        r == f3_bits(*d),
{
    match d.funct3 {
        Some(f) => f as u32,
        None => 0,
    }
}

fn f5_of(d: &Instruction) -> (r: u32)
    ensures
        r == f5_bits(*d),
{
    match d.funct5 {
        Some(f) => f as u32,
        None => 0,
    }
}

fn f7_of(d: &Instruction) -> (r: u32)
    ensures
        r == f7_bits(*d),
{
    match d.funct7 {
        Some(f) => f as u32,
        None => 0,
    }
}

fn f12_of(d: &Instruction) -> (r: u32)
    ensures
        r == f12_bits(*d),
{
    match d.funct12 {
        Some(f) => f as u32,
        None => 0,
    }
}

fn fmt_of(d: &Instruction) -> (r: u32)
    ensures
        r == fmt_bits(*d),
{
    match d.float_format {
        Some(f) => float_format_bits(f),
        None => 0,
    }
}

/// The low 32 bits of an immediate, as the encoders consume it.
pub open spec fn spec_low32(v: i64) -> u32 {
    v as u32
}

fn low32(v: i64) -> (r: u32)
    ensures
        r == spec_low32(v),
{
    #[verifier::truncate] (v as u32)
}

// ---------------------------------------------------------------------------
// Word layouts, one per format.
// ---------------------------------------------------------------------------

pub open spec fn r_word(f7: u32, rs2: u32, rs1: u32, f3: u32, rd: u32, op: u32) -> u32 {
    (f7 << 25) | (rs2 << 20) | (rs1 << 15) | (f3 << 12) | (rd << 7) | op
}

pub open spec fn fp_word(f5: u32, fmt: u32, rs2: u32, rs1: u32, frm: u32, rd: u32, op: u32) -> u32 {
    (f5 << 27) | (fmt << 25) | (rs2 << 20) | (rs1 << 15) | (frm << 12) | (rd << 7) | op
}

pub open spec fn amo_word(f5: u32, aq: u32, rl: u32, rs2: u32, rs1: u32, f3: u32, rd: u32, op: u32) -> u32 {
    (f5 << 27) | (aq << 26) | (rl << 25) | (rs2 << 20) | (rs1 << 15) | (f3 << 12) | (rd << 7) | op
}

pub open spec fn i_word(imm12: u32, rs1: u32, f3: u32, rd: u32, op: u32) -> u32 {
    (imm12 << 20) | (rs1 << 15) | (f3 << 12) | (rd << 7) | op
}

pub open spec fn s_word(imm12: u32, rs2: u32, rs1: u32, f3: u32, op: u32) -> u32 {
    (((imm12 >> 5) & 0x7f) << 25) | (rs2 << 20) | (rs1 << 15) | (f3 << 12) | ((imm12 & 0x1f) << 7)
        | op
}

/// The branch-format scrambling of a 13-bit signed offset.
pub open spec fn sb_imm_bits(iv: u32) -> u32 {
    (((iv >> 12) & 0x1) << 31) | (((iv >> 5) & 0x3f) << 25) | (((iv >> 1) & 0xf) << 8) | (((iv
        >> 11) & 0x1) << 7)
}

pub open spec fn sb_word(iv: u32, rs2: u32, rs1: u32, f3: u32, op: u32) -> u32 {
    sb_imm_bits(iv) | (rs2 << 20) | (rs1 << 15) | (f3 << 12) | op
}

pub open spec fn u_word(iv: u32, rd: u32, op: u32) -> u32 {
    ((iv & 0xfffff) << 12) | (rd << 7) | op
}

/// The jump-format scrambling of a 21-bit signed offset.
pub open spec fn uj_imm_bits(iv: u32) -> u32 {
    (((iv >> 20) & 0x1) << 31) | (((iv >> 1) & 0x3ff) << 21) | (((iv >> 11) & 0x1) << 20) | (((iv
        >> 12) & 0xff) << 12)
}

pub open spec fn uj_word(iv: u32, rd: u32, op: u32) -> u32 {
    uj_imm_bits(iv) | (rd << 7) | op
}

// ---------------------------------------------------------------------------
// Error values.
// ---------------------------------------------------------------------------

pub open spec fn invalid_ops_err() -> SpecEncoderErr {
    SpecEncoderErr::Operands("Invalid operands."@)
}

/// The out-of-range shift-amount error, naming the offending value.
pub open spec fn shamt_err(v: i64) -> SpecEncoderErr {
    SpecEncoderErr::Operands(
        "Invalid shamt field (out of range): \""@ + dec_str_signed(v as int) + "\""@,
    )
}

fn invalid_operands() -> (e: EncoderErr)
    ensures
        e@ == invalid_ops_err(),
{
    EncoderErr::Operands(String::from_str("Invalid operands."))
}

fn shamt_out_of_range(v: i64) -> (e: EncoderErr)
    ensures
        e@ == shamt_err(v),
{
    let rendered = dec_string_i64(v);
    EncoderErr::Operands(
        String::from_str("Invalid shamt field (out of range): \"").concat(
            rendered.as_str(),
        ).concat("\""),
    )
}

// ---------------------------------------------------------------------------
// Per-format encoders: specification.
// ---------------------------------------------------------------------------

/// Three integer-bank registers: `rd, rs1, rs2`.
pub open spec fn spec_encode_op(d: Instruction, ops: Seq<SpecOperand>) -> Result<
    (u32, bool),
    SpecEncoderErr,
> {
    if ops.len() == 3 {
        match (spec_reg_of(ops[0]), spec_reg_of(ops[1]), spec_reg_of(ops[2])) {
            (Some((b0, rd)), Some((b1, rs1)), Some((b2, rs2))) => {
                if b0 == 'x' && b1 == 'x' && b2 == 'x' && rd < 32 && rs1 < 32 && rs2 < 32 {
                    Ok(
                        (
                            r_word(f7_bits(d), rs2, rs1, f3_bits(d), rd, spec_opcode_bits(d.opcode)),
                            false,
                        ),
                    )
                } else {
                    Err(invalid_ops_err())
                }
            },
            _ => Err(invalid_ops_err()),
        }
    } else {
        Err(invalid_ops_err())
    }
}

/// Floating-point operation: registers with a fixed `rs2` slot for
/// conversions, the precision in the `fmt` field, and dynamic rounding.
pub open spec fn spec_encode_fp(d: Instruction, ops: Seq<SpecOperand>) -> Result<
    (u32, bool),
    SpecEncoderErr,
> {
    if d.rs2 is Some {
        if ops.len() == 2 {
            match (spec_reg_of(ops[0]), spec_reg_of(ops[1])) {
                (Some((b0, rd)), Some((b1, rs1))) => {
                    if rd < 32 && rs1 < 32 {
                        Ok(
                            (
                                fp_word(
                                    f5_bits(d),
                                    fmt_bits(d),
                                    d.rs2.unwrap() as u32,
                                    rs1,
                                    0,
                                    rd,
                                    spec_opcode_bits(d.opcode),
                                ),
                                false,
                            ),
                        )
                    } else {
                        Err(invalid_ops_err())
                    }
                },
                _ => Err(invalid_ops_err()),
            }
        } else {
            Err(invalid_ops_err())
        }
    } else {
        if ops.len() == 3 {
            match (spec_reg_of(ops[0]), spec_reg_of(ops[1]), spec_reg_of(ops[2])) {
                (Some((b0, rd)), Some((b1, rs1)), Some((b2, rs2))) => {
                    if rd < 32 && rs1 < 32 && rs2 < 32 {
                        Ok(
                            (
                                fp_word(
                                    f5_bits(d),
                                    fmt_bits(d),
                                    rs2,
                                    rs1,
                                    0,
                                    rd,
                                    spec_opcode_bits(d.opcode),
                                ),
                                false,
                            ),
                        )
                    } else {
                        Err(invalid_ops_err())
                    }
                },
                _ => Err(invalid_ops_err()),
            }
        } else {
            Err(invalid_ops_err())
        }
    }
}

/// Atomic operation: three integer registers, `aq`/`rl` clear.
pub open spec fn spec_encode_amo(d: Instruction, ops: Seq<SpecOperand>) -> Result<
    (u32, bool),
    SpecEncoderErr,
> {
    if ops.len() == 3 {
        match (spec_reg_of(ops[0]), spec_reg_of(ops[1]), spec_reg_of(ops[2])) {
            (Some((b0, rd)), Some((b1, rs1)), Some((b2, rs2))) => {
                if b0 == 'x' && b1 == 'x' && b2 == 'x' && rd < 32 && rs1 < 32 && rs2 < 32 {
                    Ok(
                        (
                            amo_word(
                                f5_bits(d),
                                0,
                                0,
                                rs2,
                                rs1,
                                f3_bits(d),
                                rd,
                                spec_opcode_bits(d.opcode),
                            ),
                            false,
                        ),
                    )
                } else {
                    Err(invalid_ops_err())
                }
            },
            _ => Err(invalid_ops_err()),
        }
    } else {
        Err(invalid_ops_err())
    }
}

/// A load: `rd, offset(base)` with the offset fitting 12 signed bits.
pub open spec fn spec_encode_load(d: Instruction, ops: Seq<SpecOperand>) -> Result<
    (u32, bool),
    SpecEncoderErr,
> {
    if ops.len() == 2 {
        match (spec_reg_of(ops[0]), spec_addr_of(ops[1])) {
            (Some((b0, rd)), Some((b1, rs1, off))) => {
                if b1 == 'x' && rd < 32 && rs1 < 32 && -2048 <= off <= 2047 {
                    Ok(
                        (
                            i_word(
                                spec_low32(off) & 0xfff,
                                rs1,
                                f3_bits(d),
                                rd,
                                spec_opcode_bits(d.opcode),
                            ),
                            false,
                        ),
                    )
                } else {
                    Err(invalid_ops_err())
                }
            },
            _ => Err(invalid_ops_err()),
        }
    } else {
        Err(invalid_ops_err())
    }
}

/// `jalr`: either `rd, offset(base)` or `rd, rs1, imm` where the immediate
/// may also be a symbol, which defers to a relocation.
pub open spec fn spec_encode_jalr(d: Instruction, ops: Seq<SpecOperand>) -> Result<
    (u32, bool),
    SpecEncoderErr,
> {
    if ops.len() == 2 && spec_addr_of(ops[1]) is Some {
        spec_encode_load(d, ops)
    } else if ops.len() == 3 {
        match (spec_reg_of(ops[0]), spec_reg_of(ops[1])) {
            (Some((b0, rd)), Some((b1, rs1))) => {
                if b0 == 'x' && b1 == 'x' && rd < 32 && rs1 < 32 {
                    match spec_imm_of(ops[2]) {
                        Some(v) => if -2048 <= v <= 2047 {
                            Ok(
                                (
                                    i_word(
                                        spec_low32(v) & 0xfff,
                                        rs1,
                                        f3_bits(d),
                                        rd,
                                        spec_opcode_bits(d.opcode),
                                    ),
                                    false,
                                ),
                            )
                        } else {
                            Err(invalid_ops_err())
                        },
                        None => if spec_is_symbolic(ops[2]) {
                            Ok((i_word(0, rs1, f3_bits(d), rd, spec_opcode_bits(d.opcode)), true))
                        } else {
                            Err(invalid_ops_err())
                        },
                    }
                } else {
                    Err(invalid_ops_err())
                }
            },
            _ => Err(invalid_ops_err()),
        }
    } else {
        Err(invalid_ops_err())
    }
}

/// The width of the shift-amount field: by opcode for the fixed-width
/// variants, by the target width for the plain shifts.
pub open spec fn spec_shamt_width(op: Opcode, xlen: Xlen) -> u32 {
    match op {
        Opcode::OpImm32 => 5,
        Opcode::OpImm64 => 6,
        _ => match xlen {
            Xlen::Rv32 => 5,
            Xlen::Rv64 => 6,
            Xlen::Rv128 => 7,
        },
    }
}

/// Immediate operation: `rd, rs1, imm`. A shift mnemonic checks its shift
/// amount against the permitted width and sets bit 30 for arithmetic
/// shifts; other immediates take the low 12 bits; a symbolic immediate
/// encodes zero and defers to a relocation.
pub open spec fn spec_encode_op_imm(d: Instruction, ops: Seq<SpecOperand>, xlen: Xlen) -> Result<
    (u32, bool),
    SpecEncoderErr,
> {
    if ops.len() == 3 {
        match (spec_reg_of(ops[0]), spec_reg_of(ops[1])) {
            (Some((b0, rd)), Some((b1, rs1))) => {
                if b0 == 'x' && b1 == 'x' && rd < 32 && rs1 < 32 {
                    match d.shift {
                        Some(t) => {
                            match spec_imm_of(ops[2]) {
                                Some(v) => {
                                    let w = spec_shamt_width(d.opcode, xlen);
                                    if v < 0 || v >= (1i64 << w) {
                                        Err(shamt_err(v))
                                    } else {
                                        let imm12 = (if spec_shift_is_arith(t) {
                                            0x400u32
                                        } else {
                                            0u32
                                        }) | spec_low32(v);
                                        Ok(
                                            (
                                                i_word(
                                                    imm12,
                                                    rs1,
                                                    f3_bits(d),
                                                    rd,
                                                    spec_opcode_bits(d.opcode),
                                                ),
                                                false,
                                            ),
                                        )
                                    }
                                },
                                None => Err(invalid_ops_err()),
                            }
                        },
                        None => {
                            match spec_imm_of(ops[2]) {
                                Some(v) => Ok(
                                    (
                                        i_word(
                                            spec_low32(v) & 0xfff,
                                            rs1,
                                            f3_bits(d),
                                            rd,
                                            spec_opcode_bits(d.opcode),
                                        ),
                                        false,
                                    ),
                                ),
                                None => if spec_is_symbolic(ops[2]) {
                                    Ok(
                                        (
                                            i_word(0, rs1, f3_bits(d), rd, spec_opcode_bits(d.opcode)),
                                            true,
                                        ),
                                    )
                                } else {
                                    Err(invalid_ops_err())
                                },
                            }
                        },
                    }
                } else {
                    Err(invalid_ops_err())
                }
            },
            _ => Err(invalid_ops_err()),
        }
    } else {
        Err(invalid_ops_err())
    }
}

/// `fence`, `fence.i` and `lq`: `lq` loads, `fence` packs its predecessor
/// and successor sets into the immediate, and `fence.i` has all fields
/// clear.
pub open spec fn spec_encode_misc_mem(m: Seq<char>, d: Instruction, ops: Seq<SpecOperand>) -> Result<
    (u32, bool),
    SpecEncoderErr,
> {
    if m == "lq"@ {
        spec_encode_load(d, ops)
    } else if m == "fence"@ {
        if ops.len() == 2 {
            match (spec_imm_of(ops[0]), spec_imm_of(ops[1])) {
                (Some(p), Some(s)) => Ok(
                    (
                        i_word(
                            ((spec_low32(p) & 0xf) << 4) | (spec_low32(s) & 0xf),
                            0,
                            f3_bits(d),
                            0,
                            spec_opcode_bits(d.opcode),
                        ),
                        false,
                    ),
                ),
                _ => Ok((i_word(0, 0, f3_bits(d), 0, spec_opcode_bits(d.opcode)), false)),
            }
        } else {
            Ok((i_word(0, 0, f3_bits(d), 0, spec_opcode_bits(d.opcode)), false))
        }
    } else {
        Ok((i_word(0, 0, f3_bits(d), 0, spec_opcode_bits(d.opcode)), false))
    }
}

/// System instructions: CSR accesses take `rd, csr, rs1-or-uimm`, with bit
/// 2 of `funct3` selecting the zero-extended 5-bit immediate form;
/// `ecall`/`ebreak` encode their `funct12` alone.
pub open spec fn spec_encode_system(d: Instruction, ops: Seq<SpecOperand>) -> Result<
    (u32, bool),
    SpecEncoderErr,
> {
    if d.isa == ISA::Zicsr {
        if ops.len() == 3 {
            match (spec_reg_of(ops[0]), spec_imm_of(ops[1])) {
                (Some((b0, rd)), Some(csr)) => {
                    if b0 == 'x' && rd < 32 {
                        if f3_bits(d) & 0x4 != 0 {
                            match spec_imm_of(ops[2]) {
                                Some(u) => Ok(
                                    (
                                        i_word(
                                            spec_low32(csr) & 0xfff,
                                            spec_low32(u) & 0x1f,
                                            f3_bits(d),
                                            rd,
                                            spec_opcode_bits(d.opcode),
                                        ),
                                        false,
                                    ),
                                ),
                                None => Err(invalid_ops_err()),
                            }
                        } else {
                            match spec_reg_of(ops[2]) {
                                Some((b2, rs1)) => if b2 == 'x' && rs1 < 32 {
                                    Ok(
                                        (
                                            i_word(
                                                spec_low32(csr) & 0xfff,
                                                rs1,
                                                f3_bits(d),
                                                rd,
                                                spec_opcode_bits(d.opcode),
                                            ),
                                            false,
                                        ),
                                    )
                                } else {
                                    Err(invalid_ops_err())
                                },
                                None => Err(invalid_ops_err()),
                            }
                        }
                    } else {
                        Err(invalid_ops_err())
                    }
                },
                _ => Err(invalid_ops_err()),
            }
        } else {
            Err(invalid_ops_err())
        }
    } else {
        Ok((i_word(f12_bits(d), 0, f3_bits(d), 0, spec_opcode_bits(d.opcode)), false))
    }
}

/// A store: `rs2, offset(base)` with the offset split across the word.
pub open spec fn spec_encode_store(d: Instruction, ops: Seq<SpecOperand>) -> Result<
    (u32, bool),
    SpecEncoderErr,
> {
    if ops.len() == 2 {
        match (spec_reg_of(ops[0]), spec_addr_of(ops[1])) {
            (Some((b0, rs2)), Some((b1, rs1, off))) => {
                if b1 == 'x' && rs2 < 32 && rs1 < 32 && -2048 <= off <= 2047 {
                    Ok(
                        (
                            s_word(
                                spec_low32(off) & 0xfff,
                                rs2,
                                rs1,
                                f3_bits(d),
                                spec_opcode_bits(d.opcode),
                            ),
                            false,
                        ),
                    )
                } else {
                    Err(invalid_ops_err())
                }
            },
            _ => Err(invalid_ops_err()),
        }
    } else {
        Err(invalid_ops_err())
    }
}

/// A branch: `rs1, rs2, target`, the target either a literal offset or a
/// symbol that defers to a relocation and encodes zero.
pub open spec fn spec_encode_branch(d: Instruction, ops: Seq<SpecOperand>) -> Result<
    (u32, bool),
    SpecEncoderErr,
> {
    if ops.len() == 3 {
        match (spec_reg_of(ops[0]), spec_reg_of(ops[1])) {
            (Some((b0, rs1)), Some((b1, rs2))) => {
                if b0 == 'x' && b1 == 'x' && rs1 < 32 && rs2 < 32 {
                    match spec_imm_of(ops[2]) {
                        Some(v) => Ok(
                            (
                                sb_word(
                                    spec_low32(v),
                                    rs2,
                                    rs1,
                                    f3_bits(d),
                                    spec_opcode_bits(d.opcode),
                                ),
                                false,
                            ),
                        ),
                        None => if spec_is_symbolic(ops[2]) {
                            Ok((sb_word(0, rs2, rs1, f3_bits(d), spec_opcode_bits(d.opcode)), true))
                        } else {
                            Err(invalid_ops_err())
                        },
                    }
                } else {
                    Err(invalid_ops_err())
                }
            },
            _ => Err(invalid_ops_err()),
        }
    } else {
        Err(invalid_ops_err())
    }
}

/// `lui`/`auipc`: `rd, imm20`, the immediate either literal or symbolic.
pub open spec fn spec_encode_u_type(d: Instruction, ops: Seq<SpecOperand>) -> Result<
    (u32, bool),
    SpecEncoderErr,
> {
    if ops.len() == 2 {
        match spec_reg_of(ops[0]) {
            Some((b0, rd)) => {
                if b0 == 'x' && rd < 32 {
                    match spec_imm_of(ops[1]) {
                        Some(v) => Ok(
                            (u_word(spec_low32(v), rd, spec_opcode_bits(d.opcode)), false),
                        ),
                        None => if spec_is_symbolic(ops[1]) {
                            Ok((u_word(0, rd, spec_opcode_bits(d.opcode)), true))
                        } else {
                            Err(invalid_ops_err())
                        },
                    }
                } else {
                    Err(invalid_ops_err())
                }
            },
            _ => Err(invalid_ops_err()),
        }
    } else {
        Err(invalid_ops_err())
    }
}

/// `jal`: `rd, target`, the target either a literal offset or a symbol.
pub open spec fn spec_encode_jal(d: Instruction, ops: Seq<SpecOperand>) -> Result<
    (u32, bool),
    SpecEncoderErr,
> {
    if ops.len() == 2 {
        match spec_reg_of(ops[0]) {
            Some((b0, rd)) => {
                if b0 == 'x' && rd < 32 {
                    match spec_imm_of(ops[1]) {
                        Some(v) => Ok(
                            (uj_word(spec_low32(v), rd, spec_opcode_bits(d.opcode)), false),
                        ),
                        None => if spec_is_symbolic(ops[1]) {
                            Ok((uj_word(0, rd, spec_opcode_bits(d.opcode)), true))
                        } else {
                            Err(invalid_ops_err())
                        },
                    }
                } else {
                    Err(invalid_ops_err())
                }
            },
            _ => Err(invalid_ops_err()),
        }
    } else {
        Err(invalid_ops_err())
    }
}

/// The whole encoder: look the mnemonic up, dispatch on its opcode group.
pub open spec fn spec_encode(m: Seq<char>, ops: Seq<SpecOperand>, xlen: Xlen) -> Result<
    (u32, bool),
    SpecEncoderErr,
> {
    match spec_isa_lookup(m) {
        None => Err(
            SpecEncoderErr::Mnemonic(
                "Unsupported instruction mnemonic: \""@ + m + "\""@,
            ),
        ),
        Some(d) => match d.opcode {
            Opcode::Op | Opcode::Op32 | Opcode::Op64 => spec_encode_op(d, ops),
            Opcode::OpFp => spec_encode_fp(d, ops),
            Opcode::Amo => spec_encode_amo(d, ops),
            Opcode::Jalr => spec_encode_jalr(d, ops),
            Opcode::Load | Opcode::LoadFp => spec_encode_load(d, ops),
            Opcode::OpImm | Opcode::OpImm32 | Opcode::OpImm64 => spec_encode_op_imm(d, ops, xlen),
            Opcode::MiscMem => spec_encode_misc_mem(m, d, ops),
            Opcode::System => spec_encode_system(d, ops),
            Opcode::Store | Opcode::StoreFp => spec_encode_store(d, ops),
            Opcode::Branch => spec_encode_branch(d, ops),
            Opcode::Lui | Opcode::AuiPC => spec_encode_u_type(d, ops),
            Opcode::Jal => spec_encode_jal(d, ops),
            Opcode::MAdd | Opcode::MSub | Opcode::NmAdd | Opcode::NmSub => Err(
                SpecEncoderErr::Format("Unsupported FMA/R4 opcode instruction."@),
            ),
        },
    }
}

// ---------------------------------------------------------------------------
// Laws of the encoding.
// ---------------------------------------------------------------------------

/// Low seven bits of an R-format word, and each field, given in-width inputs.
pub proof fn lemma_r_word_fields(f7: u32, rs2: u32, rs1: u32, f3: u32, rd: u32, op: u32)
    requires
        op < 0x80,
        f3 < 0x8,
        f7 < 0x80,
        rd < 32,
        rs1 < 32,
        rs2 < 32,
    ensures
        r_word(f7, rs2, rs1, f3, rd, op) & 0x7f == op,
        (r_word(f7, rs2, rs1, f3, rd, op) >> 7) & 0x1f == rd,
        (r_word(f7, rs2, rs1, f3, rd, op) >> 12) & 0x7 == f3,
        (r_word(f7, rs2, rs1, f3, rd, op) >> 15) & 0x1f == rs1,
        (r_word(f7, rs2, rs1, f3, rd, op) >> 20) & 0x1f == rs2,
        (r_word(f7, rs2, rs1, f3, rd, op) >> 25) & 0x7f == f7,
{
    let w = (f7 << 25) | (rs2 << 20) | (rs1 << 15) | (f3 << 12) | (rd << 7) | op;
    assert(w & 0x7f == op && (w >> 7) & 0x1f == rd && (w >> 12) & 0x7 == f3 && (w >> 15) & 0x1f
        == rs1 && (w >> 20) & 0x1f == rs2 && (w >> 25) & 0x7f == f7) by (bit_vector)
        requires
            w == (f7 << 25) | (rs2 << 20) | (rs1 << 15) | (f3 << 12) | (rd << 7) | op,
            op < 0x80,
            f3 < 0x8,
            f7 < 0x80,
            rd < 32,
            rs1 < 32,
            rs2 < 32,
    ;
}

/// The opcode field of an I-format word.
pub proof fn lemma_i_word_low7(imm12: u32, rs1: u32, f3: u32, rd: u32, op: u32)
    requires
        op < 0x80,
    ensures
        i_word(imm12, rs1, f3, rd, op) & 0x7f == op,
{
    let w = (imm12 << 20) | (rs1 << 15) | (f3 << 12) | (rd << 7) | op;
    assert(w & 0x7f == op) by (bit_vector)
        requires
            w == (imm12 << 20) | (rs1 << 15) | (f3 << 12) | (rd << 7) | op,
            op < 0x80,
    ;
}

/// The immediate field of an I-format word, given in-width inputs.
pub proof fn lemma_i_word_imm(imm12: u32, rs1: u32, f3: u32, rd: u32, op: u32)
    requires
        imm12 < 0x1000,
        rs1 < 32,
        f3 < 0x8,
        rd < 32,
        op < 0x80,
    ensures
        (i_word(imm12, rs1, f3, rd, op) >> 20) & 0xfff == imm12,
{
    let w = (imm12 << 20) | (rs1 << 15) | (f3 << 12) | (rd << 7) | op;
    assert((w >> 20) & 0xfff == imm12) by (bit_vector)
        requires
            w == (imm12 << 20) | (rs1 << 15) | (f3 << 12) | (rd << 7) | op,
            imm12 < 0x1000,
            rs1 < 32,
            f3 < 0x8,
            rd < 32,
            op < 0x80,
    ;
}

/// The opcode field of a floating-point word.
pub proof fn lemma_fp_word_low7(f5: u32, fmt: u32, rs2: u32, rs1: u32, frm: u32, rd: u32, op: u32)
    requires
        op < 0x80,
    ensures
        fp_word(f5, fmt, rs2, rs1, frm, rd, op) & 0x7f == op,
{
    let w = (f5 << 27) | (fmt << 25) | (rs2 << 20) | (rs1 << 15) | (frm << 12) | (rd << 7) | op;
    assert(w & 0x7f == op) by (bit_vector)
        requires
            w == (f5 << 27) | (fmt << 25) | (rs2 << 20) | (rs1 << 15) | (frm << 12) | (rd << 7)
                | op,
            op < 0x80,
    ;
}

/// The opcode field of an atomic word.
pub proof fn lemma_amo_word_low7(f5: u32, aq: u32, rl: u32, rs2: u32, rs1: u32, f3: u32, rd: u32, op: u32)
    requires
        op < 0x80,
    ensures
        amo_word(f5, aq, rl, rs2, rs1, f3, rd, op) & 0x7f == op,
{
    let w = (f5 << 27) | (aq << 26) | (rl << 25) | (rs2 << 20) | (rs1 << 15) | (f3 << 12) | (rd
        << 7) | op;
    assert(w & 0x7f == op) by (bit_vector)
        requires
            w == (f5 << 27) | (aq << 26) | (rl << 25) | (rs2 << 20) | (rs1 << 15) | (f3 << 12) | (
            rd << 7) | op,
            op < 0x80,
    ;
}

/// The opcode field of a store word.
pub proof fn lemma_s_word_low7(imm12: u32, rs2: u32, rs1: u32, f3: u32, op: u32)
    requires
        op < 0x80,
    ensures
        s_word(imm12, rs2, rs1, f3, op) & 0x7f == op,
{
    let w = (((imm12 >> 5) & 0x7f) << 25) | (rs2 << 20) | (rs1 << 15) | (f3 << 12) | ((imm12
        & 0x1f) << 7) | op;
    assert(w & 0x7f == op) by (bit_vector)
        requires
            w == (((imm12 >> 5) & 0x7f) << 25) | (rs2 << 20) | (rs1 << 15) | (f3 << 12) | ((imm12
                & 0x1f) << 7) | op,
            op < 0x80,
    ;
}

/// The opcode field of a branch word.
pub proof fn lemma_sb_word_low7(iv: u32, rs2: u32, rs1: u32, f3: u32, op: u32)
    requires
        op < 0x80,
    ensures
        sb_word(iv, rs2, rs1, f3, op) & 0x7f == op,
{
    let b = sb_imm_bits(iv);
    let w = b | (rs2 << 20) | (rs1 << 15) | (f3 << 12) | op;
    assert(w & 0x7f == op) by (bit_vector)
        requires
            w == ((((iv >> 12) & 0x1) << 31) | (((iv >> 5) & 0x3f) << 25) | (((iv >> 1) & 0xf)
                << 8) | (((iv >> 11) & 0x1) << 7)) | (rs2 << 20) | (rs1 << 15) | (f3 << 12) | op,
            op < 0x80,
    ;
}

/// The opcode field of an upper-immediate word.
pub proof fn lemma_u_word_low7(iv: u32, rd: u32, op: u32)
    requires
        op < 0x80,
    ensures
        u_word(iv, rd, op) & 0x7f == op,
{
    let w = ((iv & 0xfffff) << 12) | (rd << 7) | op;
    assert(w & 0x7f == op) by (bit_vector)
        requires
            w == ((iv & 0xfffff) << 12) | (rd << 7) | op,
            op < 0x80,
    ;
}

/// The opcode field of a jump word.
pub proof fn lemma_uj_word_low7(iv: u32, rd: u32, op: u32)
    requires
        op < 0x80,
    ensures
        uj_word(iv, rd, op) & 0x7f == op,
{
    let w = uj_imm_bits(iv) | (rd << 7) | op;
    assert(w & 0x7f == op) by (bit_vector)
        requires
            w == ((((iv >> 20) & 0x1) << 31) | (((iv >> 1) & 0x3ff) << 21) | (((iv >> 11) & 0x1)
                << 20) | (((iv >> 12) & 0xff) << 12)) | (rd << 7) | op,
            op < 0x80,
    ;
}

/// Every word the encoder accepts carries its mnemonic's opcode in the low
/// seven bits of the word.
pub proof fn lemma_encode_opcode_field(
    m: Seq<char>,
    ops: Seq<SpecOperand>,
    xlen: Xlen,
    w: u32,
    rel: bool,
)
    requires
        spec_encode(m, ops, xlen) == Ok::<(u32, bool), SpecEncoderErr>((w, rel)),
    ensures
        spec_isa_lookup(m) is Some,
        w & 0x7f == spec_opcode_bits(spec_isa_lookup(m).unwrap().opcode),
{
    let d = spec_isa_lookup(m).unwrap();
    let op = spec_opcode_bits(d.opcode);
    crate::arch::lemma_opcode_bits_range(d.opcode);
    match d.opcode {
        Opcode::Op | Opcode::Op32 | Opcode::Op64 => {
            if ops.len() == 3 {
                match (spec_reg_of(ops[0]), spec_reg_of(ops[1]), spec_reg_of(ops[2])) {
                    (Some((b0, rd)), Some((b1, rs1)), Some((b2, rs2))) => {
                        lemma_isa_lookup_wf(m);
                        lemma_r_word_fields(f7_bits(d), rs2, rs1, f3_bits(d), rd, op);
                    },
                    _ => {},
                }
            }
        },
        Opcode::OpFp => {
            if d.rs2 is Some {
                if ops.len() == 2 {
                    match (spec_reg_of(ops[0]), spec_reg_of(ops[1])) {
                        (Some((b0, rd)), Some((b1, rs1))) => {
                            lemma_fp_word_low7(
                                f5_bits(d),
                                fmt_bits(d),
                                d.rs2.unwrap() as u32,
                                rs1,
                                0,
                                rd,
                                op,
                            );
                        },
                        _ => {},
                    }
                }
            } else {
                if ops.len() == 3 {
                    match (spec_reg_of(ops[0]), spec_reg_of(ops[1]), spec_reg_of(ops[2])) {
                        (Some((b0, rd)), Some((b1, rs1)), Some((b2, rs2))) => {
                            lemma_fp_word_low7(f5_bits(d), fmt_bits(d), rs2, rs1, 0, rd, op);
                        },
                        _ => {},
                    }
                }
            }
        },
        Opcode::Amo => {
            if ops.len() == 3 {
                match (spec_reg_of(ops[0]), spec_reg_of(ops[1]), spec_reg_of(ops[2])) {
                    (Some((b0, rd)), Some((b1, rs1)), Some((b2, rs2))) => {
                        lemma_amo_word_low7(f5_bits(d), 0, 0, rs2, rs1, f3_bits(d), rd, op);
                    },
                    _ => {},
                }
            }
        },
        Opcode::Jalr => {
            lemma_jalr_low7(d, ops, w, rel);
        },
        Opcode::Load | Opcode::LoadFp => {
            lemma_load_low7(d, ops, w, rel);
        },
        Opcode::OpImm | Opcode::OpImm32 | Opcode::OpImm64 => {
            if ops.len() == 3 {
                match (spec_reg_of(ops[0]), spec_reg_of(ops[1])) {
                    (Some((b0, rd)), Some((b1, rs1))) => {
                        match d.shift {
                            Some(t) => {
                                match spec_imm_of(ops[2]) {
                                    Some(v) => {
                                        let width = spec_shamt_width(d.opcode, xlen);
                                        let imm12 = (if spec_shift_is_arith(t) {
                                            0x400u32
                                        } else {
                                            0u32
                                        }) | spec_low32(v);
                                        lemma_i_word_low7(imm12, rs1, f3_bits(d), rd, op);
                                    },
                                    None => {},
                                }
                            },
                            None => {
                                match spec_imm_of(ops[2]) {
                                    Some(v) => {
                                        lemma_i_word_low7(
                                            spec_low32(v) & 0xfff,
                                            rs1,
                                            f3_bits(d),
                                            rd,
                                            op,
                                        );
                                    },
                                    None => {
                                        lemma_i_word_low7(0, rs1, f3_bits(d), rd, op);
                                    },
                                }
                            },
                        }
                    },
                    _ => {},
                }
            }
        },
        Opcode::MiscMem => {
            if m == "lq"@ {
                lemma_load_low7(d, ops, w, rel);
            } else if m == "fence"@ {
                if ops.len() == 2 {
                    match (spec_imm_of(ops[0]), spec_imm_of(ops[1])) {
                        (Some(p), Some(s)) => {
                            lemma_i_word_low7(
                                ((spec_low32(p) & 0xf) << 4) | (spec_low32(s) & 0xf),
                                0,
                                f3_bits(d),
                                0,
                                op,
                            );
                        },
                        _ => {
                            lemma_i_word_low7(0, 0, f3_bits(d), 0, op);
                        },
                    }
                } else {
                    lemma_i_word_low7(0, 0, f3_bits(d), 0, op);
                }
            } else {
                lemma_i_word_low7(0, 0, f3_bits(d), 0, op);
            }
        },
        Opcode::System => {
            if d.isa == ISA::Zicsr {
                if ops.len() == 3 {
                    match (spec_reg_of(ops[0]), spec_imm_of(ops[1])) {
                        (Some((b0, rd)), Some(csr)) => {
                            if f3_bits(d) & 0x4 != 0 {
                                match spec_imm_of(ops[2]) {
                                    Some(u) => {
                                        lemma_i_word_low7(
                                            spec_low32(csr) & 0xfff,
                                            spec_low32(u) & 0x1f,
                                            f3_bits(d),
                                            rd,
                                            op,
                                        );
                                    },
                                    None => {},
                                }
                            } else {
                                match spec_reg_of(ops[2]) {
                                    Some((b2, rs1)) => {
                                        lemma_i_word_low7(
                                            spec_low32(csr) & 0xfff,
                                            rs1,
                                            f3_bits(d),
                                            rd,
                                            op,
                                        );
                                    },
                                    None => {},
                                }
                            }
                        },
                        _ => {},
                    }
                }
            } else {
                lemma_i_word_low7(f12_bits(d), 0, f3_bits(d), 0, op);
            }
        },
        Opcode::Store | Opcode::StoreFp => {
            if ops.len() == 2 {
                match (spec_reg_of(ops[0]), spec_addr_of(ops[1])) {
                    (Some((b0, rs2)), Some((b1, rs1, off))) => {
                        lemma_s_word_low7(spec_low32(off) & 0xfff, rs2, rs1, f3_bits(d), op);
                    },
                    _ => {},
                }
            }
        },
        Opcode::Branch => {
            if ops.len() == 3 {
                match (spec_reg_of(ops[0]), spec_reg_of(ops[1])) {
                    (Some((b0, rs1)), Some((b1, rs2))) => {
                        match spec_imm_of(ops[2]) {
                            Some(v) => {
                                lemma_sb_word_low7(spec_low32(v), rs2, rs1, f3_bits(d), op);
                            },
                            None => {
                                lemma_sb_word_low7(0, rs2, rs1, f3_bits(d), op);
                            },
                        }
                    },
                    _ => {},
                }
            }
        },
        Opcode::Lui | Opcode::AuiPC => {
            if ops.len() == 2 {
                match spec_reg_of(ops[0]) {
                    Some((b0, rd)) => {
                        match spec_imm_of(ops[1]) {
                            Some(v) => {
                                lemma_u_word_low7(spec_low32(v), rd, op);
                            },
                            None => {
                                lemma_u_word_low7(0, rd, op);
                            },
                        }
                    },
                    None => {},
                }
            }
        },
        Opcode::Jal => {
            if ops.len() == 2 {
                match spec_reg_of(ops[0]) {
                    Some((b0, rd)) => {
                        match spec_imm_of(ops[1]) {
                            Some(v) => {
                                lemma_uj_word_low7(spec_low32(v), rd, op);
                            },
                            None => {
                                lemma_uj_word_low7(0, rd, op);
                            },
                        }
                    },
                    None => {},
                }
            }
        },
        Opcode::MAdd | Opcode::MSub | Opcode::NmAdd | Opcode::NmSub => {},
    }
}

/// The load shape: its word keeps the opcode in the low seven bits.
proof fn lemma_load_low7(d: Instruction, ops: Seq<SpecOperand>, w: u32, rel: bool)
    requires
        spec_encode_load(d, ops) == Ok::<(u32, bool), SpecEncoderErr>((w, rel)),
        spec_opcode_bits(d.opcode) < 0x80,
    ensures
        w & 0x7f == spec_opcode_bits(d.opcode),
{
    let op = spec_opcode_bits(d.opcode);
    if ops.len() == 2 {
        match (spec_reg_of(ops[0]), spec_addr_of(ops[1])) {
            (Some((b0, rd)), Some((b1, rs1, off))) => {
                lemma_i_word_low7(spec_low32(off) & 0xfff, rs1, f3_bits(d), rd, op);
            },
            _ => {},
        }
    }
}

/// The `jalr` shapes: both keep the opcode in the low seven bits.
proof fn lemma_jalr_low7(d: Instruction, ops: Seq<SpecOperand>, w: u32, rel: bool)
    requires
        spec_encode_jalr(d, ops) == Ok::<(u32, bool), SpecEncoderErr>((w, rel)),
        spec_opcode_bits(d.opcode) < 0x80,
    ensures
        w & 0x7f == spec_opcode_bits(d.opcode),
{
    let op = spec_opcode_bits(d.opcode);
    if ops.len() == 2 && spec_addr_of(ops[1]) is Some {
        lemma_load_low7(d, ops, w, rel);
    } else if ops.len() == 3 {
        match (spec_reg_of(ops[0]), spec_reg_of(ops[1])) {
            (Some((b0, rd)), Some((b1, rs1))) => {
                match spec_imm_of(ops[2]) {
                    Some(v) => {
                        lemma_i_word_low7(spec_low32(v) & 0xfff, rs1, f3_bits(d), rd, op);
                    },
                    None => {
                        lemma_i_word_low7(0, rs1, f3_bits(d), rd, op);
                    },
                }
            },
            _ => {},
        }
    }
}

/// For every R-type mnemonic, the `funct3` and `funct7` fields of the
/// encoded word equal the table's values.
pub proof fn lemma_encode_r_type_functs(
    m: Seq<char>,
    ops: Seq<SpecOperand>,
    xlen: Xlen,
    w: u32,
    rel: bool,
)
    requires
        spec_encode(m, ops, xlen) == Ok::<(u32, bool), SpecEncoderErr>((w, rel)),
        spec_isa_lookup(m) is Some,
        spec_isa_lookup(m).unwrap().opcode == Opcode::Op || spec_isa_lookup(m).unwrap().opcode
            == Opcode::Op32 || spec_isa_lookup(m).unwrap().opcode == Opcode::Op64,
    ensures
        (w >> 12) & 0x7 == f3_bits(spec_isa_lookup(m).unwrap()),
        (w >> 25) & 0x7f == f7_bits(spec_isa_lookup(m).unwrap()),
{
    let d = spec_isa_lookup(m).unwrap();
    let op = spec_opcode_bits(d.opcode);
    crate::arch::lemma_opcode_bits_range(d.opcode);
    lemma_isa_lookup_wf(m);
    if ops.len() == 3 {
        match (spec_reg_of(ops[0]), spec_reg_of(ops[1]), spec_reg_of(ops[2])) {
            (Some((b0, rd)), Some((b1, rs1)), Some((b2, rs2))) => {
                lemma_r_word_fields(f7_bits(d), rs2, rs1, f3_bits(d), rd, op);
            },
            _ => {},
        }
    }
}

/// Register index fields never exceed five bits: an accepted R-type word
/// holds each register index, each below 32, in its own five-bit field.
pub proof fn lemma_encode_r_type_registers(
    m: Seq<char>,
    ops: Seq<SpecOperand>,
    xlen: Xlen,
    w: u32,
    rel: bool,
    rd: u32,
    rs1: u32,
    rs2: u32,
)
    requires
        spec_encode(m, ops, xlen) == Ok::<(u32, bool), SpecEncoderErr>((w, rel)),
        spec_isa_lookup(m) is Some,
        spec_isa_lookup(m).unwrap().opcode == Opcode::Op || spec_isa_lookup(m).unwrap().opcode
            == Opcode::Op32 || spec_isa_lookup(m).unwrap().opcode == Opcode::Op64,
        ops.len() == 3,
        spec_reg_of(ops[0]) == Some(('x', rd)),
        spec_reg_of(ops[1]) == Some(('x', rs1)),
        spec_reg_of(ops[2]) == Some(('x', rs2)),
    ensures
        rd < 32 && rs1 < 32 && rs2 < 32,
        (w >> 7) & 0x1f == rd,
        (w >> 15) & 0x1f == rs1,
        (w >> 20) & 0x1f == rs2,
{
    let d = spec_isa_lookup(m).unwrap();
    let op = spec_opcode_bits(d.opcode);
    crate::arch::lemma_opcode_bits_range(d.opcode);
    lemma_isa_lookup_wf(m);
    lemma_r_word_fields(f7_bits(d), rs2, rs1, f3_bits(d), rd, op);
}

/// Shift amounts are checked against the permitted width: a shift amount
/// outside `[0, 2^width)` is refused with an `Operands` error, and an
/// accepted one stands exactly in the shamt field of the word.
pub proof fn lemma_encode_shamt(
    m: Seq<char>,
    ops: Seq<SpecOperand>,
    xlen: Xlen,
    rd: u32,
    rs1: u32,
    v: i64,
)
    requires
        spec_isa_lookup(m) is Some,
        spec_isa_lookup(m).unwrap().shift is Some,
        spec_isa_lookup(m).unwrap().opcode == Opcode::OpImm || spec_isa_lookup(m).unwrap().opcode
            == Opcode::OpImm32 || spec_isa_lookup(m).unwrap().opcode == Opcode::OpImm64,
        ops.len() == 3,
        spec_reg_of(ops[0]) == Some(('x', rd)),
        spec_reg_of(ops[1]) == Some(('x', rs1)),
        rd < 32,
        rs1 < 32,
        spec_imm_of(ops[2]) == Some(v),
    ensures
        (v < 0 || v >= (1i64 << spec_shamt_width(spec_isa_lookup(m).unwrap().opcode, xlen)))
            <==> spec_encode(m, ops, xlen) == Err::<(u32, bool), SpecEncoderErr>(shamt_err(v)),
        (0 <= v < (1i64 << spec_shamt_width(spec_isa_lookup(m).unwrap().opcode, xlen)))
            ==> (spec_encode(m, ops, xlen) matches Ok((w, rel)) && ((w >> 20) & 0x7f) as i64 == v),
{
    let d = spec_isa_lookup(m).unwrap();
    let op = spec_opcode_bits(d.opcode);
    let t = d.shift.unwrap();
    let width = spec_shamt_width(d.opcode, xlen);
    assert(width == 5 || width == 6 || width == 7);
    assert((1i64 << 5u32) == 32 && (1i64 << 6u32) == 64 && (1i64 << 7u32) == 128) by (bit_vector);
    if 0 <= v < (1i64 << width) {
        let iv = spec_low32(v);
        let imm12 = (if spec_shift_is_arith(t) {
            0x400u32
        } else {
            0u32
        }) | iv;
        let w = i_word(imm12, rs1, f3_bits(d), rd, op);
        assert(spec_encode(m, ops, xlen) == Ok::<(u32, bool), SpecEncoderErr>((w, false)));
        assert(iv < 0x80 && iv as i64 == v) by (bit_vector)
            requires
                iv == v as u32,
                0 <= v < 128,
        ;
        let arith: u32 = if spec_shift_is_arith(t) {
            0x400u32
        } else {
            0u32
        };
        let f3 = f3_bits(d);
        lemma_isa_lookup_wf(m);
        crate::arch::lemma_opcode_bits_range(d.opcode);
        assert((w >> 20) & 0x7f == iv) by (bit_vector)
            requires
                w == ((arith | iv) << 20) | (rs1 << 15) | (f3 << 12) | (rd << 7) | op,
                arith == 0x400u32 || arith == 0u32,
                iv < 0x80,
                rs1 < 32,
                rd < 32,
                f3 < 0x8,
                op < 0x80,
        ;
    }
}

// ---------------------------------------------------------------------------
// Per-format encoders: executable code.
// ---------------------------------------------------------------------------

/// A result with its error abstracted to the spec shape.
pub open spec fn enc_result_view(r: Result<(u32, bool), EncoderErr>) -> Result<
    (u32, bool),
    SpecEncoderErr,
> {
    match r {
        Ok(v) => Ok(v),
        Err(e) => Err(e@),
    }
}

fn encode_op(d: &Instruction, operands: &Vec<Operand>) -> (r: Result<(u32, bool), EncoderErr>)
    ensures
        enc_result_view(r) == spec_encode_op(*d, operands.deep_view()),
{
    if operands.len() == 3 {
        match (reg_of(&operands[0]), reg_of(&operands[1]), reg_of(&operands[2])) {
            (Some((b0, rd)), Some((b1, rs1)), Some((b2, rs2))) => {
                if b0 == 'x' && b1 == 'x' && b2 == 'x' && rd < 32 && rs1 < 32 && rs2 < 32 {
                    Ok(
                        (
                            (f7_of(d) << 25) | (rs2 << 20) | (rs1 << 15) | (f3_of(d) << 12) | (rd
                                << 7) | opcode_bits(d.opcode),
                            false,
                        ),
                    )
                } else {
                    Err(invalid_operands())
                }
            },
            _ => Err(invalid_operands()),
        }
    } else {
        Err(invalid_operands())
    }
}

fn encode_fp(d: &Instruction, operands: &Vec<Operand>) -> (r: Result<(u32, bool), EncoderErr>)
    ensures
        enc_result_view(r) == spec_encode_fp(*d, operands.deep_view()),
{
    match d.rs2 {
        Some(fixed) => {
            if operands.len() == 2 {
                match (reg_of(&operands[0]), reg_of(&operands[1])) {
                    (Some((b0, rd)), Some((b1, rs1))) => {
                        if rd < 32 && rs1 < 32 {
                            Ok(
                                (
                                    (f5_of(d) << 27) | (fmt_of(d) << 25) | ((fixed as u32) << 20) | (
                                    rs1 << 15) | (0u32 << 12) | (rd << 7) | opcode_bits(d.opcode),
                                    false,
                                ),
                            )
                        } else {
                            Err(invalid_operands())
                        }
                    },
                    _ => Err(invalid_operands()),
                }
            } else {
                Err(invalid_operands())
            }
        },
        None => {
            if operands.len() == 3 {
                match (reg_of(&operands[0]), reg_of(&operands[1]), reg_of(&operands[2])) {
                    (Some((b0, rd)), Some((b1, rs1)), Some((b2, rs2))) => {
                        if rd < 32 && rs1 < 32 && rs2 < 32 {
                            Ok(
                                (
                                    (f5_of(d) << 27) | (fmt_of(d) << 25) | (rs2 << 20) | (rs1
                                        << 15) | (0u32 << 12) | (rd << 7) | opcode_bits(d.opcode),
                                    false,
                                ),
                            )
                        } else {
                            Err(invalid_operands())
                        }
                    },
                    _ => Err(invalid_operands()),
                }
            } else {
                Err(invalid_operands())
            }
        },
    }
}

fn encode_amo(d: &Instruction, operands: &Vec<Operand>) -> (r: Result<(u32, bool), EncoderErr>)
    ensures
        enc_result_view(r) == spec_encode_amo(*d, operands.deep_view()),
{
    if operands.len() == 3 {
        match (reg_of(&operands[0]), reg_of(&operands[1]), reg_of(&operands[2])) {
            (Some((b0, rd)), Some((b1, rs1)), Some((b2, rs2))) => {
                if b0 == 'x' && b1 == 'x' && b2 == 'x' && rd < 32 && rs1 < 32 && rs2 < 32 {
                    Ok(
                        (
                            (f5_of(d) << 27) | (0u32 << 26) | (0u32 << 25) | (rs2 << 20) | (rs1
                                << 15) | (f3_of(d) << 12) | (rd << 7) | opcode_bits(d.opcode),
                            false,
                        ),
                    )
                } else {
                    Err(invalid_operands())
                }
            },
            _ => Err(invalid_operands()),
        }
    } else {
        Err(invalid_operands())
    }
}

fn encode_load(d: &Instruction, operands: &Vec<Operand>) -> (r: Result<(u32, bool), EncoderErr>)
    ensures
        enc_result_view(r) == spec_encode_load(*d, operands.deep_view()),
{
    if operands.len() == 2 {
        match (reg_of(&operands[0]), addr_of(&operands[1])) {
            (Some((b0, rd)), Some((b1, rs1, off))) => {
                if b1 == 'x' && rd < 32 && rs1 < 32 && -2048 <= off && off <= 2047 {
                    Ok(
                        (
                            ((low32(off) & 0xfff) << 20) | (rs1 << 15) | (f3_of(d) << 12) | (rd
                                << 7) | opcode_bits(d.opcode),
                            false,
                        ),
                    )
                } else {
                    Err(invalid_operands())
                }
            },
            _ => Err(invalid_operands()),
        }
    } else {
        Err(invalid_operands())
    }
}

fn encode_jalr(d: &Instruction, operands: &Vec<Operand>) -> (r: Result<(u32, bool), EncoderErr>)
    ensures
        enc_result_view(r) == spec_encode_jalr(*d, operands.deep_view()),
{
    if operands.len() == 2 && addr_of(&operands[1]).is_some() {
        encode_load(d, operands)
    } else if operands.len() == 3 {
        match (reg_of(&operands[0]), reg_of(&operands[1])) {
            (Some((b0, rd)), Some((b1, rs1))) => {
                if b0 == 'x' && b1 == 'x' && rd < 32 && rs1 < 32 {
                    match imm_of(&operands[2]) {
                        Some(v) => {
                            if -2048 <= v && v <= 2047 {
                                Ok(
                                    (
                                        ((low32(v) & 0xfff) << 20) | (rs1 << 15) | (f3_of(d)
                                            << 12) | (rd << 7) | opcode_bits(d.opcode),
                                        false,
                                    ),
                                )
                            } else {
                                Err(invalid_operands())
                            }
                        },
                        None => {
                            if is_symbolic(&operands[2]) {
                                Ok(
                                    (
                                        (0u32 << 20) | (rs1 << 15) | (f3_of(d) << 12) | (rd << 7)
                                            | opcode_bits(d.opcode),
                                        true,
                                    ),
                                )
                            } else {
                                Err(invalid_operands())
                            }
                        },
                    }
                } else {
                    Err(invalid_operands())
                }
            },
            _ => Err(invalid_operands()),
        }
    } else {
        Err(invalid_operands())
    }
}

fn shamt_width(op: Opcode, xlen: Xlen) -> (r: u32)
    ensures
        r == spec_shamt_width(op, xlen),
{
    match op {
        Opcode::OpImm32 => 5,
        Opcode::OpImm64 => 6,
        _ => match xlen {
            Xlen::Rv32 => 5,
            Xlen::Rv64 => 6,
            Xlen::Rv128 => 7,
        },
    }
}

fn encode_op_imm(d: &Instruction, operands: &Vec<Operand>, xlen: Xlen) -> (r: Result<
    (u32, bool),
    EncoderErr,
>)
    ensures
        enc_result_view(r) == spec_encode_op_imm(*d, operands.deep_view(), xlen),
{
    if operands.len() == 3 {
        match (reg_of(&operands[0]), reg_of(&operands[1])) {
            (Some((b0, rd)), Some((b1, rs1))) => {
                if b0 == 'x' && b1 == 'x' && rd < 32 && rs1 < 32 {
                    match d.shift {
                        Some(t) => {
                            match imm_of(&operands[2]) {
                                Some(v) => {
                                    let w = shamt_width(d.opcode, xlen);
                                    if v < 0 || v >= (1i64 << w) {
                                        Err(shamt_out_of_range(v))
                                    } else {
                                        let imm12: u32 = (if shift_is_arith(t) {
                                            0x400u32
                                        } else {
                                            0u32
                                        }) | low32(v);
                                        Ok(
                                            (
                                                (imm12 << 20) | (rs1 << 15) | (f3_of(d) << 12) | (rd
                                                    << 7) | opcode_bits(d.opcode),
                                                false,
                                            ),
                                        )
                                    }
                                },
                                None => Err(invalid_operands()),
                            }
                        },
                        None => {
                            match imm_of(&operands[2]) {
                                Some(v) => Ok(
                                    (
                                        ((low32(v) & 0xfff) << 20) | (rs1 << 15) | (f3_of(d)
                                            << 12) | (rd << 7) | opcode_bits(d.opcode),
                                        false,
                                    ),
                                ),
                                None => {
                                    if is_symbolic(&operands[2]) {
                                        Ok(
                                            (
                                                (0u32 << 20) | (rs1 << 15) | (f3_of(d) << 12) | (rd
                                                    << 7) | opcode_bits(d.opcode),
                                                true,
                                            ),
                                        )
                                    } else {
                                        Err(invalid_operands())
                                    }
                                },
                            }
                        },
                    }
                } else {
                    Err(invalid_operands())
                }
            },
            _ => Err(invalid_operands()),
        }
    } else {
        Err(invalid_operands())
    }
}

fn encode_misc_mem(mnemonic: &String, d: &Instruction, operands: &Vec<Operand>) -> (r: Result<
    (u32, bool),
    EncoderErr,
>)
    ensures
        enc_result_view(r) == spec_encode_misc_mem(mnemonic@, *d, operands.deep_view()),
{
    if str_eq(mnemonic.as_str(), "lq") {
        encode_load(d, operands)
    } else if str_eq(mnemonic.as_str(), "fence") {
        if operands.len() == 2 {
            match (imm_of(&operands[0]), imm_of(&operands[1])) {
                (Some(p), Some(s)) => Ok(
                    (
                        ((((low32(p) & 0xf) << 4) | (low32(s) & 0xf)) << 20) | (0u32 << 15) | (
                        f3_of(d) << 12) | (0u32 << 7) | opcode_bits(d.opcode),
                        false,
                    ),
                ),
                _ => Ok(
                    (
                        (0u32 << 20) | (0u32 << 15) | (f3_of(d) << 12) | (0u32 << 7) | opcode_bits(
                            d.opcode,
                        ),
                        false,
                    ),
                ),
            }
        } else {
            Ok(
                (
                    (0u32 << 20) | (0u32 << 15) | (f3_of(d) << 12) | (0u32 << 7) | opcode_bits(
                        d.opcode,
                    ),
                    false,
                ),
            )
        }
    } else {
        Ok(
            (
                (0u32 << 20) | (0u32 << 15) | (f3_of(d) << 12) | (0u32 << 7) | opcode_bits(
                    d.opcode,
                ),
                false,
            ),
        )
    }
}

fn encode_system(d: &Instruction, operands: &Vec<Operand>) -> (r: Result<(u32, bool), EncoderErr>)
    ensures
        enc_result_view(r) == spec_encode_system(*d, operands.deep_view()),
{
    if d.isa == ISA::Zicsr {
        if operands.len() == 3 {
            match (reg_of(&operands[0]), imm_of(&operands[1])) {
                (Some((b0, rd)), Some(csr)) => {
                    if b0 == 'x' && rd < 32 {
                        if f3_of(d) & 0x4 != 0 {
                            match imm_of(&operands[2]) {
                                Some(u) => Ok(
                                    (
                                        ((low32(csr) & 0xfff) << 20) | ((low32(u) & 0x1f) << 15) | (
                                        f3_of(d) << 12) | (rd << 7) | opcode_bits(d.opcode),
                                        false,
                                    ),
                                ),
                                None => Err(invalid_operands()),
                            }
                        } else {
                            match reg_of(&operands[2]) {
                                Some((b2, rs1)) => {
                                    if b2 == 'x' && rs1 < 32 {
                                        Ok(
                                            (
                                                ((low32(csr) & 0xfff) << 20) | (rs1 << 15) | (f3_of(
                                                    d,
                                                ) << 12) | (rd << 7) | opcode_bits(d.opcode),
                                                false,
                                            ),
                                        )
                                    } else {
                                        Err(invalid_operands())
                                    }
                                },
                                None => Err(invalid_operands()),
                            }
                        }
                    } else {
                        Err(invalid_operands())
                    }
                },
                _ => Err(invalid_operands()),
            }
        } else {
            Err(invalid_operands())
        }
    } else {
        Ok(
            (
                (f12_of(d) << 20) | (0u32 << 15) | (f3_of(d) << 12) | (0u32 << 7) | opcode_bits(
                    d.opcode,
                ),
                false,
            ),
        )
    }
}

fn encode_store(d: &Instruction, operands: &Vec<Operand>) -> (r: Result<(u32, bool), EncoderErr>)
    ensures
        enc_result_view(r) == spec_encode_store(*d, operands.deep_view()),
{
    if operands.len() == 2 {
        match (reg_of(&operands[0]), addr_of(&operands[1])) {
            (Some((b0, rs2)), Some((b1, rs1, off))) => {
                if b1 == 'x' && rs2 < 32 && rs1 < 32 && -2048 <= off && off <= 2047 {
                    let imm12: u32 = low32(off) & 0xfff;
                    Ok(
                        (
                            (((imm12 >> 5) & 0x7f) << 25) | (rs2 << 20) | (rs1 << 15) | (f3_of(d)
                                << 12) | ((imm12 & 0x1f) << 7) | opcode_bits(d.opcode),
                            false,
                        ),
                    )
                } else {
                    Err(invalid_operands())
                }
            },
            _ => Err(invalid_operands()),
        }
    } else {
        Err(invalid_operands())
    }
}

fn sb_scramble(iv: u32) -> (r: u32)
    ensures
        r == sb_imm_bits(iv),
{
    (((iv >> 12) & 0x1) << 31) | (((iv >> 5) & 0x3f) << 25) | (((iv >> 1) & 0xf) << 8) | (((iv
        >> 11) & 0x1) << 7)
}

fn encode_branch(d: &Instruction, operands: &Vec<Operand>) -> (r: Result<(u32, bool), EncoderErr>)
    ensures
        enc_result_view(r) == spec_encode_branch(*d, operands.deep_view()),
{
    if operands.len() == 3 {
        match (reg_of(&operands[0]), reg_of(&operands[1])) {
            (Some((b0, rs1)), Some((b1, rs2))) => {
                if b0 == 'x' && b1 == 'x' && rs1 < 32 && rs2 < 32 {
                    match imm_of(&operands[2]) {
                        Some(v) => Ok(
                            (
                                sb_scramble(low32(v)) | (rs2 << 20) | (rs1 << 15) | (f3_of(d)
                                    << 12) | opcode_bits(d.opcode),
                                false,
                            ),
                        ),
                        None => {
                            if is_symbolic(&operands[2]) {
                                Ok(
                                    (
                                        sb_scramble(0) | (rs2 << 20) | (rs1 << 15) | (f3_of(d)
                                            << 12) | opcode_bits(d.opcode),
                                        true,
                                    ),
                                )
                            } else {
                                Err(invalid_operands())
                            }
                        },
                    }
                } else {
                    Err(invalid_operands())
                }
            },
            _ => Err(invalid_operands()),
        }
    } else {
        Err(invalid_operands())
    }
}

fn encode_u_type(d: &Instruction, operands: &Vec<Operand>) -> (r: Result<(u32, bool), EncoderErr>)
    ensures
        enc_result_view(r) == spec_encode_u_type(*d, operands.deep_view()),
{
    if operands.len() == 2 {
        match reg_of(&operands[0]) {
            Some((b0, rd)) => {
                if b0 == 'x' && rd < 32 {
                    match imm_of(&operands[1]) {
                        Some(v) => Ok(
                            (
                                ((low32(v) & 0xfffff) << 12) | (rd << 7) | opcode_bits(d.opcode),
                                false,
                            ),
                        ),
                        None => {
                            if is_symbolic(&operands[1]) {
                                Ok(
                                    (
                                        ((0u32 & 0xfffff) << 12) | (rd << 7) | opcode_bits(
                                            d.opcode,
                                        ),
                                        true,
                                    ),
                                )
                            } else {
                                Err(invalid_operands())
                            }
                        },
                    }
                } else {
                    Err(invalid_operands())
                }
            },
            _ => Err(invalid_operands()),
        }
    } else {
        Err(invalid_operands())
    }
}

fn uj_scramble(iv: u32) -> (r: u32)
    ensures
        r == uj_imm_bits(iv),
{
    (((iv >> 20) & 0x1) << 31) | (((iv >> 1) & 0x3ff) << 21) | (((iv >> 11) & 0x1) << 20) | (((iv
        >> 12) & 0xff) << 12)
}

fn encode_jal(d: &Instruction, operands: &Vec<Operand>) -> (r: Result<(u32, bool), EncoderErr>)
    ensures
        enc_result_view(r) == spec_encode_jal(*d, operands.deep_view()),
{
    if operands.len() == 2 {
        match reg_of(&operands[0]) {
            Some((b0, rd)) => {
                if b0 == 'x' && rd < 32 {
                    match imm_of(&operands[1]) {
                        Some(v) => Ok(
                            (uj_scramble(low32(v)) | (rd << 7) | opcode_bits(d.opcode), false),
                        ),
                        None => {
                            if is_symbolic(&operands[1]) {
                                Ok((uj_scramble(0) | (rd << 7) | opcode_bits(d.opcode), true))
                            } else {
                                Err(invalid_operands())
                            }
                        },
                    }
                } else {
                    Err(invalid_operands())
                }
            },
            _ => Err(invalid_operands()),
        }
    } else {
        Err(invalid_operands())
    }
}

// ---------------------------------------------------------------------------
// The encoder.
// ---------------------------------------------------------------------------

/// Holds one encoded instruction word, and whether a relocation entry is
/// owed for a symbolic operand that encoded as zero.
pub struct Encoder {
    pub binary: u32,
    pub relocation: bool,
}

impl Encoder {
    /// Encodes one instruction for a chosen target width.
    pub fn with_xlen(mnemonic: &String, operands: &Vec<Operand>, xlen: Xlen) -> (r: Result<
        Self,
        EncoderErr,
    >)
        ensures
            match r {
                Ok(e) => spec_encode(mnemonic@, operands.deep_view(), xlen) == Ok::<
                    (u32, bool),
                    SpecEncoderErr,
                >((e.binary, e.relocation)),
                Err(e) => spec_encode(mnemonic@, operands.deep_view(), xlen) == Err::<
                    (u32, bool),
                    SpecEncoderErr,
                >(e@),
            },
    {
        match isa_lookup(mnemonic.as_str()) {
            None => Err(
                EncoderErr::Mnemonic(
                    String::from_str("Unsupported instruction mnemonic: \"").concat(
                        mnemonic.as_str(),
                    ).concat("\""),
                ),
            ),
            Some(d) => {
                let res = match d.opcode {
                    Opcode::Op | Opcode::Op32 | Opcode::Op64 => encode_op(&d, operands),
                    Opcode::OpFp => encode_fp(&d, operands),
                    Opcode::Amo => encode_amo(&d, operands),
                    Opcode::Jalr => encode_jalr(&d, operands),
                    Opcode::Load | Opcode::LoadFp => encode_load(&d, operands),
                    Opcode::OpImm | Opcode::OpImm32 | Opcode::OpImm64 => encode_op_imm(
                        &d,
                        operands,
                        xlen,
                    ),
                    Opcode::MiscMem => encode_misc_mem(mnemonic, &d, operands),
                    Opcode::System => encode_system(&d, operands),
                    Opcode::Store | Opcode::StoreFp => encode_store(&d, operands),
                    Opcode::Branch => encode_branch(&d, operands),
                    Opcode::Lui | Opcode::AuiPC => encode_u_type(&d, operands),
                    Opcode::Jal => encode_jal(&d, operands),
                    Opcode::MAdd | Opcode::MSub | Opcode::NmAdd | Opcode::NmSub => Err(
                        EncoderErr::Format(
                            String::from_str("Unsupported FMA/R4 opcode instruction."),
                        ),
                    ),
                };
                match res {
                    Ok((w, rel)) => Ok(Encoder { binary: w, relocation: rel }),
                    Err(e) => Err(e),
                }
            },
        }
    }

    /// Encodes one instruction for the default 64-bit target.
    pub fn new(mnemonic: &String, operands: &Vec<Operand>) -> (r: Result<Self, EncoderErr>)
        ensures
            match r {
                Ok(e) => spec_encode(mnemonic@, operands.deep_view(), Xlen::Rv64) == Ok::<
                    (u32, bool),
                    SpecEncoderErr,
                >((e.binary, e.relocation)),
                Err(e) => spec_encode(mnemonic@, operands.deep_view(), Xlen::Rv64) == Err::<
                    (u32, bool),
                    SpecEncoderErr,
                >(e@),
            },
    {
        Self::with_xlen(mnemonic, operands, Xlen::Rv64)
    }
}

} // verus!

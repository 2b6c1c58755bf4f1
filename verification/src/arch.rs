//! The RISC-V ISA catalogue: encoding formats, opcodes, and the table
//! mapping every supported mnemonic to its encoding descriptor, together
//! with the ABI register-name table.

use vstd::prelude::*;
use crate::util::str_eq;

verus! {

/// The seven RISC-V instruction formats.
#[derive(Debug, Clone, Copy, PartialEq, Eq, Structural)]
pub enum Format {
    // Instructions using 3 register inputs (add, xor, mul).
    RType,
    // Instructions w/ immediate loads (addi, lw, jalr, slli).
    IType,
    // Store instructions (sw, sb).
    SType,
    // Branch instructions (beq, bge).
    SBType,
    // Instructions w/ upper immediates (lui, auipc).
    UType,
    // Jump instructions.
    UJType,
    // Fused multiply-add: three sources and one destination register.
    R4Type,
}

/// Width code of a floating-point load/store (`funct3`).
#[derive(Debug, Clone, Copy, PartialEq, Eq, Structural)]
pub enum FloatWidth {
    Single,
    Double,
    Quad,
}

/// The `funct3` bits of a floating-point width.
pub open spec fn spec_float_width_bits(w: FloatWidth) -> u8 {
    match w {
        FloatWidth::Single => 0b010,
        FloatWidth::Double => 0b011,
        FloatWidth::Quad => 0b100,
    }
}

#[verifier::when_used_as_spec(spec_float_width_bits)]
pub fn float_width_bits(w: FloatWidth) -> (r: u8)
    ensures
        r == spec_float_width_bits(w),
{
    match w {
        FloatWidth::Single => 0b010,
        FloatWidth::Double => 0b011,
        FloatWidth::Quad => 0b100,
    }
}

/// Precision code of a floating-point operation (`fmt` field).
#[derive(Debug, Clone, Copy, PartialEq, Eq, Structural)]
pub enum FloatFormat {
    Half,
    Single,
    Double,
    Quad,
}

/// The two `fmt` bits of a floating-point precision.
pub open spec fn spec_float_format_bits(f: FloatFormat) -> u32 {
    match f {
        FloatFormat::Half => 0b10,
        FloatFormat::Single => 0b00,
        FloatFormat::Double => 0b01,
        FloatFormat::Quad => 0b11,
    }
}

#[verifier::when_used_as_spec(spec_float_format_bits)]
pub fn float_format_bits(f: FloatFormat) -> (r: u32)
    ensures
        r == spec_float_format_bits(f),
{
    match f {
        FloatFormat::Half => 0b10,
        FloatFormat::Single => 0b00,
        FloatFormat::Double => 0b01,
        FloatFormat::Quad => 0b11,
    }
}

/// The major opcode groups of the RISC-V encoding space.
#[derive(Debug, Copy, Clone, PartialEq, Eq, Structural)]
pub enum Opcode {
    Load,
    LoadFp,
    MiscMem,
    OpImm,
    AuiPC,
    OpImm32,
    Store,
    StoreFp,
    Amo,
    Op,
    Op32,
    Lui,
    MAdd,
    MSub,
    NmSub,
    NmAdd,
    OpFp,
    OpImm64,
    Branch,
    Jalr,
    Jal,
    System,
    Op64,
}

/// The seven low bits every instruction word carries for its opcode.
pub open spec fn spec_opcode_bits(op: Opcode) -> u32 {
    match op {
        Opcode::Load => 0b0000011,
        Opcode::LoadFp => 0b0000111,
        Opcode::MiscMem => 0b0001111,
        Opcode::OpImm => 0b0010011,
        Opcode::AuiPC => 0b0010111,
        Opcode::OpImm32 => 0b0011011,
        Opcode::Store => 0b0100011,
        Opcode::StoreFp => 0b0100111,
        Opcode::Amo => 0b0101111,
        Opcode::Op => 0b0110011,
        Opcode::Op32 => 0b0111011,
        Opcode::Lui => 0b0110111,
        Opcode::MAdd => 0b1000011,
        Opcode::MSub => 0b1000111,
        Opcode::NmSub => 0b1001011,
        Opcode::NmAdd => 0b1001111,
        Opcode::OpFp => 0b1010011,
        Opcode::OpImm64 => 0b1011011,
        Opcode::Branch => 0b1100011,
        Opcode::Jalr => 0b1100111,
        Opcode::Jal => 0b1101111,
        Opcode::System => 0b1110011,
        Opcode::Op64 => 0b1111011,
    }
}

#[verifier::when_used_as_spec(spec_opcode_bits)]
pub fn opcode_bits(op: Opcode) -> (r: u32)
    ensures
        r == spec_opcode_bits(op),
{
    match op {
        Opcode::Load => 0b0000011,
        Opcode::LoadFp => 0b0000111,
        Opcode::MiscMem => 0b0001111,
        Opcode::OpImm => 0b0010011,
        Opcode::AuiPC => 0b0010111,
        Opcode::OpImm32 => 0b0011011,
        Opcode::Store => 0b0100011,
        Opcode::StoreFp => 0b0100111,
        Opcode::Amo => 0b0101111,
        Opcode::Op => 0b0110011,
        Opcode::Op32 => 0b0111011,
        Opcode::Lui => 0b0110111,
        Opcode::MAdd => 0b1000011,
        Opcode::MSub => 0b1000111,
        Opcode::NmSub => 0b1001011,
        Opcode::NmAdd => 0b1001111,
        Opcode::OpFp => 0b1010011,
        Opcode::OpImm64 => 0b1011011,
        Opcode::Branch => 0b1100011,
        Opcode::Jalr => 0b1100111,
        Opcode::Jal => 0b1101111,
        Opcode::System => 0b1110011,
        Opcode::Op64 => 0b1111011,
    }
}

/// Every opcode fits the 7-bit opcode field.
pub proof fn lemma_opcode_bits_range(op: Opcode)
    ensures
        spec_opcode_bits(op) < 0x80,
{
}

/// Shift-immediate subtypes, distinguishing logical from arithmetic shifts
/// at each operation width.
#[derive(Debug, Clone, Copy, PartialEq, Eq, Structural)]
pub enum ShiftType {
    SLL,
    SRL,
    SRA,
    SLLW,
    SRLW,
    SRAW,
    SLLD,
    SRLD,
    SRAD,
}

/// Whether the shift is arithmetic (sign-extending), which sets bit 30 of
/// the instruction word.
pub open spec fn spec_shift_is_arith(t: ShiftType) -> bool {
    match t {
        ShiftType::SRA | ShiftType::SRAW | ShiftType::SRAD => true,
        _ => false,
    }
}

#[verifier::when_used_as_spec(spec_shift_is_arith)]
pub fn shift_is_arith(t: ShiftType) -> (r: bool)
    ensures
        r == spec_shift_is_arith(t),
{
    match t {
        ShiftType::SRA | ShiftType::SRAW | ShiftType::SRAD => true,
        _ => false,
    }
}

/// The ISA extension an instruction belongs to.
#[derive(Debug, Clone, Copy, PartialEq, Eq, Structural)]
pub enum ISA {
    // Base Integer Instruction Set (32-bit)
    RV32I,
    // Base Integer Instruction Set (64-bit)
    RV64I,
    // Base Integer Instruction Set (128-bit)
    RV128I,
    // Base Integer Instruction Set (32-bit, reduced registers)
    RV32E,
    // Base Integer Instruction Set (64-bit, reduced registers)
    RV64E,
    // Base Integer Instruction Set (128-bit, reduced registers)
    RV128E,
    // Memory Fence Instruction
    ZiFencei,
    // Control and Status Register (CSR) Instructions
    Zicsr,
    // M-extension (Integer Multiplication and Division) for 32-bit
    RV32M,
    // M-extension for 64-bit
    RV64M,
    // M-extension for 128-bit
    RV128M,
    // A-extension (Atomic Memory Operations) for 32-bit
    RV32A,
    // A-extension for 64-bit
    RV64A,
    // A-extension for 128-bit
    RV128A,
    // F-extension (Single-Precision Floating-Point) for 32-bit
    RV32F,
    // F-extension for 64-bit
    RV64F,
    // F-extension for 128-bit
    RV128F,
    // D-extension (Double-Precision Floating-Point) for 32-bit
    RV32D,
    // D-extension for 64-bit
    RV64D,
    // D-extension for 128-bit
    RV128D,
    // Q-extension (Quadruple-Precision Floating-Point) for 32-bit
    RV32Q,
    // Q-extension for 64-bit
    RV64Q,
    // Q-extension for 128-bit
    RV128Q,
}

/// The static encoding record of one mnemonic.
#[derive(Debug, Clone, PartialEq, Eq, Structural)]
pub struct Instruction {
    pub opcode: Opcode,
    pub format: Format,
    pub isa: ISA,
    pub funct3: Option<u8>,
    pub funct5: Option<u8>,
    pub funct7: Option<u8>,
    pub funct12: Option<u16>,
    pub float_format: Option<FloatFormat>,
    pub shift: Option<ShiftType>,
    pub rs2: Option<u8>,
}

/// A descriptor with only the opcode, format and extension set.
pub open spec fn base_desc(opcode: Opcode, format: Format, isa: ISA) -> Instruction {
    Instruction {
        opcode,
        format,
        isa,
        funct3: None,
        funct5: None,
        funct7: None,
        funct12: None,
        float_format: None,
        shift: None,
        rs2: None,
    }
}

pub open spec fn w3(d: Instruction, f: u8) -> Instruction {
    Instruction { funct3: Some(f), ..d }
}

pub open spec fn w5(d: Instruction, f: u8) -> Instruction {
    Instruction { funct5: Some(f), ..d }
}

pub open spec fn w7(d: Instruction, f: u8) -> Instruction {
    Instruction { funct7: Some(f), ..d }
}

pub open spec fn w12(d: Instruction, f: u16) -> Instruction {
    Instruction { funct12: Some(f), ..d }
}

pub open spec fn wff(d: Instruction, f: FloatFormat) -> Instruction {
    Instruction { float_format: Some(f), ..d }
}

pub open spec fn wsh(d: Instruction, t: ShiftType) -> Instruction {
    Instruction { shift: Some(t), ..d }
}

pub open spec fn wrs2(d: Instruction, r: u8) -> Instruction {
    Instruction { rs2: Some(r), ..d }
}

impl Instruction {
    pub fn new(opcode: Opcode, format: Format, isa: ISA) -> (r: Self)
        ensures
            r == base_desc(opcode, format, isa),
    {
        Instruction {
            opcode,
            format,
            isa,
            funct3: None,
            funct5: None,
            funct7: None,
            funct12: None,
            float_format: None,
            shift: None,
            rs2: None,
        }
    }

    pub fn with_funct3(self, function: u8) -> (r: Self)
        ensures
            r == w3(self, function),
    {
        Instruction { funct3: Some(function), ..self }
    }

    pub fn with_funct5(self, function: u8) -> (r: Self)
        ensures
            r == w5(self, function),
    {
        Instruction { funct5: Some(function), ..self }
    }

    pub fn with_funct7(self, function: u8) -> (r: Self)
        ensures
            r == w7(self, function),
    {
        Instruction { funct7: Some(function), ..self }
    }

    pub fn with_funct12(self, function: u16) -> (r: Self)
        ensures
            r == w12(self, function),
    {
        Instruction { funct12: Some(function), ..self }
    }

    pub fn with_float_format(self, fformat: FloatFormat) -> (r: Self)
        ensures
            r == wff(self, fformat),
    {
        Instruction { float_format: Some(fformat), ..self }
    }

    pub fn with_shift(self, shift: ShiftType) -> (r: Self)
        ensures
            r == wsh(self, shift),
    {
        Instruction { shift: Some(shift), ..self }
    }

    pub fn with_rs2(self, rs2: u8) -> (r: Self)
        ensures
            r == wrs2(self, rs2),
    {
        Instruction { rs2: Some(rs2), ..self }
    }
}

/// Field widths every table descriptor respects.
pub open spec fn wf_desc(d: Instruction) -> bool {
    &&& (d.funct3 matches Some(f) ==> f < 0x8)
    &&& (d.funct5 matches Some(f) ==> f < 0x20)
    &&& (d.funct7 matches Some(f) ==> f < 0x80)
    &&& (d.funct12 matches Some(f) ==> f < 0x1000)
    &&& (d.rs2 matches Some(f) ==> f < 0x20)
}

/// Every descriptor in the ISA table keeps its fields within their widths.
pub proof fn lemma_isa_lookup_wf(s: Seq<char>)
    ensures
        spec_isa_lookup(s) matches Some(d) ==> wf_desc(d),
{
}

/// Looks a mnemonic up in the ISA table.
pub open spec fn spec_isa_lookup(s: Seq<char>) -> Option<Instruction> {
    if spec_isa_rv32i(s) is Some {
        spec_isa_rv32i(s)
    } else if spec_isa_base_ext(s) is Some {
        spec_isa_base_ext(s)
    } else if spec_isa_m_ext(s) is Some {
        spec_isa_m_ext(s)
    } else if spec_isa_a_ext(s) is Some {
        spec_isa_a_ext(s)
    } else if spec_isa_f_ext(s) is Some {
        spec_isa_f_ext(s)
    } else if spec_isa_d_ext(s) is Some {
        spec_isa_d_ext(s)
    } else {
        spec_isa_q_ext(s)
    }
}

/// Exec lookup of a mnemonic's encoding descriptor.
pub fn isa_lookup(m: &str) -> (r: Option<Instruction>)
    ensures
        r == spec_isa_lookup(m@),
{
    let r = isa_rv32i(m);
    if r.is_some() {
        return r;
    }
    let r = isa_base_ext(m);
    if r.is_some() {
        return r;
    }
    let r = isa_m_ext(m);
    if r.is_some() {
        return r;
    }
    let r = isa_a_ext(m);
    if r.is_some() {
        return r;
    }
    let r = isa_f_ext(m);
    if r.is_some() {
        return r;
    }
    let r = isa_d_ext(m);
    if r.is_some() {
        return r;
    }
    isa_q_ext(m)
}

pub open spec fn spec_isa_rv32i(s: Seq<char>) -> Option<Instruction> {
    if s == "lui"@ {
        Some(base_desc(Opcode::Lui, Format::UType, ISA::RV32I))
    } else if s == "auipc"@ {
        Some(base_desc(Opcode::AuiPC, Format::UType, ISA::RV32I))
    } else if s == "jal"@ {
        Some(base_desc(Opcode::Jal, Format::UJType, ISA::RV32I))
    } else if s == "jalr"@ {
        Some(w3(base_desc(Opcode::Jalr, Format::IType, ISA::RV32I), 0b000))
    } else if s == "beq"@ {
        Some(w3(base_desc(Opcode::Branch, Format::SBType, ISA::RV32I), 0b000))
    } else if s == "bne"@ {
        Some(w3(base_desc(Opcode::Branch, Format::SBType, ISA::RV32I), 0b001))
    } else if s == "blt"@ {
        Some(w3(base_desc(Opcode::Branch, Format::SBType, ISA::RV32I), 0b100))
    } else if s == "bge"@ {
        Some(w3(base_desc(Opcode::Branch, Format::SBType, ISA::RV32I), 0b101))
    } else if s == "bltu"@ {
        Some(w3(base_desc(Opcode::Branch, Format::SBType, ISA::RV32I), 0b110))
    } else if s == "bgeu"@ {
        Some(w3(base_desc(Opcode::Branch, Format::SBType, ISA::RV32I), 0b111))
    } else if s == "lb"@ {
        Some(w3(base_desc(Opcode::Load, Format::IType, ISA::RV32I), 0b000))
    } else if s == "lh"@ {
        Some(w3(base_desc(Opcode::Load, Format::IType, ISA::RV32I), 0b001))
    } else if s == "lw"@ {
        Some(w3(base_desc(Opcode::Load, Format::IType, ISA::RV32I), 0b010))
    } else if s == "lbu"@ {
        Some(w3(base_desc(Opcode::Load, Format::IType, ISA::RV32I), 0b100))
    } else if s == "lhu"@ {
        Some(w3(base_desc(Opcode::Load, Format::IType, ISA::RV32I), 0b101))
    } else if s == "sb"@ {
        Some(w3(base_desc(Opcode::Store, Format::SType, ISA::RV32I), 0b000))
    } else if s == "sh"@ {
        Some(w3(base_desc(Opcode::Store, Format::SType, ISA::RV32I), 0b001))
    } else if s == "sw"@ {
        Some(w3(base_desc(Opcode::Store, Format::SType, ISA::RV32I), 0b010))
    } else if s == "addi"@ {
        Some(w3(base_desc(Opcode::OpImm, Format::IType, ISA::RV32I), 0b000))
    } else if s == "slti"@ {
        Some(w3(base_desc(Opcode::OpImm, Format::IType, ISA::RV32I), 0b010))
    } else if s == "sltiu"@ {
        Some(w3(base_desc(Opcode::OpImm, Format::IType, ISA::RV32I), 0b011))
    } else if s == "xori"@ {
        Some(w3(base_desc(Opcode::OpImm, Format::IType, ISA::RV32I), 0b100))
    } else if s == "ori"@ {
        Some(w3(base_desc(Opcode::OpImm, Format::IType, ISA::RV32I), 0b110))
    } else if s == "andi"@ {
        Some(w3(base_desc(Opcode::OpImm, Format::IType, ISA::RV32I), 0b111))
    } else if s == "slli"@ {
        Some(wsh(w3(base_desc(Opcode::OpImm, Format::IType, ISA::RV32I), 0b001), ShiftType::SLL))
    } else if s == "srli"@ {
        Some(wsh(w3(base_desc(Opcode::OpImm, Format::IType, ISA::RV32I), 0b101), ShiftType::SRL))
    } else if s == "srai"@ {
        Some(wsh(w3(base_desc(Opcode::OpImm, Format::IType, ISA::RV32I), 0b101), ShiftType::SRA))
    } else if s == "add"@ {
        Some(w7(w3(base_desc(Opcode::Op, Format::RType, ISA::RV32I), 0b000), 0b0000000))
    } else if s == "sub"@ {
        Some(w7(w3(base_desc(Opcode::Op, Format::RType, ISA::RV32I), 0b000), 0b0100000))
    } else if s == "sll"@ {
        Some(w7(w3(base_desc(Opcode::Op, Format::RType, ISA::RV32I), 0b001), 0b0000000))
    } else if s == "slt"@ {
        Some(w7(w3(base_desc(Opcode::Op, Format::RType, ISA::RV32I), 0b010), 0b0000000))
    } else if s == "sltu"@ {
        Some(w7(w3(base_desc(Opcode::Op, Format::RType, ISA::RV32I), 0b011), 0b0000000))
    } else if s == "xor"@ {
        Some(w7(w3(base_desc(Opcode::Op, Format::RType, ISA::RV32I), 0b100), 0b0000000))
    } else if s == "srl"@ {
        Some(w7(w3(base_desc(Opcode::Op, Format::RType, ISA::RV32I), 0b101), 0b0000000))
    } else if s == "sra"@ {
        Some(w7(w3(base_desc(Opcode::Op, Format::RType, ISA::RV32I), 0b101), 0b0100000))
    } else if s == "or"@ {
        Some(w7(w3(base_desc(Opcode::Op, Format::RType, ISA::RV32I), 0b110), 0b0000000))
    } else if s == "and"@ {
        Some(w7(w3(base_desc(Opcode::Op, Format::RType, ISA::RV32I), 0b111), 0b0000000))
    } else if s == "fence"@ {
        Some(w3(base_desc(Opcode::MiscMem, Format::IType, ISA::RV32I), 0b000))
    } else if s == "ecall"@ {
        Some(w12(w3(base_desc(Opcode::System, Format::IType, ISA::RV32I), 0b000), 0b000000000000))
    } else if s == "ebreak"@ {
        Some(w12(w3(base_desc(Opcode::System, Format::IType, ISA::RV32I), 0b000), 0b000000000001))
    } else {
        None
    }
}

fn isa_rv32i(m: &str) -> (r: Option<Instruction>)
    ensures
        r == spec_isa_rv32i(m@),
{
    if str_eq(m, "lui") {
        Some(Instruction::new(Opcode::Lui, Format::UType, ISA::RV32I))
    } else if str_eq(m, "auipc") {
        Some(Instruction::new(Opcode::AuiPC, Format::UType, ISA::RV32I))
    } else if str_eq(m, "jal") {
        Some(Instruction::new(Opcode::Jal, Format::UJType, ISA::RV32I))
    } else if str_eq(m, "jalr") {
        Some(Instruction::new(Opcode::Jalr, Format::IType, ISA::RV32I).with_funct3(0b000))
    } else if str_eq(m, "beq") {
        Some(Instruction::new(Opcode::Branch, Format::SBType, ISA::RV32I).with_funct3(0b000))
    } else if str_eq(m, "bne") {
        Some(Instruction::new(Opcode::Branch, Format::SBType, ISA::RV32I).with_funct3(0b001))
    } else if str_eq(m, "blt") {
        Some(Instruction::new(Opcode::Branch, Format::SBType, ISA::RV32I).with_funct3(0b100))
    } else if str_eq(m, "bge") {
        Some(Instruction::new(Opcode::Branch, Format::SBType, ISA::RV32I).with_funct3(0b101))
    } else if str_eq(m, "bltu") {
        Some(Instruction::new(Opcode::Branch, Format::SBType, ISA::RV32I).with_funct3(0b110))
    } else if str_eq(m, "bgeu") {
        Some(Instruction::new(Opcode::Branch, Format::SBType, ISA::RV32I).with_funct3(0b111))
    } else if str_eq(m, "lb") {
        Some(Instruction::new(Opcode::Load, Format::IType, ISA::RV32I).with_funct3(0b000))
    } else if str_eq(m, "lh") {
        Some(Instruction::new(Opcode::Load, Format::IType, ISA::RV32I).with_funct3(0b001))
    } else if str_eq(m, "lw") {
        Some(Instruction::new(Opcode::Load, Format::IType, ISA::RV32I).with_funct3(0b010))
    } else if str_eq(m, "lbu") {
        Some(Instruction::new(Opcode::Load, Format::IType, ISA::RV32I).with_funct3(0b100))
    } else if str_eq(m, "lhu") {
        Some(Instruction::new(Opcode::Load, Format::IType, ISA::RV32I).with_funct3(0b101))
    } else if str_eq(m, "sb") {
        Some(Instruction::new(Opcode::Store, Format::SType, ISA::RV32I).with_funct3(0b000))
    } else if str_eq(m, "sh") {
        Some(Instruction::new(Opcode::Store, Format::SType, ISA::RV32I).with_funct3(0b001))
    } else if str_eq(m, "sw") {
        Some(Instruction::new(Opcode::Store, Format::SType, ISA::RV32I).with_funct3(0b010))
    } else if str_eq(m, "addi") {
        Some(Instruction::new(Opcode::OpImm, Format::IType, ISA::RV32I).with_funct3(0b000))
    } else if str_eq(m, "slti") {
        Some(Instruction::new(Opcode::OpImm, Format::IType, ISA::RV32I).with_funct3(0b010))
    } else if str_eq(m, "sltiu") {
        Some(Instruction::new(Opcode::OpImm, Format::IType, ISA::RV32I).with_funct3(0b011))
    } else if str_eq(m, "xori") {
        Some(Instruction::new(Opcode::OpImm, Format::IType, ISA::RV32I).with_funct3(0b100))
    } else if str_eq(m, "ori") {
        Some(Instruction::new(Opcode::OpImm, Format::IType, ISA::RV32I).with_funct3(0b110))
    } else if str_eq(m, "andi") {
        Some(Instruction::new(Opcode::OpImm, Format::IType, ISA::RV32I).with_funct3(0b111))
    } else if str_eq(m, "slli") {
        Some(Instruction::new(Opcode::OpImm, Format::IType, ISA::RV32I).with_funct3(0b001).with_shift(ShiftType::SLL))
    } else if str_eq(m, "srli") {
        Some(Instruction::new(Opcode::OpImm, Format::IType, ISA::RV32I).with_funct3(0b101).with_shift(ShiftType::SRL))
    } else if str_eq(m, "srai") {
        Some(Instruction::new(Opcode::OpImm, Format::IType, ISA::RV32I).with_funct3(0b101).with_shift(ShiftType::SRA))
    } else if str_eq(m, "add") {
        Some(Instruction::new(Opcode::Op, Format::RType, ISA::RV32I).with_funct3(0b000).with_funct7(0b0000000))
    } else if str_eq(m, "sub") {
        Some(Instruction::new(Opcode::Op, Format::RType, ISA::RV32I).with_funct3(0b000).with_funct7(0b0100000))
    } else if str_eq(m, "sll") {
        Some(Instruction::new(Opcode::Op, Format::RType, ISA::RV32I).with_funct3(0b001).with_funct7(0b0000000))
    } else if str_eq(m, "slt") {
        Some(Instruction::new(Opcode::Op, Format::RType, ISA::RV32I).with_funct3(0b010).with_funct7(0b0000000))
    } else if str_eq(m, "sltu") {
        Some(Instruction::new(Opcode::Op, Format::RType, ISA::RV32I).with_funct3(0b011).with_funct7(0b0000000))
    } else if str_eq(m, "xor") {
        Some(Instruction::new(Opcode::Op, Format::RType, ISA::RV32I).with_funct3(0b100).with_funct7(0b0000000))
    } else if str_eq(m, "srl") {
        Some(Instruction::new(Opcode::Op, Format::RType, ISA::RV32I).with_funct3(0b101).with_funct7(0b0000000))
    } else if str_eq(m, "sra") {
        Some(Instruction::new(Opcode::Op, Format::RType, ISA::RV32I).with_funct3(0b101).with_funct7(0b0100000))
    } else if str_eq(m, "or") {
        Some(Instruction::new(Opcode::Op, Format::RType, ISA::RV32I).with_funct3(0b110).with_funct7(0b0000000))
    } else if str_eq(m, "and") {
        Some(Instruction::new(Opcode::Op, Format::RType, ISA::RV32I).with_funct3(0b111).with_funct7(0b0000000))
    } else if str_eq(m, "fence") {
        Some(Instruction::new(Opcode::MiscMem, Format::IType, ISA::RV32I).with_funct3(0b000))
    } else if str_eq(m, "ecall") {
        Some(Instruction::new(Opcode::System, Format::IType, ISA::RV32I).with_funct3(0b000).with_funct12(0b000000000000))
    } else if str_eq(m, "ebreak") {
        Some(Instruction::new(Opcode::System, Format::IType, ISA::RV32I).with_funct3(0b000).with_funct12(0b000000000001))
    } else {
        None
    }
}

pub open spec fn spec_isa_base_ext(s: Seq<char>) -> Option<Instruction> {
    if s == "addiw"@ {
        Some(w3(base_desc(Opcode::OpImm32, Format::IType, ISA::RV64I), 0b000))
    } else if s == "slliw"@ {
        Some(wsh(w3(base_desc(Opcode::OpImm32, Format::IType, ISA::RV64I), 0b001), ShiftType::SLLW))
    } else if s == "srliw"@ {
        Some(wsh(w3(base_desc(Opcode::OpImm32, Format::IType, ISA::RV64I), 0b101), ShiftType::SRLW))
    } else if s == "sraiw"@ {
        Some(wsh(w3(base_desc(Opcode::OpImm32, Format::IType, ISA::RV64I), 0b101), ShiftType::SRAW))
    } else if s == "addw"@ {
        Some(w7(w3(base_desc(Opcode::Op32, Format::RType, ISA::RV64I), 0b000), 0b0000000))
    } else if s == "subw"@ {
        Some(w7(w3(base_desc(Opcode::Op32, Format::RType, ISA::RV64I), 0b000), 0b0100000))
    } else if s == "sllw"@ {
        Some(w7(w3(base_desc(Opcode::Op32, Format::RType, ISA::RV64I), 0b001), 0b0000000))
    } else if s == "srlw"@ {
        Some(w7(w3(base_desc(Opcode::Op32, Format::RType, ISA::RV64I), 0b101), 0b0000000))
    } else if s == "sraw"@ {
        Some(w7(w3(base_desc(Opcode::Op32, Format::RType, ISA::RV64I), 0b101), 0b0100000))
    } else if s == "ld"@ {
        Some(w3(base_desc(Opcode::Load, Format::IType, ISA::RV64I), 0b011))
    } else if s == "lwu"@ {
        Some(w3(base_desc(Opcode::Load, Format::IType, ISA::RV64I), 0b110))
    } else if s == "sd"@ {
        Some(w3(base_desc(Opcode::Store, Format::SType, ISA::RV64I), 0b011))
    } else if s == "addid"@ {
        Some(w3(base_desc(Opcode::OpImm64, Format::IType, ISA::RV128I), 0b000))
    } else if s == "sllid"@ {
        Some(wsh(w3(base_desc(Opcode::OpImm64, Format::IType, ISA::RV128I), 0b001), ShiftType::SLLD))
    } else if s == "srlid"@ {
        Some(wsh(w3(base_desc(Opcode::OpImm64, Format::IType, ISA::RV128I), 0b101), ShiftType::SRLD))
    } else if s == "sraid"@ {
        Some(wsh(w3(base_desc(Opcode::OpImm64, Format::IType, ISA::RV128I), 0b101), ShiftType::SRAD))
    } else if s == "addd"@ {
        Some(w7(w3(base_desc(Opcode::Op64, Format::RType, ISA::RV128I), 0b000), 0b0000000))
    } else if s == "subd"@ {
        Some(w7(w3(base_desc(Opcode::Op64, Format::RType, ISA::RV128I), 0b000), 0b0100000))
    } else if s == "slld"@ {
        Some(w7(w3(base_desc(Opcode::Op64, Format::RType, ISA::RV128I), 0b001), 0b0000000))
    } else if s == "srld"@ {
        Some(w7(w3(base_desc(Opcode::Op64, Format::RType, ISA::RV128I), 0b101), 0b0000000))
    } else if s == "srad"@ {
        Some(w7(w3(base_desc(Opcode::Op64, Format::RType, ISA::RV128I), 0b101), 0b0100000))
    } else if s == "lq"@ {
        Some(w3(base_desc(Opcode::MiscMem, Format::IType, ISA::RV128I), 0b010))
    } else if s == "ldu"@ {
        Some(w3(base_desc(Opcode::Load, Format::IType, ISA::RV128I), 0b111))
    } else if s == "sq"@ {
        Some(w3(base_desc(Opcode::Store, Format::SType, ISA::RV128I), 0b100))
    } else if s == "fence.i"@ {
        Some(w3(base_desc(Opcode::MiscMem, Format::SType, ISA::ZiFencei), 0b001))
    } else if s == "csrrw"@ {
        Some(w3(base_desc(Opcode::System, Format::IType, ISA::Zicsr), 0b001))
    } else if s == "csrrs"@ {
        Some(w3(base_desc(Opcode::System, Format::IType, ISA::Zicsr), 0b010))
    } else if s == "csrrc"@ {
        Some(w3(base_desc(Opcode::System, Format::IType, ISA::Zicsr), 0b011))
    } else if s == "csrrwi"@ {
        Some(w3(base_desc(Opcode::System, Format::IType, ISA::Zicsr), 0b101))
    } else if s == "csrrsi"@ {
        Some(w3(base_desc(Opcode::System, Format::IType, ISA::Zicsr), 0b110))
    } else if s == "csrrci"@ {
        Some(w3(base_desc(Opcode::System, Format::IType, ISA::Zicsr), 0b111))
    } else {
        None
    }
}

fn isa_base_ext(m: &str) -> (r: Option<Instruction>)
    ensures
        r == spec_isa_base_ext(m@),
{
    if str_eq(m, "addiw") {
        Some(Instruction::new(Opcode::OpImm32, Format::IType, ISA::RV64I).with_funct3(0b000))
    } else if str_eq(m, "slliw") {
        Some(Instruction::new(Opcode::OpImm32, Format::IType, ISA::RV64I).with_funct3(0b001).with_shift(ShiftType::SLLW))
    } else if str_eq(m, "srliw") {
        Some(Instruction::new(Opcode::OpImm32, Format::IType, ISA::RV64I).with_funct3(0b101).with_shift(ShiftType::SRLW))
    } else if str_eq(m, "sraiw") {
        Some(Instruction::new(Opcode::OpImm32, Format::IType, ISA::RV64I).with_funct3(0b101).with_shift(ShiftType::SRAW))
    } else if str_eq(m, "addw") {
        Some(Instruction::new(Opcode::Op32, Format::RType, ISA::RV64I).with_funct3(0b000).with_funct7(0b0000000))
    } else if str_eq(m, "subw") {
        Some(Instruction::new(Opcode::Op32, Format::RType, ISA::RV64I).with_funct3(0b000).with_funct7(0b0100000))
    } else if str_eq(m, "sllw") {
        Some(Instruction::new(Opcode::Op32, Format::RType, ISA::RV64I).with_funct3(0b001).with_funct7(0b0000000))
    } else if str_eq(m, "srlw") {
        Some(Instruction::new(Opcode::Op32, Format::RType, ISA::RV64I).with_funct3(0b101).with_funct7(0b0000000))
    } else if str_eq(m, "sraw") {
        Some(Instruction::new(Opcode::Op32, Format::RType, ISA::RV64I).with_funct3(0b101).with_funct7(0b0100000))
    } else if str_eq(m, "ld") {
        Some(Instruction::new(Opcode::Load, Format::IType, ISA::RV64I).with_funct3(0b011))
    } else if str_eq(m, "lwu") {
        Some(Instruction::new(Opcode::Load, Format::IType, ISA::RV64I).with_funct3(0b110))
    } else if str_eq(m, "sd") {
        Some(Instruction::new(Opcode::Store, Format::SType, ISA::RV64I).with_funct3(0b011))
    } else if str_eq(m, "addid") {
        Some(Instruction::new(Opcode::OpImm64, Format::IType, ISA::RV128I).with_funct3(0b000))
    } else if str_eq(m, "sllid") {
        Some(Instruction::new(Opcode::OpImm64, Format::IType, ISA::RV128I).with_funct3(0b001).with_shift(ShiftType::SLLD))
    } else if str_eq(m, "srlid") {
        Some(Instruction::new(Opcode::OpImm64, Format::IType, ISA::RV128I).with_funct3(0b101).with_shift(ShiftType::SRLD))
    } else if str_eq(m, "sraid") {
        Some(Instruction::new(Opcode::OpImm64, Format::IType, ISA::RV128I).with_funct3(0b101).with_shift(ShiftType::SRAD))
    } else if str_eq(m, "addd") {
        Some(Instruction::new(Opcode::Op64, Format::RType, ISA::RV128I).with_funct3(0b000).with_funct7(0b0000000))
    } else if str_eq(m, "subd") {
        Some(Instruction::new(Opcode::Op64, Format::RType, ISA::RV128I).with_funct3(0b000).with_funct7(0b0100000))
    } else if str_eq(m, "slld") {
        Some(Instruction::new(Opcode::Op64, Format::RType, ISA::RV128I).with_funct3(0b001).with_funct7(0b0000000))
    } else if str_eq(m, "srld") {
        Some(Instruction::new(Opcode::Op64, Format::RType, ISA::RV128I).with_funct3(0b101).with_funct7(0b0000000))
    } else if str_eq(m, "srad") {
        Some(Instruction::new(Opcode::Op64, Format::RType, ISA::RV128I).with_funct3(0b101).with_funct7(0b0100000))
    } else if str_eq(m, "lq") {
        Some(Instruction::new(Opcode::MiscMem, Format::IType, ISA::RV128I).with_funct3(0b010))
    } else if str_eq(m, "ldu") {
        Some(Instruction::new(Opcode::Load, Format::IType, ISA::RV128I).with_funct3(0b111))
    } else if str_eq(m, "sq") {
        Some(Instruction::new(Opcode::Store, Format::SType, ISA::RV128I).with_funct3(0b100))
    } else if str_eq(m, "fence.i") {
        Some(Instruction::new(Opcode::MiscMem, Format::SType, ISA::ZiFencei).with_funct3(0b001))
    } else if str_eq(m, "csrrw") {
        Some(Instruction::new(Opcode::System, Format::IType, ISA::Zicsr).with_funct3(0b001))
    } else if str_eq(m, "csrrs") {
        Some(Instruction::new(Opcode::System, Format::IType, ISA::Zicsr).with_funct3(0b010))
    } else if str_eq(m, "csrrc") {
        Some(Instruction::new(Opcode::System, Format::IType, ISA::Zicsr).with_funct3(0b011))
    } else if str_eq(m, "csrrwi") {
        Some(Instruction::new(Opcode::System, Format::IType, ISA::Zicsr).with_funct3(0b101))
    } else if str_eq(m, "csrrsi") {
        Some(Instruction::new(Opcode::System, Format::IType, ISA::Zicsr).with_funct3(0b110))
    } else if str_eq(m, "csrrci") {
        Some(Instruction::new(Opcode::System, Format::IType, ISA::Zicsr).with_funct3(0b111))
    } else {
        None
    }
}

pub open spec fn spec_isa_m_ext(s: Seq<char>) -> Option<Instruction> {
    if s == "mul"@ {
        Some(w7(w3(base_desc(Opcode::Op, Format::RType, ISA::RV32M), 0b000), 0b0000001))
    } else if s == "mulh"@ {
        Some(w7(w3(base_desc(Opcode::Op, Format::RType, ISA::RV32M), 0b001), 0b0000001))
    } else if s == "mulhsu"@ {
        Some(w7(w3(base_desc(Opcode::Op, Format::RType, ISA::RV32M), 0b010), 0b0000001))
    } else if s == "mulhu"@ {
        Some(w7(w3(base_desc(Opcode::Op, Format::RType, ISA::RV32M), 0b011), 0b0000001))
    } else if s == "div"@ {
        Some(w7(w3(base_desc(Opcode::Op, Format::RType, ISA::RV32M), 0b100), 0b0000001))
    } else if s == "divu"@ {
        Some(w7(w3(base_desc(Opcode::Op, Format::RType, ISA::RV32M), 0b101), 0b0000001))
    } else if s == "rem"@ {
        Some(w7(w3(base_desc(Opcode::Op, Format::RType, ISA::RV32M), 0b110), 0b0000001))
    } else if s == "remu"@ {
        Some(w7(w3(base_desc(Opcode::Op, Format::RType, ISA::RV32M), 0b111), 0b0000001))
    } else if s == "mulw"@ {
        Some(w7(w3(base_desc(Opcode::Op32, Format::RType, ISA::RV64M), 0b000), 0b0000001))
    } else if s == "divw"@ {
        Some(w7(w3(base_desc(Opcode::Op32, Format::RType, ISA::RV64M), 0b100), 0b0000001))
    } else if s == "divuw"@ {
        Some(w7(w3(base_desc(Opcode::Op32, Format::RType, ISA::RV64M), 0b101), 0b0000001))
    } else if s == "remw"@ {
        Some(w7(w3(base_desc(Opcode::Op32, Format::RType, ISA::RV64M), 0b110), 0b0000001))
    } else if s == "remuw"@ {
        Some(w7(w3(base_desc(Opcode::Op32, Format::RType, ISA::RV64M), 0b111), 0b0000001))
    } else if s == "muld"@ {
        Some(w7(w3(base_desc(Opcode::Op64, Format::RType, ISA::RV128M), 0b000), 0b0000001))
    } else if s == "divd"@ {
        Some(w7(w3(base_desc(Opcode::Op64, Format::RType, ISA::RV128M), 0b100), 0b0000001))
    } else if s == "divud"@ {
        Some(w7(w3(base_desc(Opcode::Op64, Format::RType, ISA::RV128M), 0b101), 0b0000001))
    } else if s == "remd"@ {
        Some(w7(w3(base_desc(Opcode::Op64, Format::RType, ISA::RV128M), 0b110), 0b0000001))
    } else if s == "remud"@ {
        Some(w7(w3(base_desc(Opcode::Op64, Format::RType, ISA::RV128M), 0b111), 0b0000001))
    } else {
        None
    }
}

fn isa_m_ext(m: &str) -> (r: Option<Instruction>)
    ensures
        r == spec_isa_m_ext(m@),
{
    if str_eq(m, "mul") {
        Some(Instruction::new(Opcode::Op, Format::RType, ISA::RV32M).with_funct3(0b000).with_funct7(0b0000001))
    } else if str_eq(m, "mulh") {
        Some(Instruction::new(Opcode::Op, Format::RType, ISA::RV32M).with_funct3(0b001).with_funct7(0b0000001))
    } else if str_eq(m, "mulhsu") {
        Some(Instruction::new(Opcode::Op, Format::RType, ISA::RV32M).with_funct3(0b010).with_funct7(0b0000001))
    } else if str_eq(m, "mulhu") {
        Some(Instruction::new(Opcode::Op, Format::RType, ISA::RV32M).with_funct3(0b011).with_funct7(0b0000001))
    } else if str_eq(m, "div") {
        Some(Instruction::new(Opcode::Op, Format::RType, ISA::RV32M).with_funct3(0b100).with_funct7(0b0000001))
    } else if str_eq(m, "divu") {
        Some(Instruction::new(Opcode::Op, Format::RType, ISA::RV32M).with_funct3(0b101).with_funct7(0b0000001))
    } else if str_eq(m, "rem") {
        Some(Instruction::new(Opcode::Op, Format::RType, ISA::RV32M).with_funct3(0b110).with_funct7(0b0000001))
    } else if str_eq(m, "remu") {
        Some(Instruction::new(Opcode::Op, Format::RType, ISA::RV32M).with_funct3(0b111).with_funct7(0b0000001))
    } else if str_eq(m, "mulw") {
        Some(Instruction::new(Opcode::Op32, Format::RType, ISA::RV64M).with_funct3(0b000).with_funct7(0b0000001))
    } else if str_eq(m, "divw") {
        Some(Instruction::new(Opcode::Op32, Format::RType, ISA::RV64M).with_funct3(0b100).with_funct7(0b0000001))
    } else if str_eq(m, "divuw") {
        Some(Instruction::new(Opcode::Op32, Format::RType, ISA::RV64M).with_funct3(0b101).with_funct7(0b0000001))
    } else if str_eq(m, "remw") {
        Some(Instruction::new(Opcode::Op32, Format::RType, ISA::RV64M).with_funct3(0b110).with_funct7(0b0000001))
    } else if str_eq(m, "remuw") {
        Some(Instruction::new(Opcode::Op32, Format::RType, ISA::RV64M).with_funct3(0b111).with_funct7(0b0000001))
    } else if str_eq(m, "muld") {
        Some(Instruction::new(Opcode::Op64, Format::RType, ISA::RV128M).with_funct3(0b000).with_funct7(0b0000001))
    } else if str_eq(m, "divd") {
        Some(Instruction::new(Opcode::Op64, Format::RType, ISA::RV128M).with_funct3(0b100).with_funct7(0b0000001))
    } else if str_eq(m, "divud") {
        Some(Instruction::new(Opcode::Op64, Format::RType, ISA::RV128M).with_funct3(0b101).with_funct7(0b0000001))
    } else if str_eq(m, "remd") {
        Some(Instruction::new(Opcode::Op64, Format::RType, ISA::RV128M).with_funct3(0b110).with_funct7(0b0000001))
    } else if str_eq(m, "remud") {
        Some(Instruction::new(Opcode::Op64, Format::RType, ISA::RV128M).with_funct3(0b111).with_funct7(0b0000001))
    } else {
        None
    }
}

pub open spec fn spec_isa_a_ext(s: Seq<char>) -> Option<Instruction> {
    if s == "lr.w"@ {
        Some(w5(w3(base_desc(Opcode::Amo, Format::RType, ISA::RV32A), 0b010), 0b00010))
    } else if s == "sc.w"@ {
        Some(w5(w3(base_desc(Opcode::Amo, Format::RType, ISA::RV32A), 0b010), 0b00011))
    } else if s == "amoswap.w"@ {
        Some(w5(w3(base_desc(Opcode::Amo, Format::RType, ISA::RV32A), 0b010), 0b00001))
    } else if s == "amoadd.w"@ {
        Some(w5(w3(base_desc(Opcode::Amo, Format::RType, ISA::RV32A), 0b010), 0b00000))
    } else if s == "amoxor.w"@ {
        Some(w5(w3(base_desc(Opcode::Amo, Format::RType, ISA::RV32A), 0b010), 0b00100))
    } else if s == "amoand.w"@ {
        Some(w5(w3(base_desc(Opcode::Amo, Format::RType, ISA::RV32A), 0b010), 0b01100))
    } else if s == "amoor.w"@ {
        Some(w5(w3(base_desc(Opcode::Amo, Format::RType, ISA::RV32A), 0b010), 0b01000))
    } else if s == "amomin.w"@ {
        Some(w5(w3(base_desc(Opcode::Amo, Format::RType, ISA::RV32A), 0b010), 0b10000))
    } else if s == "amomax.w"@ {
        Some(w5(w3(base_desc(Opcode::Amo, Format::RType, ISA::RV32A), 0b010), 0b10100))
    } else if s == "amominu.w"@ {
        Some(w5(w3(base_desc(Opcode::Amo, Format::RType, ISA::RV32A), 0b010), 0b11000))
    } else if s == "amomaxu.w"@ {
        Some(w5(w3(base_desc(Opcode::Amo, Format::RType, ISA::RV32A), 0b010), 0b11100))
    } else if s == "lr.d"@ {
        Some(w5(w3(base_desc(Opcode::Amo, Format::RType, ISA::RV64A), 0b011), 0b00010))
    } else if s == "sc.d"@ {
        Some(w5(w3(base_desc(Opcode::Amo, Format::RType, ISA::RV64A), 0b011), 0b00011))
    } else if s == "amoswap.d"@ {
        Some(w5(w3(base_desc(Opcode::Amo, Format::RType, ISA::RV64A), 0b011), 0b00001))
    } else if s == "amoadd.d"@ {
        Some(w5(w3(base_desc(Opcode::Amo, Format::RType, ISA::RV64A), 0b011), 0b00000))
    } else if s == "amoxor.d"@ {
        Some(w5(w3(base_desc(Opcode::Amo, Format::RType, ISA::RV64A), 0b011), 0b00100))
    } else if s == "amoand.d"@ {
        Some(w5(w3(base_desc(Opcode::Amo, Format::RType, ISA::RV64A), 0b011), 0b01100))
    } else if s == "amoor.d"@ {
        Some(w5(w3(base_desc(Opcode::Amo, Format::RType, ISA::RV64A), 0b011), 0b01000))
    } else if s == "amomin.d"@ {
        Some(w5(w3(base_desc(Opcode::Amo, Format::RType, ISA::RV64A), 0b011), 0b10000))
    } else if s == "amomax.d"@ {
        Some(w5(w3(base_desc(Opcode::Amo, Format::RType, ISA::RV64A), 0b011), 0b10100))
    } else if s == "amominu.d"@ {
        Some(w5(w3(base_desc(Opcode::Amo, Format::RType, ISA::RV64A), 0b011), 0b11000))
    } else if s == "amomaxu.d"@ {
        Some(w5(w3(base_desc(Opcode::Amo, Format::RType, ISA::RV64A), 0b011), 0b11100))
    } else if s == "lr.q"@ {
        Some(w5(w3(base_desc(Opcode::Amo, Format::RType, ISA::RV128A), 0b100), 0b00010))
    } else if s == "sc.q"@ {
        Some(w5(w3(base_desc(Opcode::Amo, Format::RType, ISA::RV128A), 0b100), 0b00011))
    } else if s == "amoswap.q"@ {
        Some(w5(w3(base_desc(Opcode::Amo, Format::RType, ISA::RV128A), 0b100), 0b00001))
    } else if s == "amoadd.q"@ {
        Some(w5(w3(base_desc(Opcode::Amo, Format::RType, ISA::RV128A), 0b100), 0b00000))
    } else if s == "amoxor.q"@ {
        Some(w5(w3(base_desc(Opcode::Amo, Format::RType, ISA::RV128A), 0b100), 0b00100))
    } else if s == "amoand.q"@ {
        Some(w5(w3(base_desc(Opcode::Amo, Format::RType, ISA::RV128A), 0b100), 0b01100))
    } else if s == "amoor.q"@ {
        Some(w5(w3(base_desc(Opcode::Amo, Format::RType, ISA::RV128A), 0b100), 0b01000))
    } else if s == "amomin.q"@ {
        Some(w5(w3(base_desc(Opcode::Amo, Format::RType, ISA::RV128A), 0b100), 0b10000))
    } else if s == "amomax.q"@ {
        Some(w5(w3(base_desc(Opcode::Amo, Format::RType, ISA::RV128A), 0b100), 0b10100))
    } else if s == "amominu.q"@ {
        Some(w5(w3(base_desc(Opcode::Amo, Format::RType, ISA::RV128A), 0b100), 0b11000))
    } else if s == "amomaxu.q"@ {
        Some(w5(w3(base_desc(Opcode::Amo, Format::RType, ISA::RV128A), 0b100), 0b11100))
    } else {
        None
    }
}

fn isa_a_ext(m: &str) -> (r: Option<Instruction>)
    ensures
        r == spec_isa_a_ext(m@),
{
    if str_eq(m, "lr.w") {
        Some(Instruction::new(Opcode::Amo, Format::RType, ISA::RV32A).with_funct3(0b010).with_funct5(0b00010))
    } else if str_eq(m, "sc.w") {
        Some(Instruction::new(Opcode::Amo, Format::RType, ISA::RV32A).with_funct3(0b010).with_funct5(0b00011))
    } else if str_eq(m, "amoswap.w") {
        Some(Instruction::new(Opcode::Amo, Format::RType, ISA::RV32A).with_funct3(0b010).with_funct5(0b00001))
    } else if str_eq(m, "amoadd.w") {
        Some(Instruction::new(Opcode::Amo, Format::RType, ISA::RV32A).with_funct3(0b010).with_funct5(0b00000))
    } else if str_eq(m, "amoxor.w") {
        Some(Instruction::new(Opcode::Amo, Format::RType, ISA::RV32A).with_funct3(0b010).with_funct5(0b00100))
    } else if str_eq(m, "amoand.w") {
        Some(Instruction::new(Opcode::Amo, Format::RType, ISA::RV32A).with_funct3(0b010).with_funct5(0b01100))
    } else if str_eq(m, "amoor.w") {
        Some(Instruction::new(Opcode::Amo, Format::RType, ISA::RV32A).with_funct3(0b010).with_funct5(0b01000))
    } else if str_eq(m, "amomin.w") {
        Some(Instruction::new(Opcode::Amo, Format::RType, ISA::RV32A).with_funct3(0b010).with_funct5(0b10000))
    } else if str_eq(m, "amomax.w") {
        Some(Instruction::new(Opcode::Amo, Format::RType, ISA::RV32A).with_funct3(0b010).with_funct5(0b10100))
    } else if str_eq(m, "amominu.w") {
        Some(Instruction::new(Opcode::Amo, Format::RType, ISA::RV32A).with_funct3(0b010).with_funct5(0b11000))
    } else if str_eq(m, "amomaxu.w") {
        Some(Instruction::new(Opcode::Amo, Format::RType, ISA::RV32A).with_funct3(0b010).with_funct5(0b11100))
    } else if str_eq(m, "lr.d") {
        Some(Instruction::new(Opcode::Amo, Format::RType, ISA::RV64A).with_funct3(0b011).with_funct5(0b00010))
    } else if str_eq(m, "sc.d") {
        Some(Instruction::new(Opcode::Amo, Format::RType, ISA::RV64A).with_funct3(0b011).with_funct5(0b00011))
    } else if str_eq(m, "amoswap.d") {
        Some(Instruction::new(Opcode::Amo, Format::RType, ISA::RV64A).with_funct3(0b011).with_funct5(0b00001))
    } else if str_eq(m, "amoadd.d") {
        Some(Instruction::new(Opcode::Amo, Format::RType, ISA::RV64A).with_funct3(0b011).with_funct5(0b00000))
    } else if str_eq(m, "amoxor.d") {
        Some(Instruction::new(Opcode::Amo, Format::RType, ISA::RV64A).with_funct3(0b011).with_funct5(0b00100))
    } else if str_eq(m, "amoand.d") {
        Some(Instruction::new(Opcode::Amo, Format::RType, ISA::RV64A).with_funct3(0b011).with_funct5(0b01100))
    } else if str_eq(m, "amoor.d") {
        Some(Instruction::new(Opcode::Amo, Format::RType, ISA::RV64A).with_funct3(0b011).with_funct5(0b01000))
    } else if str_eq(m, "amomin.d") {
        Some(Instruction::new(Opcode::Amo, Format::RType, ISA::RV64A).with_funct3(0b011).with_funct5(0b10000))
    } else if str_eq(m, "amomax.d") {
        Some(Instruction::new(Opcode::Amo, Format::RType, ISA::RV64A).with_funct3(0b011).with_funct5(0b10100))
    } else if str_eq(m, "amominu.d") {
        Some(Instruction::new(Opcode::Amo, Format::RType, ISA::RV64A).with_funct3(0b011).with_funct5(0b11000))
    } else if str_eq(m, "amomaxu.d") {
        Some(Instruction::new(Opcode::Amo, Format::RType, ISA::RV64A).with_funct3(0b011).with_funct5(0b11100))
    } else if str_eq(m, "lr.q") {
        Some(Instruction::new(Opcode::Amo, Format::RType, ISA::RV128A).with_funct3(0b100).with_funct5(0b00010))
    } else if str_eq(m, "sc.q") {
        Some(Instruction::new(Opcode::Amo, Format::RType, ISA::RV128A).with_funct3(0b100).with_funct5(0b00011))
    } else if str_eq(m, "amoswap.q") {
        Some(Instruction::new(Opcode::Amo, Format::RType, ISA::RV128A).with_funct3(0b100).with_funct5(0b00001))
    } else if str_eq(m, "amoadd.q") {
        Some(Instruction::new(Opcode::Amo, Format::RType, ISA::RV128A).with_funct3(0b100).with_funct5(0b00000))
    } else if str_eq(m, "amoxor.q") {
        Some(Instruction::new(Opcode::Amo, Format::RType, ISA::RV128A).with_funct3(0b100).with_funct5(0b00100))
    } else if str_eq(m, "amoand.q") {
        Some(Instruction::new(Opcode::Amo, Format::RType, ISA::RV128A).with_funct3(0b100).with_funct5(0b01100))
    } else if str_eq(m, "amoor.q") {
        Some(Instruction::new(Opcode::Amo, Format::RType, ISA::RV128A).with_funct3(0b100).with_funct5(0b01000))
    } else if str_eq(m, "amomin.q") {
        Some(Instruction::new(Opcode::Amo, Format::RType, ISA::RV128A).with_funct3(0b100).with_funct5(0b10000))
    } else if str_eq(m, "amomax.q") {
        Some(Instruction::new(Opcode::Amo, Format::RType, ISA::RV128A).with_funct3(0b100).with_funct5(0b10100))
    } else if str_eq(m, "amominu.q") {
        Some(Instruction::new(Opcode::Amo, Format::RType, ISA::RV128A).with_funct3(0b100).with_funct5(0b11000))
    } else if str_eq(m, "amomaxu.q") {
        Some(Instruction::new(Opcode::Amo, Format::RType, ISA::RV128A).with_funct3(0b100).with_funct5(0b11100))
    } else {
        None
    }
}

pub open spec fn spec_isa_f_ext(s: Seq<char>) -> Option<Instruction> {
    if s == "flw"@ {
        Some(w3(base_desc(Opcode::LoadFp, Format::IType, ISA::RV32F), float_width_bits(FloatWidth::Single)))
    } else if s == "fsw"@ {
        Some(w3(base_desc(Opcode::StoreFp, Format::SType, ISA::RV32F), float_width_bits(FloatWidth::Single)))
    } else if s == "fmadd.s"@ {
        Some(wff(base_desc(Opcode::MAdd, Format::R4Type, ISA::RV32F), FloatFormat::Single))
    } else if s == "fmsub.s"@ {
        Some(wff(base_desc(Opcode::MSub, Format::R4Type, ISA::RV32F), FloatFormat::Single))
    } else if s == "fnmadd.s"@ {
        Some(wff(base_desc(Opcode::NmAdd, Format::R4Type, ISA::RV32F), FloatFormat::Single))
    } else if s == "fnmsub.s"@ {
        Some(wff(base_desc(Opcode::NmSub, Format::R4Type, ISA::RV32F), FloatFormat::Single))
    } else if s == "fadd.s"@ {
        Some(wff(w5(base_desc(Opcode::OpFp, Format::RType, ISA::RV32F), 0b00000), FloatFormat::Single))
    } else if s == "fsub.s"@ {
        Some(wff(w5(base_desc(Opcode::OpFp, Format::RType, ISA::RV32F), 0b00001), FloatFormat::Single))
    } else if s == "fmul.s"@ {
        Some(wff(w5(base_desc(Opcode::OpFp, Format::RType, ISA::RV32F), 0b00010), FloatFormat::Single))
    } else if s == "fdiv.s"@ {
        Some(wff(w5(base_desc(Opcode::OpFp, Format::RType, ISA::RV32F), 0b00011), FloatFormat::Single))
    } else if s == "fsqrt.s"@ {
        Some(wff(wrs2(w5(base_desc(Opcode::OpFp, Format::RType, ISA::RV32F), 0b01011), 0b00000), FloatFormat::Single))
    } else if s == "fsgnj.s"@ {
        Some(wff(w3(w5(base_desc(Opcode::OpFp, Format::RType, ISA::RV32F), 0b00100), 0b000), FloatFormat::Single))
    } else if s == "fsgnjn.s"@ {
        Some(wff(w3(w5(base_desc(Opcode::OpFp, Format::RType, ISA::RV32F), 0b00100), 0b001), FloatFormat::Single))
    } else if s == "fsgnjx.s"@ {
        Some(wff(w3(w5(base_desc(Opcode::OpFp, Format::RType, ISA::RV32F), 0b00100), 0b010), FloatFormat::Single))
    } else if s == "fmin.s"@ {
        Some(wff(w3(w5(base_desc(Opcode::OpFp, Format::RType, ISA::RV32F), 0b00101), 0b000), FloatFormat::Single))
    } else if s == "fmax.s"@ {
        Some(wff(w3(w5(base_desc(Opcode::OpFp, Format::RType, ISA::RV32F), 0b00101), 0b001), FloatFormat::Single))
    } else if s == "feq.s"@ {
        Some(wff(w3(w5(base_desc(Opcode::OpFp, Format::RType, ISA::RV32F), 0b10100), 0b010), FloatFormat::Single))
    } else if s == "flt.s"@ {
        Some(wff(w3(w5(base_desc(Opcode::OpFp, Format::RType, ISA::RV32F), 0b10100), 0b001), FloatFormat::Single))
    } else if s == "fle.s"@ {
        Some(wff(w3(w5(base_desc(Opcode::OpFp, Format::RType, ISA::RV32F), 0b10100), 0b000), FloatFormat::Single))
    } else if s == "fcvt.w.s"@ {
        Some(wff(wrs2(w5(base_desc(Opcode::OpFp, Format::RType, ISA::RV32F), 0b11000), 0b00000), FloatFormat::Single))
    } else if s == "fcvt.wu.s"@ {
        Some(wff(wrs2(w5(base_desc(Opcode::OpFp, Format::RType, ISA::RV32F), 0b11000), 0b00001), FloatFormat::Single))
    } else if s == "fcvt.s.w"@ {
        Some(wff(wrs2(w5(base_desc(Opcode::OpFp, Format::RType, ISA::RV32F), 0b11010), 0b00000), FloatFormat::Single))
    } else if s == "fcvt.s.wu"@ {
        Some(wff(wrs2(w5(base_desc(Opcode::OpFp, Format::RType, ISA::RV32F), 0b11010), 0b00001), FloatFormat::Single))
    } else if s == "fclass.s"@ {
        Some(wff(w3(wrs2(w5(base_desc(Opcode::OpFp, Format::RType, ISA::RV32F), 0b11100), 0b00000), 0b001), FloatFormat::Single))
    } else if s == "fmv.x.w"@ {
        Some(wff(w3(wrs2(w5(base_desc(Opcode::OpFp, Format::RType, ISA::RV32F), 0b11100), 0b00000), 0b000), FloatFormat::Single))
    } else if s == "fmv.w.x"@ {
        Some(wff(w3(wrs2(w5(base_desc(Opcode::OpFp, Format::RType, ISA::RV32F), 0b11110), 0b00000), 0b000), FloatFormat::Single))
    } else if s == "fcvt.l.s"@ {
        Some(wff(wrs2(w5(base_desc(Opcode::OpFp, Format::RType, ISA::RV64F), 0b11000), 0b00010), FloatFormat::Single))
    } else if s == "fcvt.lu.s"@ {
        Some(wff(wrs2(w5(base_desc(Opcode::OpFp, Format::RType, ISA::RV64F), 0b11000), 0b00011), FloatFormat::Single))
    } else if s == "fcvt.s.l"@ {
        Some(wff(wrs2(w5(base_desc(Opcode::OpFp, Format::RType, ISA::RV64F), 0b11010), 0b00010), FloatFormat::Single))
    } else if s == "fcvt.s.lu"@ {
        Some(wff(wrs2(w5(base_desc(Opcode::OpFp, Format::RType, ISA::RV64F), 0b11010), 0b00011), FloatFormat::Single))
    } else if s == "fcvt.t.s"@ {
        Some(wff(wrs2(w5(base_desc(Opcode::OpFp, Format::RType, ISA::RV128F), 0b11000), 0b00100), FloatFormat::Single))
    } else if s == "fcvt.tu.s"@ {
        Some(wff(wrs2(w5(base_desc(Opcode::OpFp, Format::RType, ISA::RV128F), 0b11000), 0b00101), FloatFormat::Single))
    } else if s == "fcvt.s.t"@ {
        Some(wff(wrs2(w5(base_desc(Opcode::OpFp, Format::RType, ISA::RV128F), 0b11010), 0b00100), FloatFormat::Single))
    } else if s == "fcvt.s.tu"@ {
        Some(wff(wrs2(w5(base_desc(Opcode::OpFp, Format::RType, ISA::RV128F), 0b11010), 0b00101), FloatFormat::Single))
    } else {
        None
    }
}

fn isa_f_ext(m: &str) -> (r: Option<Instruction>)
    ensures
        r == spec_isa_f_ext(m@),
{
    if str_eq(m, "flw") {
        Some(Instruction::new(Opcode::LoadFp, Format::IType, ISA::RV32F).with_funct3(float_width_bits(FloatWidth::Single)))
    } else if str_eq(m, "fsw") {
        Some(Instruction::new(Opcode::StoreFp, Format::SType, ISA::RV32F).with_funct3(float_width_bits(FloatWidth::Single)))
    } else if str_eq(m, "fmadd.s") {
        Some(Instruction::new(Opcode::MAdd, Format::R4Type, ISA::RV32F).with_float_format(FloatFormat::Single))
    } else if str_eq(m, "fmsub.s") {
        Some(Instruction::new(Opcode::MSub, Format::R4Type, ISA::RV32F).with_float_format(FloatFormat::Single))
    } else if str_eq(m, "fnmadd.s") {
        Some(Instruction::new(Opcode::NmAdd, Format::R4Type, ISA::RV32F).with_float_format(FloatFormat::Single))
    } else if str_eq(m, "fnmsub.s") {
        Some(Instruction::new(Opcode::NmSub, Format::R4Type, ISA::RV32F).with_float_format(FloatFormat::Single))
    } else if str_eq(m, "fadd.s") {
        Some(Instruction::new(Opcode::OpFp, Format::RType, ISA::RV32F).with_funct5(0b00000).with_float_format(FloatFormat::Single))
    } else if str_eq(m, "fsub.s") {
        Some(Instruction::new(Opcode::OpFp, Format::RType, ISA::RV32F).with_funct5(0b00001).with_float_format(FloatFormat::Single))
    } else if str_eq(m, "fmul.s") {
        Some(Instruction::new(Opcode::OpFp, Format::RType, ISA::RV32F).with_funct5(0b00010).with_float_format(FloatFormat::Single))
    } else if str_eq(m, "fdiv.s") {
        Some(Instruction::new(Opcode::OpFp, Format::RType, ISA::RV32F).with_funct5(0b00011).with_float_format(FloatFormat::Single))
    } else if str_eq(m, "fsqrt.s") {
        Some(Instruction::new(Opcode::OpFp, Format::RType, ISA::RV32F).with_funct5(0b01011).with_rs2(0b00000).with_float_format(FloatFormat::Single))
    } else if str_eq(m, "fsgnj.s") {
        Some(Instruction::new(Opcode::OpFp, Format::RType, ISA::RV32F).with_funct5(0b00100).with_funct3(0b000).with_float_format(FloatFormat::Single))
    } else if str_eq(m, "fsgnjn.s") {
        Some(Instruction::new(Opcode::OpFp, Format::RType, ISA::RV32F).with_funct5(0b00100).with_funct3(0b001).with_float_format(FloatFormat::Single))
    } else if str_eq(m, "fsgnjx.s") {
        Some(Instruction::new(Opcode::OpFp, Format::RType, ISA::RV32F).with_funct5(0b00100).with_funct3(0b010).with_float_format(FloatFormat::Single))
    } else if str_eq(m, "fmin.s") {
        Some(Instruction::new(Opcode::OpFp, Format::RType, ISA::RV32F).with_funct5(0b00101).with_funct3(0b000).with_float_format(FloatFormat::Single))
    } else if str_eq(m, "fmax.s") {
        Some(Instruction::new(Opcode::OpFp, Format::RType, ISA::RV32F).with_funct5(0b00101).with_funct3(0b001).with_float_format(FloatFormat::Single))
    } else if str_eq(m, "feq.s") {
        Some(Instruction::new(Opcode::OpFp, Format::RType, ISA::RV32F).with_funct5(0b10100).with_funct3(0b010).with_float_format(FloatFormat::Single))
    } else if str_eq(m, "flt.s") {
        Some(Instruction::new(Opcode::OpFp, Format::RType, ISA::RV32F).with_funct5(0b10100).with_funct3(0b001).with_float_format(FloatFormat::Single))
    } else if str_eq(m, "fle.s") {
        Some(Instruction::new(Opcode::OpFp, Format::RType, ISA::RV32F).with_funct5(0b10100).with_funct3(0b000).with_float_format(FloatFormat::Single))
    } else if str_eq(m, "fcvt.w.s") {
        Some(Instruction::new(Opcode::OpFp, Format::RType, ISA::RV32F).with_funct5(0b11000).with_rs2(0b00000).with_float_format(FloatFormat::Single))
    } else if str_eq(m, "fcvt.wu.s") {
        Some(Instruction::new(Opcode::OpFp, Format::RType, ISA::RV32F).with_funct5(0b11000).with_rs2(0b00001).with_float_format(FloatFormat::Single))
    } else if str_eq(m, "fcvt.s.w") {
        Some(Instruction::new(Opcode::OpFp, Format::RType, ISA::RV32F).with_funct5(0b11010).with_rs2(0b00000).with_float_format(FloatFormat::Single))
    } else if str_eq(m, "fcvt.s.wu") {
        Some(Instruction::new(Opcode::OpFp, Format::RType, ISA::RV32F).with_funct5(0b11010).with_rs2(0b00001).with_float_format(FloatFormat::Single))
    } else if str_eq(m, "fclass.s") {
        Some(Instruction::new(Opcode::OpFp, Format::RType, ISA::RV32F).with_funct5(0b11100).with_rs2(0b00000).with_funct3(0b001).with_float_format(FloatFormat::Single))
    } else if str_eq(m, "fmv.x.w") {
        Some(Instruction::new(Opcode::OpFp, Format::RType, ISA::RV32F).with_funct5(0b11100).with_rs2(0b00000).with_funct3(0b000).with_float_format(FloatFormat::Single))
    } else if str_eq(m, "fmv.w.x") {
        Some(Instruction::new(Opcode::OpFp, Format::RType, ISA::RV32F).with_funct5(0b11110).with_rs2(0b00000).with_funct3(0b000).with_float_format(FloatFormat::Single))
    } else if str_eq(m, "fcvt.l.s") {
        Some(Instruction::new(Opcode::OpFp, Format::RType, ISA::RV64F).with_funct5(0b11000).with_rs2(0b00010).with_float_format(FloatFormat::Single))
    } else if str_eq(m, "fcvt.lu.s") {
        Some(Instruction::new(Opcode::OpFp, Format::RType, ISA::RV64F).with_funct5(0b11000).with_rs2(0b00011).with_float_format(FloatFormat::Single))
    } else if str_eq(m, "fcvt.s.l") {
        Some(Instruction::new(Opcode::OpFp, Format::RType, ISA::RV64F).with_funct5(0b11010).with_rs2(0b00010).with_float_format(FloatFormat::Single))
    } else if str_eq(m, "fcvt.s.lu") {
        Some(Instruction::new(Opcode::OpFp, Format::RType, ISA::RV64F).with_funct5(0b11010).with_rs2(0b00011).with_float_format(FloatFormat::Single))
    } else if str_eq(m, "fcvt.t.s") {
        Some(Instruction::new(Opcode::OpFp, Format::RType, ISA::RV128F).with_funct5(0b11000).with_rs2(0b00100).with_float_format(FloatFormat::Single))
    } else if str_eq(m, "fcvt.tu.s") {
        Some(Instruction::new(Opcode::OpFp, Format::RType, ISA::RV128F).with_funct5(0b11000).with_rs2(0b00101).with_float_format(FloatFormat::Single))
    } else if str_eq(m, "fcvt.s.t") {
        Some(Instruction::new(Opcode::OpFp, Format::RType, ISA::RV128F).with_funct5(0b11010).with_rs2(0b00100).with_float_format(FloatFormat::Single))
    } else if str_eq(m, "fcvt.s.tu") {
        Some(Instruction::new(Opcode::OpFp, Format::RType, ISA::RV128F).with_funct5(0b11010).with_rs2(0b00101).with_float_format(FloatFormat::Single))
    } else {
        None
    }
}

pub open spec fn spec_isa_d_ext(s: Seq<char>) -> Option<Instruction> {
    if s == "fld"@ {
        Some(w3(base_desc(Opcode::LoadFp, Format::IType, ISA::RV32D), float_width_bits(FloatWidth::Double)))
    } else if s == "fsd"@ {
        Some(w3(base_desc(Opcode::StoreFp, Format::SType, ISA::RV32D), float_width_bits(FloatWidth::Double)))
    } else if s == "fmadd.d"@ {
        Some(wff(base_desc(Opcode::MAdd, Format::R4Type, ISA::RV32D), FloatFormat::Double))
    } else if s == "fmsub.d"@ {
        Some(wff(base_desc(Opcode::MSub, Format::R4Type, ISA::RV32D), FloatFormat::Double))
    } else if s == "fnmadd.d"@ {
        Some(wff(base_desc(Opcode::NmAdd, Format::R4Type, ISA::RV32D), FloatFormat::Double))
    } else if s == "fnmsub.d"@ {
        Some(wff(base_desc(Opcode::NmSub, Format::R4Type, ISA::RV32D), FloatFormat::Double))
    } else if s == "fadd.d"@ {
        Some(wff(w5(base_desc(Opcode::OpFp, Format::RType, ISA::RV32D), 0b00000), FloatFormat::Double))
    } else if s == "fsub.d"@ {
        Some(wff(w5(base_desc(Opcode::OpFp, Format::RType, ISA::RV32D), 0b00001), FloatFormat::Double))
    } else if s == "fmul.d"@ {
        Some(wff(w5(base_desc(Opcode::OpFp, Format::RType, ISA::RV32D), 0b00010), FloatFormat::Double))
    } else if s == "fdiv.d"@ {
        Some(wff(w5(base_desc(Opcode::OpFp, Format::RType, ISA::RV32D), 0b00011), FloatFormat::Double))
    } else if s == "fsqrt.d"@ {
        Some(wff(wrs2(w5(base_desc(Opcode::OpFp, Format::RType, ISA::RV32D), 0b01011), 0b00000), FloatFormat::Double))
    } else if s == "fsgnj.d"@ {
        Some(wff(w3(w5(base_desc(Opcode::OpFp, Format::RType, ISA::RV32D), 0b00100), 0b000), FloatFormat::Double))
    } else if s == "fsgnjn.d"@ {
        Some(wff(w3(w5(base_desc(Opcode::OpFp, Format::RType, ISA::RV32D), 0b00100), 0b001), FloatFormat::Double))
    } else if s == "fsgnjx.d"@ {
        Some(wff(w3(w5(base_desc(Opcode::OpFp, Format::RType, ISA::RV32D), 0b00100), 0b010), FloatFormat::Double))
    } else if s == "fmin.d"@ {
        Some(wff(w3(w5(base_desc(Opcode::OpFp, Format::RType, ISA::RV32D), 0b00101), 0b000), FloatFormat::Double))
    } else if s == "fmax.d"@ {
        Some(wff(w3(w5(base_desc(Opcode::OpFp, Format::RType, ISA::RV32D), 0b00101), 0b001), FloatFormat::Double))
    } else if s == "feq.d"@ {
        Some(wff(w3(w5(base_desc(Opcode::OpFp, Format::RType, ISA::RV32D), 0b10100), 0b010), FloatFormat::Double))
    } else if s == "flt.d"@ {
        Some(wff(w3(w5(base_desc(Opcode::OpFp, Format::RType, ISA::RV32D), 0b10100), 0b001), FloatFormat::Double))
    } else if s == "fle.d"@ {
        Some(wff(w3(w5(base_desc(Opcode::OpFp, Format::RType, ISA::RV32D), 0b10100), 0b000), FloatFormat::Double))
    } else if s == "fcvt.w.d"@ {
        Some(wff(wrs2(w5(base_desc(Opcode::OpFp, Format::RType, ISA::RV32D), 0b11000), 0b00000), FloatFormat::Double))
    } else if s == "fcvt.wu.d"@ {
        Some(wff(wrs2(w5(base_desc(Opcode::OpFp, Format::RType, ISA::RV32D), 0b11000), 0b00001), FloatFormat::Double))
    } else if s == "fcvt.d.w"@ {
        Some(wff(wrs2(w5(base_desc(Opcode::OpFp, Format::RType, ISA::RV32D), 0b11010), 0b00000), FloatFormat::Double))
    } else if s == "fcvt.d.wu"@ {
        Some(wff(wrs2(w5(base_desc(Opcode::OpFp, Format::RType, ISA::RV32D), 0b11010), 0b00001), FloatFormat::Double))
    } else if s == "fcvt.s.d"@ {
        Some(wff(wrs2(w5(base_desc(Opcode::OpFp, Format::RType, ISA::RV32D), 0b01000), 0b00000), FloatFormat::Single))
    } else if s == "fcvt.d.s"@ {
        Some(wff(wrs2(w5(base_desc(Opcode::OpFp, Format::RType, ISA::RV32D), 0b01000), 0b00000), FloatFormat::Double))
    } else if s == "fclass.d"@ {
        Some(wff(w3(wrs2(w5(base_desc(Opcode::OpFp, Format::RType, ISA::RV32D), 0b11100), 0b00000), 0b001), FloatFormat::Double))
    } else if s == "fmv.x.d"@ {
        Some(wff(w3(wrs2(w5(base_desc(Opcode::OpFp, Format::RType, ISA::RV64D), 0b11100), 0b00000), 0b000), FloatFormat::Double))
    } else if s == "fmv.d.x"@ {
        Some(wff(w3(wrs2(w5(base_desc(Opcode::OpFp, Format::RType, ISA::RV64D), 0b11110), 0b00000), 0b000), FloatFormat::Double))
    } else if s == "fcvt.l.d"@ {
        Some(wff(wrs2(w5(base_desc(Opcode::OpFp, Format::RType, ISA::RV64D), 0b11000), 0b00010), FloatFormat::Double))
    } else if s == "fcvt.lu.d"@ {
        Some(wff(wrs2(w5(base_desc(Opcode::OpFp, Format::RType, ISA::RV64D), 0b11000), 0b00011), FloatFormat::Double))
    } else if s == "fcvt.d.l"@ {
        Some(wff(wrs2(w5(base_desc(Opcode::OpFp, Format::RType, ISA::RV64D), 0b11010), 0b00010), FloatFormat::Double))
    } else if s == "fcvt.d.lu"@ {
        Some(wff(wrs2(w5(base_desc(Opcode::OpFp, Format::RType, ISA::RV64D), 0b11010), 0b00011), FloatFormat::Double))
    } else if s == "fcvt.t.d"@ {
        Some(wff(wrs2(w5(base_desc(Opcode::OpFp, Format::RType, ISA::RV128D), 0b11000), 0b00100), FloatFormat::Double))
    } else if s == "fcvt.tu.d"@ {
        Some(wff(wrs2(w5(base_desc(Opcode::OpFp, Format::RType, ISA::RV128D), 0b11000), 0b00101), FloatFormat::Double))
    } else if s == "fcvt.d.t"@ {
        Some(wff(wrs2(w5(base_desc(Opcode::OpFp, Format::RType, ISA::RV128D), 0b11010), 0b00100), FloatFormat::Double))
    } else if s == "fcvt.d.tu"@ {
        Some(wff(wrs2(w5(base_desc(Opcode::OpFp, Format::RType, ISA::RV128D), 0b11010), 0b00101), FloatFormat::Double))
    } else {
        None
    }
}

fn isa_d_ext(m: &str) -> (r: Option<Instruction>)
    ensures
        r == spec_isa_d_ext(m@),
{
    if str_eq(m, "fld") {
        Some(Instruction::new(Opcode::LoadFp, Format::IType, ISA::RV32D).with_funct3(float_width_bits(FloatWidth::Double)))
    } else if str_eq(m, "fsd") {
        Some(Instruction::new(Opcode::StoreFp, Format::SType, ISA::RV32D).with_funct3(float_width_bits(FloatWidth::Double)))
    } else if str_eq(m, "fmadd.d") {
        Some(Instruction::new(Opcode::MAdd, Format::R4Type, ISA::RV32D).with_float_format(FloatFormat::Double))
    } else if str_eq(m, "fmsub.d") {
        Some(Instruction::new(Opcode::MSub, Format::R4Type, ISA::RV32D).with_float_format(FloatFormat::Double))
    } else if str_eq(m, "fnmadd.d") {
        Some(Instruction::new(Opcode::NmAdd, Format::R4Type, ISA::RV32D).with_float_format(FloatFormat::Double))
    } else if str_eq(m, "fnmsub.d") {
        Some(Instruction::new(Opcode::NmSub, Format::R4Type, ISA::RV32D).with_float_format(FloatFormat::Double))
    } else if str_eq(m, "fadd.d") {
        Some(Instruction::new(Opcode::OpFp, Format::RType, ISA::RV32D).with_funct5(0b00000).with_float_format(FloatFormat::Double))
    } else if str_eq(m, "fsub.d") {
        Some(Instruction::new(Opcode::OpFp, Format::RType, ISA::RV32D).with_funct5(0b00001).with_float_format(FloatFormat::Double))
    } else if str_eq(m, "fmul.d") {
        Some(Instruction::new(Opcode::OpFp, Format::RType, ISA::RV32D).with_funct5(0b00010).with_float_format(FloatFormat::Double))
    } else if str_eq(m, "fdiv.d") {
        Some(Instruction::new(Opcode::OpFp, Format::RType, ISA::RV32D).with_funct5(0b00011).with_float_format(FloatFormat::Double))
    } else if str_eq(m, "fsqrt.d") {
        Some(Instruction::new(Opcode::OpFp, Format::RType, ISA::RV32D).with_funct5(0b01011).with_rs2(0b00000).with_float_format(FloatFormat::Double))
    } else if str_eq(m, "fsgnj.d") {
        Some(Instruction::new(Opcode::OpFp, Format::RType, ISA::RV32D).with_funct5(0b00100).with_funct3(0b000).with_float_format(FloatFormat::Double))
    } else if str_eq(m, "fsgnjn.d") {
        Some(Instruction::new(Opcode::OpFp, Format::RType, ISA::RV32D).with_funct5(0b00100).with_funct3(0b001).with_float_format(FloatFormat::Double))
    } else if str_eq(m, "fsgnjx.d") {
        Some(Instruction::new(Opcode::OpFp, Format::RType, ISA::RV32D).with_funct5(0b00100).with_funct3(0b010).with_float_format(FloatFormat::Double))
    } else if str_eq(m, "fmin.d") {
        Some(Instruction::new(Opcode::OpFp, Format::RType, ISA::RV32D).with_funct5(0b00101).with_funct3(0b000).with_float_format(FloatFormat::Double))
    } else if str_eq(m, "fmax.d") {
        Some(Instruction::new(Opcode::OpFp, Format::RType, ISA::RV32D).with_funct5(0b00101).with_funct3(0b001).with_float_format(FloatFormat::Double))
    } else if str_eq(m, "feq.d") {
        Some(Instruction::new(Opcode::OpFp, Format::RType, ISA::RV32D).with_funct5(0b10100).with_funct3(0b010).with_float_format(FloatFormat::Double))
    } else if str_eq(m, "flt.d") {
        Some(Instruction::new(Opcode::OpFp, Format::RType, ISA::RV32D).with_funct5(0b10100).with_funct3(0b001).with_float_format(FloatFormat::Double))
    } else if str_eq(m, "fle.d") {
        Some(Instruction::new(Opcode::OpFp, Format::RType, ISA::RV32D).with_funct5(0b10100).with_funct3(0b000).with_float_format(FloatFormat::Double))
    } else if str_eq(m, "fcvt.w.d") {
        Some(Instruction::new(Opcode::OpFp, Format::RType, ISA::RV32D).with_funct5(0b11000).with_rs2(0b00000).with_float_format(FloatFormat::Double))
    } else if str_eq(m, "fcvt.wu.d") {
        Some(Instruction::new(Opcode::OpFp, Format::RType, ISA::RV32D).with_funct5(0b11000).with_rs2(0b00001).with_float_format(FloatFormat::Double))
    } else if str_eq(m, "fcvt.d.w") {
        Some(Instruction::new(Opcode::OpFp, Format::RType, ISA::RV32D).with_funct5(0b11010).with_rs2(0b00000).with_float_format(FloatFormat::Double))
    } else if str_eq(m, "fcvt.d.wu") {
        Some(Instruction::new(Opcode::OpFp, Format::RType, ISA::RV32D).with_funct5(0b11010).with_rs2(0b00001).with_float_format(FloatFormat::Double))
    } else if str_eq(m, "fcvt.s.d") {
        Some(Instruction::new(Opcode::OpFp, Format::RType, ISA::RV32D).with_funct5(0b01000).with_rs2(0b00000).with_float_format(FloatFormat::Single))
    } else if str_eq(m, "fcvt.d.s") {
        Some(Instruction::new(Opcode::OpFp, Format::RType, ISA::RV32D).with_funct5(0b01000).with_rs2(0b00000).with_float_format(FloatFormat::Double))
    } else if str_eq(m, "fclass.d") {
        Some(Instruction::new(Opcode::OpFp, Format::RType, ISA::RV32D).with_funct5(0b11100).with_rs2(0b00000).with_funct3(0b001).with_float_format(FloatFormat::Double))
    } else if str_eq(m, "fmv.x.d") {
        Some(Instruction::new(Opcode::OpFp, Format::RType, ISA::RV64D).with_funct5(0b11100).with_rs2(0b00000).with_funct3(0b000).with_float_format(FloatFormat::Double))
    } else if str_eq(m, "fmv.d.x") {
        Some(Instruction::new(Opcode::OpFp, Format::RType, ISA::RV64D).with_funct5(0b11110).with_rs2(0b00000).with_funct3(0b000).with_float_format(FloatFormat::Double))
    } else if str_eq(m, "fcvt.l.d") {
        Some(Instruction::new(Opcode::OpFp, Format::RType, ISA::RV64D).with_funct5(0b11000).with_rs2(0b00010).with_float_format(FloatFormat::Double))
    } else if str_eq(m, "fcvt.lu.d") {
        Some(Instruction::new(Opcode::OpFp, Format::RType, ISA::RV64D).with_funct5(0b11000).with_rs2(0b00011).with_float_format(FloatFormat::Double))
    } else if str_eq(m, "fcvt.d.l") {
        Some(Instruction::new(Opcode::OpFp, Format::RType, ISA::RV64D).with_funct5(0b11010).with_rs2(0b00010).with_float_format(FloatFormat::Double))
    } else if str_eq(m, "fcvt.d.lu") {
        Some(Instruction::new(Opcode::OpFp, Format::RType, ISA::RV64D).with_funct5(0b11010).with_rs2(0b00011).with_float_format(FloatFormat::Double))
    } else if str_eq(m, "fcvt.t.d") {
        Some(Instruction::new(Opcode::OpFp, Format::RType, ISA::RV128D).with_funct5(0b11000).with_rs2(0b00100).with_float_format(FloatFormat::Double))
    } else if str_eq(m, "fcvt.tu.d") {
        Some(Instruction::new(Opcode::OpFp, Format::RType, ISA::RV128D).with_funct5(0b11000).with_rs2(0b00101).with_float_format(FloatFormat::Double))
    } else if str_eq(m, "fcvt.d.t") {
        Some(Instruction::new(Opcode::OpFp, Format::RType, ISA::RV128D).with_funct5(0b11010).with_rs2(0b00100).with_float_format(FloatFormat::Double))
    } else if str_eq(m, "fcvt.d.tu") {
        Some(Instruction::new(Opcode::OpFp, Format::RType, ISA::RV128D).with_funct5(0b11010).with_rs2(0b00101).with_float_format(FloatFormat::Double))
    } else {
        None
    }
}

pub open spec fn spec_isa_q_ext(s: Seq<char>) -> Option<Instruction> {
    if s == "flq"@ {
        Some(w3(base_desc(Opcode::LoadFp, Format::IType, ISA::RV32Q), float_width_bits(FloatWidth::Quad)))
    } else if s == "fsq"@ {
        Some(w3(base_desc(Opcode::StoreFp, Format::SType, ISA::RV32Q), float_width_bits(FloatWidth::Quad)))
    } else if s == "fmadd.q"@ {
        Some(wff(base_desc(Opcode::MAdd, Format::R4Type, ISA::RV32Q), FloatFormat::Quad))
    } else if s == "fmsub.q"@ {
        Some(wff(base_desc(Opcode::MSub, Format::R4Type, ISA::RV32Q), FloatFormat::Quad))
    } else if s == "fnmadd.q"@ {
        Some(wff(base_desc(Opcode::NmAdd, Format::R4Type, ISA::RV32Q), FloatFormat::Quad))
    } else if s == "fnmsub.q"@ {
        Some(wff(base_desc(Opcode::NmSub, Format::R4Type, ISA::RV32Q), FloatFormat::Quad))
    } else if s == "fadd.q"@ {
        Some(wff(w5(base_desc(Opcode::OpFp, Format::RType, ISA::RV32Q), 0b00000), FloatFormat::Quad))
    } else if s == "fsub.q"@ {
        Some(wff(w5(base_desc(Opcode::OpFp, Format::RType, ISA::RV32Q), 0b00001), FloatFormat::Quad))
    } else if s == "fmul.q"@ {
        Some(wff(w5(base_desc(Opcode::OpFp, Format::RType, ISA::RV32Q), 0b00010), FloatFormat::Quad))
    } else if s == "fdiv.q"@ {
        Some(wff(w5(base_desc(Opcode::OpFp, Format::RType, ISA::RV32Q), 0b00011), FloatFormat::Quad))
    } else if s == "fsqrt.q"@ {
        Some(wff(wrs2(w5(base_desc(Opcode::OpFp, Format::RType, ISA::RV32Q), 0b01011), 0b00000), FloatFormat::Quad))
    } else if s == "fsgnj.q"@ {
        Some(wff(w3(w5(base_desc(Opcode::OpFp, Format::RType, ISA::RV32Q), 0b00100), 0b000), FloatFormat::Quad))
    } else if s == "fsgnjn.q"@ {
        Some(wff(w3(w5(base_desc(Opcode::OpFp, Format::RType, ISA::RV32Q), 0b00100), 0b001), FloatFormat::Quad))
    } else if s == "fsgnjx.q"@ {
        Some(wff(w3(w5(base_desc(Opcode::OpFp, Format::RType, ISA::RV32Q), 0b00100), 0b010), FloatFormat::Quad))
    } else if s == "fmin.q"@ {
        Some(wff(w3(w5(base_desc(Opcode::OpFp, Format::RType, ISA::RV32Q), 0b00101), 0b000), FloatFormat::Quad))
    } else if s == "fmax.q"@ {
        Some(wff(w3(w5(base_desc(Opcode::OpFp, Format::RType, ISA::RV32Q), 0b00101), 0b001), FloatFormat::Quad))
    } else if s == "feq.q"@ {
        Some(wff(w3(w5(base_desc(Opcode::OpFp, Format::RType, ISA::RV32Q), 0b10100), 0b010), FloatFormat::Quad))
    } else if s == "flt.q"@ {
        Some(wff(w3(w5(base_desc(Opcode::OpFp, Format::RType, ISA::RV32Q), 0b10100), 0b001), FloatFormat::Quad))
    } else if s == "fle.q"@ {
        Some(wff(w3(w5(base_desc(Opcode::OpFp, Format::RType, ISA::RV32Q), 0b10100), 0b000), FloatFormat::Quad))
    } else if s == "fcvt.w.q"@ {
        Some(wff(wrs2(w5(base_desc(Opcode::OpFp, Format::RType, ISA::RV32Q), 0b11000), 0b00000), FloatFormat::Quad))
    } else if s == "fcvt.wu.q"@ {
        Some(wff(wrs2(w5(base_desc(Opcode::OpFp, Format::RType, ISA::RV32Q), 0b11000), 0b00001), FloatFormat::Quad))
    } else if s == "fcvt.q.w"@ {
        Some(wff(wrs2(w5(base_desc(Opcode::OpFp, Format::RType, ISA::RV32Q), 0b11010), 0b00000), FloatFormat::Quad))
    } else if s == "fcvt.q.wu"@ {
        Some(wff(wrs2(w5(base_desc(Opcode::OpFp, Format::RType, ISA::RV32Q), 0b11010), 0b00001), FloatFormat::Quad))
    } else if s == "fcvt.s.q"@ {
        Some(wff(wrs2(w5(base_desc(Opcode::OpFp, Format::RType, ISA::RV32Q), 0b01000), 0b00000), FloatFormat::Single))
    } else if s == "fcvt.q.s"@ {
        Some(wff(wrs2(w5(base_desc(Opcode::OpFp, Format::RType, ISA::RV32Q), 0b01000), 0b00000), FloatFormat::Quad))
    } else if s == "fcvt.d.q"@ {
        Some(wff(wrs2(w5(base_desc(Opcode::OpFp, Format::RType, ISA::RV32Q), 0b01000), 0b00000), FloatFormat::Double))
    } else if s == "fcvt.q.d"@ {
        Some(wff(wrs2(w5(base_desc(Opcode::OpFp, Format::RType, ISA::RV32Q), 0b01000), 0b00000), FloatFormat::Quad))
    } else if s == "fclass.q"@ {
        Some(wff(w3(wrs2(w5(base_desc(Opcode::OpFp, Format::RType, ISA::RV32Q), 0b11100), 0b00000), 0b001), FloatFormat::Quad))
    } else if s == "fcvt.l.q"@ {
        Some(wff(wrs2(w5(base_desc(Opcode::OpFp, Format::RType, ISA::RV64Q), 0b11000), 0b00010), FloatFormat::Quad))
    } else if s == "fcvt.lu.q"@ {
        Some(wff(wrs2(w5(base_desc(Opcode::OpFp, Format::RType, ISA::RV64Q), 0b11000), 0b00011), FloatFormat::Quad))
    } else if s == "fcvt.q.l"@ {
        Some(wff(wrs2(w5(base_desc(Opcode::OpFp, Format::RType, ISA::RV64Q), 0b11010), 0b00010), FloatFormat::Quad))
    } else if s == "fcvt.q.lu"@ {
        Some(wff(wrs2(w5(base_desc(Opcode::OpFp, Format::RType, ISA::RV64Q), 0b11010), 0b00011), FloatFormat::Quad))
    } else if s == "fmv.x.q"@ {
        Some(wff(w3(wrs2(w5(base_desc(Opcode::OpFp, Format::RType, ISA::RV128Q), 0b11100), 0b00000), 0b000), FloatFormat::Quad))
    } else if s == "fmv.q.x"@ {
        Some(wff(w3(wrs2(w5(base_desc(Opcode::OpFp, Format::RType, ISA::RV128Q), 0b11110), 0b00000), 0b000), FloatFormat::Quad))
    } else if s == "fcvt.t.q"@ {
        Some(wff(wrs2(w5(base_desc(Opcode::OpFp, Format::RType, ISA::RV128Q), 0b11000), 0b00100), FloatFormat::Quad))
    } else if s == "fcvt.tu.q"@ {
        Some(wff(wrs2(w5(base_desc(Opcode::OpFp, Format::RType, ISA::RV128Q), 0b11000), 0b00101), FloatFormat::Quad))
    } else if s == "fcvt.q.t"@ {
        Some(wff(wrs2(w5(base_desc(Opcode::OpFp, Format::RType, ISA::RV128Q), 0b11010), 0b00100), FloatFormat::Quad))
    } else if s == "fcvt.q.tu"@ {
        Some(wff(wrs2(w5(base_desc(Opcode::OpFp, Format::RType, ISA::RV128Q), 0b11010), 0b00101), FloatFormat::Quad))
    } else {
        None
    }
}

fn isa_q_ext(m: &str) -> (r: Option<Instruction>)
    ensures
        r == spec_isa_q_ext(m@),
{
    if str_eq(m, "flq") {
        Some(Instruction::new(Opcode::LoadFp, Format::IType, ISA::RV32Q).with_funct3(float_width_bits(FloatWidth::Quad)))
    } else if str_eq(m, "fsq") {
        Some(Instruction::new(Opcode::StoreFp, Format::SType, ISA::RV32Q).with_funct3(float_width_bits(FloatWidth::Quad)))
    } else if str_eq(m, "fmadd.q") {
        Some(Instruction::new(Opcode::MAdd, Format::R4Type, ISA::RV32Q).with_float_format(FloatFormat::Quad))
    } else if str_eq(m, "fmsub.q") {
        Some(Instruction::new(Opcode::MSub, Format::R4Type, ISA::RV32Q).with_float_format(FloatFormat::Quad))
    } else if str_eq(m, "fnmadd.q") {
        Some(Instruction::new(Opcode::NmAdd, Format::R4Type, ISA::RV32Q).with_float_format(FloatFormat::Quad))
    } else if str_eq(m, "fnmsub.q") {
        Some(Instruction::new(Opcode::NmSub, Format::R4Type, ISA::RV32Q).with_float_format(FloatFormat::Quad))
    } else if str_eq(m, "fadd.q") {
        Some(Instruction::new(Opcode::OpFp, Format::RType, ISA::RV32Q).with_funct5(0b00000).with_float_format(FloatFormat::Quad))
    } else if str_eq(m, "fsub.q") {
        Some(Instruction::new(Opcode::OpFp, Format::RType, ISA::RV32Q).with_funct5(0b00001).with_float_format(FloatFormat::Quad))
    } else if str_eq(m, "fmul.q") {
        Some(Instruction::new(Opcode::OpFp, Format::RType, ISA::RV32Q).with_funct5(0b00010).with_float_format(FloatFormat::Quad))
    } else if str_eq(m, "fdiv.q") {
        Some(Instruction::new(Opcode::OpFp, Format::RType, ISA::RV32Q).with_funct5(0b00011).with_float_format(FloatFormat::Quad))
    } else if str_eq(m, "fsqrt.q") {
        Some(Instruction::new(Opcode::OpFp, Format::RType, ISA::RV32Q).with_funct5(0b01011).with_rs2(0b00000).with_float_format(FloatFormat::Quad))
    } else if str_eq(m, "fsgnj.q") {
        Some(Instruction::new(Opcode::OpFp, Format::RType, ISA::RV32Q).with_funct5(0b00100).with_funct3(0b000).with_float_format(FloatFormat::Quad))
    } else if str_eq(m, "fsgnjn.q") {
        Some(Instruction::new(Opcode::OpFp, Format::RType, ISA::RV32Q).with_funct5(0b00100).with_funct3(0b001).with_float_format(FloatFormat::Quad))
    } else if str_eq(m, "fsgnjx.q") {
        Some(Instruction::new(Opcode::OpFp, Format::RType, ISA::RV32Q).with_funct5(0b00100).with_funct3(0b010).with_float_format(FloatFormat::Quad))
    } else if str_eq(m, "fmin.q") {
        Some(Instruction::new(Opcode::OpFp, Format::RType, ISA::RV32Q).with_funct5(0b00101).with_funct3(0b000).with_float_format(FloatFormat::Quad))
    } else if str_eq(m, "fmax.q") {
        Some(Instruction::new(Opcode::OpFp, Format::RType, ISA::RV32Q).with_funct5(0b00101).with_funct3(0b001).with_float_format(FloatFormat::Quad))
    } else if str_eq(m, "feq.q") {
        Some(Instruction::new(Opcode::OpFp, Format::RType, ISA::RV32Q).with_funct5(0b10100).with_funct3(0b010).with_float_format(FloatFormat::Quad))
    } else if str_eq(m, "flt.q") {
        Some(Instruction::new(Opcode::OpFp, Format::RType, ISA::RV32Q).with_funct5(0b10100).with_funct3(0b001).with_float_format(FloatFormat::Quad))
    } else if str_eq(m, "fle.q") {
        Some(Instruction::new(Opcode::OpFp, Format::RType, ISA::RV32Q).with_funct5(0b10100).with_funct3(0b000).with_float_format(FloatFormat::Quad))
    } else if str_eq(m, "fcvt.w.q") {
        Some(Instruction::new(Opcode::OpFp, Format::RType, ISA::RV32Q).with_funct5(0b11000).with_rs2(0b00000).with_float_format(FloatFormat::Quad))
    } else if str_eq(m, "fcvt.wu.q") {
        Some(Instruction::new(Opcode::OpFp, Format::RType, ISA::RV32Q).with_funct5(0b11000).with_rs2(0b00001).with_float_format(FloatFormat::Quad))
    } else if str_eq(m, "fcvt.q.w") {
        Some(Instruction::new(Opcode::OpFp, Format::RType, ISA::RV32Q).with_funct5(0b11010).with_rs2(0b00000).with_float_format(FloatFormat::Quad))
    } else if str_eq(m, "fcvt.q.wu") {
        Some(Instruction::new(Opcode::OpFp, Format::RType, ISA::RV32Q).with_funct5(0b11010).with_rs2(0b00001).with_float_format(FloatFormat::Quad))
    } else if str_eq(m, "fcvt.s.q") {
        Some(Instruction::new(Opcode::OpFp, Format::RType, ISA::RV32Q).with_funct5(0b01000).with_rs2(0b00000).with_float_format(FloatFormat::Single))
    } else if str_eq(m, "fcvt.q.s") {
        Some(Instruction::new(Opcode::OpFp, Format::RType, ISA::RV32Q).with_funct5(0b01000).with_rs2(0b00000).with_float_format(FloatFormat::Quad))
    } else if str_eq(m, "fcvt.d.q") {
        Some(Instruction::new(Opcode::OpFp, Format::RType, ISA::RV32Q).with_funct5(0b01000).with_rs2(0b00000).with_float_format(FloatFormat::Double))
    } else if str_eq(m, "fcvt.q.d") {
        Some(Instruction::new(Opcode::OpFp, Format::RType, ISA::RV32Q).with_funct5(0b01000).with_rs2(0b00000).with_float_format(FloatFormat::Quad))
    } else if str_eq(m, "fclass.q") {
        Some(Instruction::new(Opcode::OpFp, Format::RType, ISA::RV32Q).with_funct5(0b11100).with_rs2(0b00000).with_funct3(0b001).with_float_format(FloatFormat::Quad))
    } else if str_eq(m, "fcvt.l.q") {
        Some(Instruction::new(Opcode::OpFp, Format::RType, ISA::RV64Q).with_funct5(0b11000).with_rs2(0b00010).with_float_format(FloatFormat::Quad))
    } else if str_eq(m, "fcvt.lu.q") {
        Some(Instruction::new(Opcode::OpFp, Format::RType, ISA::RV64Q).with_funct5(0b11000).with_rs2(0b00011).with_float_format(FloatFormat::Quad))
    } else if str_eq(m, "fcvt.q.l") {
        Some(Instruction::new(Opcode::OpFp, Format::RType, ISA::RV64Q).with_funct5(0b11010).with_rs2(0b00010).with_float_format(FloatFormat::Quad))
    } else if str_eq(m, "fcvt.q.lu") {
        Some(Instruction::new(Opcode::OpFp, Format::RType, ISA::RV64Q).with_funct5(0b11010).with_rs2(0b00011).with_float_format(FloatFormat::Quad))
    } else if str_eq(m, "fmv.x.q") {
        Some(Instruction::new(Opcode::OpFp, Format::RType, ISA::RV128Q).with_funct5(0b11100).with_rs2(0b00000).with_funct3(0b000).with_float_format(FloatFormat::Quad))
    } else if str_eq(m, "fmv.q.x") {
        Some(Instruction::new(Opcode::OpFp, Format::RType, ISA::RV128Q).with_funct5(0b11110).with_rs2(0b00000).with_funct3(0b000).with_float_format(FloatFormat::Quad))
    } else if str_eq(m, "fcvt.t.q") {
        Some(Instruction::new(Opcode::OpFp, Format::RType, ISA::RV128Q).with_funct5(0b11000).with_rs2(0b00100).with_float_format(FloatFormat::Quad))
    } else if str_eq(m, "fcvt.tu.q") {
        Some(Instruction::new(Opcode::OpFp, Format::RType, ISA::RV128Q).with_funct5(0b11000).with_rs2(0b00101).with_float_format(FloatFormat::Quad))
    } else if str_eq(m, "fcvt.q.t") {
        Some(Instruction::new(Opcode::OpFp, Format::RType, ISA::RV128Q).with_funct5(0b11010).with_rs2(0b00100).with_float_format(FloatFormat::Quad))
    } else if str_eq(m, "fcvt.q.tu") {
        Some(Instruction::new(Opcode::OpFp, Format::RType, ISA::RV128Q).with_funct5(0b11010).with_rs2(0b00101).with_float_format(FloatFormat::Quad))
    } else {
        None
    }
}

/// ABI alias names mapped to their canonical register bank and index.
pub open spec fn spec_conventional_to_abi(s: Seq<char>) -> Option<(char, u32)> {
    if s == "zero"@ {
        Some(('x', 0))
    } else if s == "ra"@ {
        Some(('x', 1))
    } else if s == "sp"@ {
        Some(('x', 2))
    } else if s == "gp"@ {
        Some(('x', 3))
    } else if s == "tp"@ {
        Some(('x', 4))
    } else if s == "t0"@ {
        Some(('x', 5))
    } else if s == "t1"@ {
        Some(('x', 6))
    } else if s == "t2"@ {
        Some(('x', 7))
    } else if s == "s0"@ {
        Some(('x', 8))
    } else if s == "s1"@ {
        Some(('x', 9))
    } else if s == "a0"@ {
        Some(('x', 10))
    } else if s == "a1"@ {
        Some(('x', 11))
    } else if s == "a2"@ {
        Some(('x', 12))
    } else if s == "a3"@ {
        Some(('x', 13))
    } else if s == "a4"@ {
        Some(('x', 14))
    } else if s == "a5"@ {
        Some(('x', 15))
    } else if s == "a6"@ {
        Some(('x', 16))
    } else if s == "a7"@ {
        Some(('x', 17))
    } else if s == "s2"@ {
        Some(('x', 18))
    } else if s == "s3"@ {
        Some(('x', 19))
    } else if s == "s4"@ {
        Some(('x', 20))
    } else if s == "s5"@ {
        Some(('x', 21))
    } else if s == "s6"@ {
        Some(('x', 22))
    } else if s == "s7"@ {
        Some(('x', 23))
    } else if s == "s8"@ {
        Some(('x', 24))
    } else if s == "s9"@ {
        Some(('x', 25))
    } else if s == "s10"@ {
        Some(('x', 26))
    } else if s == "s11"@ {
        Some(('x', 27))
    } else if s == "t3"@ {
        Some(('x', 28))
    } else if s == "t4"@ {
        Some(('x', 29))
    } else if s == "t5"@ {
        Some(('x', 30))
    } else if s == "t6"@ {
        Some(('x', 31))
    } else if s == "fp"@ {
        Some(('x', 8))
    } else if s == "ft0"@ {
        Some(('f', 0))
    } else if s == "ft1"@ {
        Some(('f', 1))
    } else if s == "ft2"@ {
        Some(('f', 2))
    } else if s == "ft3"@ {
        Some(('f', 3))
    } else if s == "ft4"@ {
        Some(('f', 4))
    } else if s == "ft5"@ {
        Some(('f', 5))
    } else if s == "ft6"@ {
        Some(('f', 6))
    } else if s == "ft7"@ {
        Some(('f', 7))
    } else if s == "fs0"@ {
        Some(('f', 8))
    } else if s == "fs1"@ {
        Some(('f', 9))
    } else if s == "fa0"@ {
        Some(('f', 10))
    } else if s == "fa1"@ {
        Some(('f', 11))
    } else if s == "fa2"@ {
        Some(('f', 12))
    } else if s == "fa3"@ {
        Some(('f', 13))
    } else if s == "fa4"@ {
        Some(('f', 14))
    } else if s == "fa5"@ {
        Some(('f', 15))
    } else if s == "fa6"@ {
        Some(('f', 16))
    } else if s == "fa7"@ {
        Some(('f', 17))
    } else if s == "fs2"@ {
        Some(('f', 18))
    } else if s == "fs3"@ {
        Some(('f', 19))
    } else if s == "fs4"@ {
        Some(('f', 20))
    } else if s == "fs5"@ {
        Some(('f', 21))
    } else if s == "fs6"@ {
        Some(('f', 22))
    } else if s == "fs7"@ {
        Some(('f', 23))
    } else if s == "fs8"@ {
        Some(('f', 24))
    } else if s == "fs9"@ {
        Some(('f', 25))
    } else if s == "fs10"@ {
        Some(('f', 26))
    } else if s == "fs11"@ {
        Some(('f', 27))
    } else if s == "ft8"@ {
        Some(('f', 28))
    } else if s == "ft9"@ {
        Some(('f', 29))
    } else if s == "ft10"@ {
        Some(('f', 30))
    } else if s == "ft11"@ {
        Some(('f', 31))
    } else {
        None
    }
}

/// Exec lookup of an ABI alias name.
pub fn conventional_to_abi(m: &str) -> (r: Option<(char, u32)>)
    ensures
        r == spec_conventional_to_abi(m@),
{
    if str_eq(m, "zero") {
        Some(('x', 0))
    } else if str_eq(m, "ra") {
        Some(('x', 1))
    } else if str_eq(m, "sp") {
        Some(('x', 2))
    } else if str_eq(m, "gp") {
        Some(('x', 3))
    } else if str_eq(m, "tp") {
        Some(('x', 4))
    } else if str_eq(m, "t0") {
        Some(('x', 5))
    } else if str_eq(m, "t1") {
        Some(('x', 6))
    } else if str_eq(m, "t2") {
        Some(('x', 7))
    } else if str_eq(m, "s0") {
        Some(('x', 8))
    } else if str_eq(m, "s1") {
        Some(('x', 9))
    } else if str_eq(m, "a0") {
        Some(('x', 10))
    } else if str_eq(m, "a1") {
        Some(('x', 11))
    } else if str_eq(m, "a2") {
        Some(('x', 12))
    } else if str_eq(m, "a3") {
        Some(('x', 13))
    } else if str_eq(m, "a4") {
        Some(('x', 14))
    } else if str_eq(m, "a5") {
        Some(('x', 15))
    } else if str_eq(m, "a6") {
        Some(('x', 16))
    } else if str_eq(m, "a7") {
        Some(('x', 17))
    } else if str_eq(m, "s2") {
        Some(('x', 18))
    } else if str_eq(m, "s3") {
        Some(('x', 19))
    } else if str_eq(m, "s4") {
        Some(('x', 20))
    } else if str_eq(m, "s5") {
        Some(('x', 21))
    } else if str_eq(m, "s6") {
        Some(('x', 22))
    } else if str_eq(m, "s7") {
        Some(('x', 23))
    } else if str_eq(m, "s8") {
        Some(('x', 24))
    } else if str_eq(m, "s9") {
        Some(('x', 25))
    } else if str_eq(m, "s10") {
        Some(('x', 26))
    } else if str_eq(m, "s11") {
        Some(('x', 27))
    } else if str_eq(m, "t3") {
        Some(('x', 28))
    } else if str_eq(m, "t4") {
        Some(('x', 29))
    } else if str_eq(m, "t5") {
        Some(('x', 30))
    } else if str_eq(m, "t6") {
        Some(('x', 31))
    } else if str_eq(m, "fp") {
        Some(('x', 8))
    } else if str_eq(m, "ft0") {
        Some(('f', 0))
    } else if str_eq(m, "ft1") {
        Some(('f', 1))
    } else if str_eq(m, "ft2") {
        Some(('f', 2))
    } else if str_eq(m, "ft3") {
        Some(('f', 3))
    } else if str_eq(m, "ft4") {
        Some(('f', 4))
    } else if str_eq(m, "ft5") {
        Some(('f', 5))
    } else if str_eq(m, "ft6") {
        Some(('f', 6))
    } else if str_eq(m, "ft7") {
        Some(('f', 7))
    } else if str_eq(m, "fs0") {
        Some(('f', 8))
    } else if str_eq(m, "fs1") {
        Some(('f', 9))
    } else if str_eq(m, "fa0") {
        Some(('f', 10))
    } else if str_eq(m, "fa1") {
        Some(('f', 11))
    } else if str_eq(m, "fa2") {
        Some(('f', 12))
    } else if str_eq(m, "fa3") {
        Some(('f', 13))
    } else if str_eq(m, "fa4") {
        Some(('f', 14))
    } else if str_eq(m, "fa5") {
        Some(('f', 15))
    } else if str_eq(m, "fa6") {
        Some(('f', 16))
    } else if str_eq(m, "fa7") {
        Some(('f', 17))
    } else if str_eq(m, "fs2") {
        Some(('f', 18))
    } else if str_eq(m, "fs3") {
        Some(('f', 19))
    } else if str_eq(m, "fs4") {
        Some(('f', 20))
    } else if str_eq(m, "fs5") {
        Some(('f', 21))
    } else if str_eq(m, "fs6") {
        Some(('f', 22))
    } else if str_eq(m, "fs7") {
        Some(('f', 23))
    } else if str_eq(m, "fs8") {
        Some(('f', 24))
    } else if str_eq(m, "fs9") {
        Some(('f', 25))
    } else if str_eq(m, "fs10") {
        Some(('f', 26))
    } else if str_eq(m, "fs11") {
        Some(('f', 27))
    } else if str_eq(m, "ft8") {
        Some(('f', 28))
    } else if str_eq(m, "ft9") {
        Some(('f', 29))
    } else if str_eq(m, "ft10") {
        Some(('f', 30))
    } else if str_eq(m, "ft11") {
        Some(('f', 31))
    } else {
        None
    }
}

} // verus!

use aem::codec::enc::{Encoder, EncoderErr, Xlen};
use aem::lexer::{Operand, RValue};

fn reg(i: u32) -> Operand {
    Operand::RValue(RValue::Register('x', i))
}

fn imm(v: i64) -> Operand {
    Operand::RValue(RValue::Immediate(v))
}

// The encoded word keeps the opcode in its low seven bits and the
// register indexes in their five-bit fields.
#[test]
fn field_extraction() {
    let e = Encoder::new(&"mul".to_string(), &vec![reg(0), reg(1), reg(2)]).expect("encodes");
    assert_eq!(e.binary, 0x02208033);
    assert_eq!(e.binary & 0x7f, 0x33); // opcode
    assert_eq!((e.binary >> 7) & 0x1f, 0); // rd
    assert_eq!((e.binary >> 15) & 0x1f, 1); // rs1
    assert_eq!((e.binary >> 20) & 0x1f, 2); // rs2
    assert_eq!((e.binary >> 12) & 0x7, 0); // funct3
    assert_eq!((e.binary >> 25) & 0x7f, 1); // funct7
}

// Shift amounts are checked against the target's width.
#[test]
fn shamt_bounds() {
    let m = "slli".to_string();
    let ops = vec![reg(1), reg(2), imm(32)];
    match Encoder::with_xlen(&m, &ops, Xlen::Rv32) {
        Err(EncoderErr::Operands(msg)) => {
            assert_eq!(msg, "Invalid shamt field (out of range): \"32\"")
        },
        other => panic!("expected a shamt error, got {:?}", other.map(|e| e.binary)),
    }
    let ok = Encoder::with_xlen(&m, &ops, Xlen::Rv64).expect("fits six bits");
    assert_eq!((ok.binary >> 20) & 0x7f, 32);
    match Encoder::with_xlen(&m, &vec![reg(1), reg(2), imm(64)], Xlen::Rv64) {
        Err(EncoderErr::Operands(msg)) => {
            assert_eq!(msg, "Invalid shamt field (out of range): \"64\"")
        },
        other => panic!("expected a shamt error, got {:?}", other.map(|e| e.binary)),
    }
    match Encoder::with_xlen(&m, &vec![reg(1), reg(2), imm(-1)], Xlen::Rv64) {
        Err(EncoderErr::Operands(msg)) => {
            assert_eq!(msg, "Invalid shamt field (out of range): \"-1\"")
        },
        other => panic!("expected a shamt error, got {:?}", other.map(|e| e.binary)),
    }
    Encoder::with_xlen(&m, &vec![reg(1), reg(2), imm(64)], Xlen::Rv128).expect("fits seven bits");
}

// Stores split their offset across the word.
#[test]
fn store_word() {
    let e = Encoder::new(
        &"sw".to_string(),
        &vec![reg(5), Operand::Address(RValue::Register('x', 2), RValue::Immediate(8))],
    )
    .expect("encodes");
    assert_eq!(e.binary, 0x00512423);
}

// Branch and jump offsets follow their scrambled layouts.
#[test]
fn branch_and_jump_words() {
    let b = Encoder::new(&"beq".to_string(), &vec![reg(1), reg(2), imm(8)]).expect("encodes");
    assert_eq!(b.binary, 0x00208463);
    let j = Encoder::new(&"jal".to_string(), &vec![reg(1), imm(16)]).expect("encodes");
    assert_eq!(j.binary, 0x010000ef);
}

// A symbolic branch target encodes zero and asks for a relocation.
#[test]
fn symbolic_branch() {
    let e = Encoder::new(
        &"beq".to_string(),
        &vec![reg(1), reg(2), Operand::RValue(RValue::Identifier("away".to_string()))],
    )
    .expect("encodes");
    assert!(e.relocation);
    assert_eq!(e.binary, 0x00208063);
}

// An out-of-range load offset is an operand error.
#[test]
fn load_offset_range() {
    let ok = Encoder::new(
        &"lw".to_string(),
        &vec![reg(12), Operand::Address(RValue::Register('x', 2), RValue::Immediate(-8))],
    )
    .expect("encodes");
    assert_eq!(ok.binary, 0xff812603);
    match Encoder::new(
        &"lw".to_string(),
        &vec![reg(12), Operand::Address(RValue::Register('x', 2), RValue::Immediate(4096))],
    ) {
        Err(EncoderErr::Operands(m)) => assert_eq!(m, "Invalid operands."),
        other => panic!("expected an operand error, got {:?}", other.map(|e| e.binary)),
    }
}

// CSR instructions place the address high and select the uimm form by
// the mnemonic.
#[test]
fn csr_words() {
    let r = Encoder::new(&"csrrw".to_string(), &vec![reg(1), imm(0x305), reg(2)])
        .expect("encodes");
    assert_eq!(r.binary, 0x305110f3);
    let i = Encoder::new(&"csrrwi".to_string(), &vec![reg(1), imm(0x305), imm(3)])
        .expect("encodes");
    assert_eq!(i.binary, 0x3051d0f3);
}

// The fused multiply-add family is not yet implemented.
#[test]
fn r4_unsupported() {
    match Encoder::new(&"fmadd.s".to_string(), &vec![reg(1), reg(2), reg(3)]) {
        Err(EncoderErr::Format(m)) => assert_eq!(m, "Unsupported FMA/R4 opcode instruction."),
        other => panic!("expected a format error, got {:?}", other.map(|e| e.binary)),
    }
}

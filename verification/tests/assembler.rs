use aem::arch::isa_lookup;
use aem::assembler::{pseudo_lookup, Assembler, AssemblerErr};
use aem::codec::enc::EncoderErr;
use aem::lexer::{Emittable, Operand, RValue};

fn words_of(binary: &[u8]) -> Vec<u32> {
    binary
        .chunks(4)
        .map(|chunk| {
            let mut bytes = [0u8; 4];
            bytes[..chunk.len()].copy_from_slice(chunk);
            u32::from_le_bytes(bytes)
        })
        .collect()
}

// Expands various types of pseudo-code and generates binary.
#[test]
fn pseudocode_expansion() {
    match Assembler::new(
        r#"
    .macro mult_nop_add x, y, z
        mul x, y, z
        nop
        add x, x, z
        addi x, x, 0xff
        neg x, x
        nop
    .endm
        mult_nop_add x0, x1, x2  
        # result:
        #   mul x0, x1, x2
        #   nop
        #   add x0, x0, x2
        #   addi x0, x0, 0xff
        #   neg x0, x0
        #   nop
        nop"#,
    ) {
        Ok(assembler) => {
            let object = assembler.object;
            let expected_values = [
                0x02208033u32, // mul x0, x1, x2
                0x00000013,    // addi x0, x0, 0
                0x00200033,    // add x0, x0, x2
                0x0ff00013,    // addi x0, x0, 255
                0x40000033,    // sub x0, x0, x0
                0x00000013,    // addi x0, x0, 0
                0x00000013,    // addi x0, x0, 0
            ];

            for (i, value) in words_of(&object.binary).into_iter().enumerate() {
                assert_eq!(value, expected_values[i], "Mismatch at address 0x{:04x}", i * 4);
            }
        },
        Err(asm_err) => {
            panic!("failed {:?}", asm_err)
        },
    }
}

// The golden encodings of the base instructions.
#[test]
fn golden_words() {
    let cases: &[(&str, u32)] = &[
        ("addi x5, x6, 255", 0x0ff30293),
        ("mul x0, x1, x2", 0x02208033),
        ("add x0, x0, x2", 0x00200033),
        ("sub x0, x0, x0", 0x40000033),
        ("addi x0, x0, 0", 0x00000013),
    ];
    for (src, word) in cases {
        let a = Assembler::new(src).expect(src);
        assert_eq!(words_of(&a.object.binary), vec![*word], "{}", src);
    }
}

// A macro named like an ISA or pseudo mnemonic is refused.
#[test]
fn reserved_macro_name() {
    match Assembler::new(".macro add a, b\n.endm") {
        Err(AssemblerErr::Syntax(m)) => assert_eq!(m, "\"add\" is a reserved keyword."),
        other => panic!("expected a syntax error, got {:?}", other.map(|_| ())),
    }
    match Assembler::new(".macro nop\n.endm") {
        Err(AssemblerErr::Syntax(m)) => assert_eq!(m, "\"nop\" is a reserved keyword."),
        other => panic!("expected a syntax error, got {:?}", other.map(|_| ())),
    }
}

// A macro without its end marker is refused.
#[test]
fn unclosed_macro() {
    match Assembler::new(".macro broken a\nnop") {
        Err(AssemblerErr::Syntax(m)) => assert_eq!(m, "\"broken\" expected an end marker."),
        other => panic!("expected a syntax error, got {:?}", other.map(|_| ())),
    }
}

// Wrong arity on a pseudo invocation is refused.
#[test]
fn pseudo_arity() {
    match Assembler::new("mv x1") {
        Err(AssemblerErr::Syntax(m)) => assert_eq!(m, "Expected 2 arguments, found 1."),
        other => panic!("expected a syntax error, got {:?}", other.map(|_| ())),
    }
}

// `li` on a non-immediate operand is refused.
#[test]
fn li_needs_immediate() {
    match Assembler::new("li a0, a1") {
        Err(AssemblerErr::Syntax(m)) => assert_eq!(m, "Expected an immediate operand."),
        other => panic!("expected a syntax error, got {:?}", other.map(|_| ())),
    }
}

// Width dispatch: a small immediate takes one instruction, a 32-bit one
// takes two, a 64-bit one takes five.
#[test]
fn li_width_dispatch() {
    let a16 = Assembler::new("li a0, 0x100").expect("li.16");
    assert_eq!(words_of(&a16.object.binary), vec![0x10000513]); // addi a0, x0, 0x100
    assert_eq!(a16.object.relocations.len(), 0);

    let a32 = Assembler::new("li a0, 0x12345").expect("li.32");
    let w32 = words_of(&a32.object.binary);
    assert_eq!(w32.len(), 2);
    assert_eq!(w32[0] & 0x7f, 0x37); // lui a0, %hi(0x12345)
    assert_eq!(w32[1] & 0x7f, 0x13); // addi a0, a0, %lo(0x12345)
    assert_eq!(a32.object.relocations.len(), 2);
    // The immediate was substituted inside the relocation function.
    assert_eq!(
        a32.object.relocations[0].0,
        Emittable::Instruction(
            "lui".to_string(),
            vec![
                Operand::RValue(RValue::Register('x', 10)),
                Operand::RelocationFn("%hi".to_string(), RValue::Immediate(0x12345))
            ]
        )
    );

    let a64 = Assembler::new("li a0, 0x100000000").expect("li.64");
    let w64 = words_of(&a64.object.binary);
    assert_eq!(w64.len(), 5);
    assert_eq!(w64[2], 0x02051513); // slli a0, a0, 32
    assert_eq!(a64.object.relocations.len(), 4);
}

// A relocation-function operand encodes a zero immediate and records a
// relocation at the word's offset.
#[test]
fn relocation_capture() {
    let a = Assembler::new("nop\nauipc t0, %hi(function_addr)").expect("assembles");
    let words = words_of(&a.object.binary);
    assert_eq!(words[1], 0x00000297); // auipc t0, 0
    assert_eq!(a.object.relocations.len(), 1);
    assert_eq!(a.object.relocations[0].1, 4);
}

// Labels record their byte offsets; duplicates are refused.
#[test]
fn labels_and_symbols() {
    let a = Assembler::new("start:\nnop\nmiddle:\nnop\nnop").expect("assembles");
    assert_eq!(a.object.symbols.len(), 2);
    assert_eq!(a.object.symbols[0].0, "start");
    assert_eq!(a.object.symbols[0].1, 0);
    assert_eq!(a.object.symbols[1], ("middle".to_string(), 4));

    match Assembler::new("a:\nnop\na:") {
        Err(AssemblerErr::Other(m)) => assert_eq!(m, "Duplicate label: \"a\""),
        other => panic!("expected a duplicate-label error, got {:?}", other.map(|_| ())),
    }
}

// Data directives emit little-endian bytes; strings are NUL-terminated.
#[test]
fn data_emission() {
    let a = Assembler::new(".word 1, 0x01020304\n.half -2\n.byte 7\n.string \"ok\"")
        .expect("assembles");
    assert_eq!(
        a.object.binary,
        vec![1, 0, 0, 0, 4, 3, 2, 1, 0xfe, 0xff, 7, b'o', b'k', 0]
    );
}

// An unknown mnemonic is an encoder error naming it.
#[test]
fn unknown_mnemonic() {
    match Assembler::new("frobnicate x1, x2, x3") {
        Err(AssemblerErr::Encoder(EncoderErr::Mnemonic(m))) => {
            assert_eq!(m, "Unsupported instruction mnemonic: \"frobnicate\"")
        },
        other => panic!("expected a mnemonic error, got {:?}", other.map(|_| ())),
    }
}

// Pseudo-instruction names are disjoint from ISA mnemonic names.
#[test]
fn pseudo_names_not_in_isa() {
    for name in ["nop", "mv", "neg", "seqz", "beqz", "bgt", "j", "ret", "li.16", "la.64"] {
        assert!(pseudo_lookup(name).is_some(), "{}", name);
        assert!(isa_lookup(name).is_none(), "{}", name);
    }
    for name in ["add", "addi", "lui", "beq", "jal", "jalr", "sltu", "fsgnj.s"] {
        assert!(isa_lookup(name).is_some(), "{}", name);
        assert!(pseudo_lookup(name).is_none(), "{}", name);
    }
}

// Macro expansion preserves the number of emittable instructions.
#[test]
fn expansion_preserves_count() {
    let a = Assembler::new(".macro three a\nnop\nmv a, x1\nnop\n.endm\nthree x2").expect("ok");
    // The three-instruction body stays three instructions (each one word).
    assert_eq!(words_of(&a.object.binary).len(), 3);
}

use aem::lexer::{Align, Directive, Emittable, Lexer, LexerErr, Operand, RValue, Token};
use aem::mem::SectionFlags;

// Produces various instructions and operand types.
#[test]
fn parse_instructions() {
    const CODE_STR: &'static str = r#"
        # x5 = x6 + 255
        addi x5, x6, 0xff

        lw   a2, -8()        # Produces an expected error.
        lw   a2, -8(sp)      # Load word from memory address pointed by (sp + 8) into a2.
        beq  a0, zero, label # Branch to 'label' if a0 is equal to zero.

        auipc t0, %hi(function_addr)        # Load the upper 20 bits of function_addr into t0.
        jalr  ra, t0, %lo(function_addr)    # Jump to the function using the lower 12 bits of function_addr.

        ret
    "#;

    match Lexer::new(CODE_STR) {
        Ok(lexer) => {
            let tokens = lexer.tokens;
            // addi x5, x6, 0xff
            assert_eq!(
                tokens[0],
                Token::Emittable(Emittable::Instruction(
                    "addi".into(),
                    vec![
                        RValue::Register('x', 5).into(),
                        RValue::Register('x', 6).into(),
                        RValue::Immediate(255).into()
                    ]
                ))
            );

            // lw   a2, -8(sp)
            assert_eq!(
                tokens[1],
                Token::Emittable(Emittable::Instruction(
                    "lw".into(),
                    vec![
                        RValue::Register('x', 12).into(),
                        Operand::Address(RValue::Register('x', 2), RValue::Immediate(-8))
                    ]
                ))
            );

            // beq  a0, zero, label
            assert_eq!(
                tokens[2],
                Token::Emittable(Emittable::Instruction(
                    "beq".into(),
                    vec![
                        RValue::Register('x', 10).into(),
                        RValue::Register('x', 0).into(),
                        RValue::Identifier("label".into()).into()
                    ]
                ))
            );

            //  auipc t0, %hi(function_addr)
            assert_eq!(
                tokens[3],
                Token::Emittable(Emittable::Instruction(
                    "auipc".into(),
                    vec![
                        RValue::Register('x', 5).into(),
                        Operand::RelocationFn("%hi".into(), RValue::Identifier("function_addr".into()))
                    ]
                ))
            );

            // jalr  ra, t0, %lo(function_addr)
            assert_eq!(
                tokens[4],
                Token::Emittable(Emittable::Instruction(
                    "jalr".into(),
                    vec![
                        RValue::Register('x', 1).into(),
                        RValue::Register('x', 5).into(),
                        Operand::RelocationFn("%lo".into(), RValue::Identifier("function_addr".into()))
                    ]
                ))
            );

            // ret
            assert_eq!(
                tokens[5],
                Token::Emittable(Emittable::Instruction("ret".into(), vec![]))
            );
        },
        Err(lexer_err) => {
            // Propagate error produced by
            match lexer_err {
                LexerErr::Syntax(ref message) => {
                    // Produced by incomplete relocation function at "lw   a2, -8()".
                    assert!(message.contains(r#"Unexpected instruction operand: -8()"#))
                },
                LexerErr::Parsing(ref message) => {
                    panic!(r#"Error while parsing: "{}""#, message)
                },
            }
        },
    }
}

#[test]
fn parse_directives() {
    const CODE_STR: &'static str = r#" # alignment directives
                .p2align 0x4, 0xff, 0
                .align 4
            .rodata     # rodata section
                .macro macro zval
                    .byte 0x08, 0x7f, 126, 125, 0, -125, -126
                    .half 0x7fff, 0x7ffe, 32763, 32764,  -32763, -32764, zval
                    .word 0x7fffffff, 0x7fffffe, 2147483645, 2147483644, -2147483644, -2147483645, zval
                    .dword 0x7fffffffffffffff, 0x7ffffffffffffffe, 9223372036854775805, 9223372036854775804, -9223372036854775804, -9223372036854775805, zval
                    .string "hello world!"
                .endm
                macro 0x001be64a
            .bss
                .zero 24
            .text
                
            "#;

    match Lexer::new(CODE_STR) {
        Ok(lexer) => {
            let tokens = lexer.tokens;
            // .p2align 0x4, 0xff, 0
            assert_eq!(tokens[0], Token::Directive(Align::AsPow(4, 0xff, 0).into()));

            // .align 4
            assert_eq!(tokens[1], Token::Directive(Align::AsPow(4, 0, 0).into()));

            // .rodata
            assert_eq!(
                tokens[2],
                Token::Directive(Directive::Section("rodata".into(), SectionFlags::allocate(), 2))
            );

            // .macro macro zval
            assert_eq!(
                tokens[3],
                Token::Directive(Directive::Macro("macro".into(), vec!["zval".into()]))
            );

            // .byte 0x08, 0x7f, 126, 125, 0, -125, -126
            assert_eq!(
                tokens[4],
                Token::Emittable(Emittable::Byte(vec![
                    RValue::Immediate(0x08),
                    RValue::Immediate(0x7f),
                    RValue::Immediate(126),
                    RValue::Immediate(125),
                    RValue::Immediate(0),
                    RValue::Immediate(-125),
                    RValue::Immediate(-126)
                ]))
            );

            // .half 0x7fff, 0x7ffe, 32763, 32764,  -32763, -32764, zval
            assert_eq!(
                tokens[5],
                Token::Emittable(Emittable::Half(vec![
                    RValue::Immediate(0x7fff),
                    RValue::Immediate(0x7ffe),
                    RValue::Immediate(32763),
                    RValue::Immediate(32764),
                    RValue::Immediate(-32763),
                    RValue::Immediate(-32764),
                    RValue::Identifier("zval".into())
                ]))
            );

            // .word 0x7fffffff, 0x7fffffe, 2147483645, 2147483644, -2147483644, -2147483645, zval
            assert_eq!(
                tokens[6],
                Token::Emittable(Emittable::Word(vec![
                    RValue::Immediate(0x7fffffff),
                    RValue::Immediate(0x7fffffe),
                    RValue::Immediate(2147483645),
                    RValue::Immediate(2147483644),
                    RValue::Immediate(-2147483644),
                    RValue::Immediate(-2147483645),
                    RValue::Identifier("zval".into())
                ]))
            );

            // .dword 0x7fffffffffffffff, 0x7ffffffffffffffe, 9223372036854775805, ...
            assert_eq!(
                tokens[7],
                Token::Emittable(Emittable::Dword(vec![
                    RValue::Immediate(0x7fffffffffffffff),
                    RValue::Immediate(0x7ffffffffffffffe),
                    RValue::Immediate(9223372036854775805),
                    RValue::Immediate(9223372036854775804),
                    RValue::Immediate(-9223372036854775804),
                    RValue::Immediate(-9223372036854775805),
                    RValue::Identifier("zval".into())
                ]))
            );

            // .string "hello world!"
            assert_eq!(
                tokens[8],
                Token::Emittable(Emittable::String("hello world!".into()))
            );

            // .endm
            assert_eq!(tokens[9], Token::Directive(Directive::Marker("endm".into())));

            // macro 0x001be64a
            assert_eq!(
                tokens[10],
                Token::Emittable(Emittable::Instruction(
                    "macro".into(),
                    vec![RValue::Immediate(0x001be64a).into()]
                ))
            );

            // .bss
            assert_eq!(
                tokens[11],
                Token::Directive(Directive::Section("bss".into(), SectionFlags::allocate(), 2))
            );

            // .zero 24
            assert_eq!(
                tokens[12],
                Token::Emittable(Emittable::Byte(vec![RValue::Immediate(0); 24]))
            );
        },
        Err(lex_err) => {
            panic!("failed {:?}", lex_err)
        },
    }
}

// Operand shapes lex into their tagged forms.
#[test]
fn operand_shapes() {
    let lexer = Lexer::new("lw a2, -8(sp)").expect("lexes");
    assert_eq!(
        lexer.tokens[0],
        Token::Emittable(Emittable::Instruction(
            "lw".into(),
            vec![
                RValue::Register('x', 12).into(),
                Operand::Address(RValue::Register('x', 2), RValue::Immediate(-8))
            ]
        ))
    );
}

// A malformed operand is a syntax error naming the operand.
#[test]
fn bad_operand_is_syntax_error() {
    match Lexer::new("addi x1, x2, %%") {
        Err(LexerErr::Syntax(m)) => assert_eq!(m, "Unexpected instruction operand: %%"),
        other => panic!("expected a syntax error, got {:?}", other.map(|l| l.tokens)),
    }
}

// An unknown directive is a parsing error naming the directive.
#[test]
fn unknown_directive_is_parsing_error() {
    match Lexer::new(".frob") {
        Err(LexerErr::Parsing(m)) => assert_eq!(m, "Unable to match directive: \"frob\""),
        other => panic!("expected a parsing error, got {:?}", other.map(|l| l.tokens)),
    }
    match Lexer::new(".frob 1, 2") {
        Err(LexerErr::Parsing(m)) => assert_eq!(m, "Unable to parse directive: \"frob\""),
        other => panic!("expected a parsing error, got {:?}", other.map(|l| l.tokens)),
    }
}

// Labels split off their line; an equ directive carries its constant.
#[test]
fn labels_and_equ() {
    let lexer = Lexer::new("top: addi x1, x2, 3\n.equ LIMIT, 0x10").expect("lexes");
    assert_eq!(lexer.tokens[0], Token::Label("top".into()));
    assert_eq!(
        lexer.tokens[2],
        Token::Directive(Directive::Equ("LIMIT".into(), RValue::Immediate(16)))
    );
}

// A section directive reads its name and flag letters.
#[test]
fn section_flags_lex() {
    let lexer = Lexer::new(".section .custom, \"awx\"").expect("lexes");
    assert_eq!(
        lexer.tokens[0],
        Token::Directive(Directive::Section(
            "custom".into(),
            SectionFlags::allocate().union(SectionFlags::write()).union(SectionFlags::execute()),
            4
        ))
    );
    match Lexer::new(".section .custom, \"aq\"") {
        Err(LexerErr::Parsing(m)) => assert_eq!(m, "Unexpected section flag identifier: \"q\""),
        other => panic!("expected a parsing error, got {:?}", other.map(|l| l.tokens)),
    }
}

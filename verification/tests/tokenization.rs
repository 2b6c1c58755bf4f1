use aem::tokenizer::{DataType, RelativeSymbol, SectionFlags, Token, Tokenizer};

#[test]
fn section_parsing() {
    let input = ".rodata\n.data\n.text\n.section .custom aw";
    let tokenizer = Tokenizer::<i32>::new_from_string(input);
    match tokenizer {
        Ok(parser) => {
            assert_eq!(
                parser.tokens[0],
                Token::Section("rodata".to_string(), SectionFlags::allocate(), vec![])
            );
            assert_eq!(
                parser.tokens[1],
                Token::Section(
                    "data".to_string(),
                    SectionFlags::allocate().union(SectionFlags::write()),
                    vec![]
                )
            );
            assert_eq!(
                parser.tokens[2],
                Token::Section("text".to_string(), SectionFlags::execute(), vec![])
            );
            assert_eq!(
                parser.tokens[3],
                Token::Section(
                    "custom".to_string(),
                    SectionFlags::allocate().union(SectionFlags::write()),
                    vec![]
                )
            );
        },
        Err(_) => {
            panic!("Failed on tokenizer test 'section_parsing'")
        },
    }
}

#[test]
fn instruction_parsing() {
    let input = ".text\naddi x5, x6, 0xff";
    let tokenizer = Tokenizer::<i32>::new_from_string(input);
    match tokenizer {
        Ok(parser) => {
            assert_eq!(
                parser.tokens[0],
                Token::Section(
                    "text".to_string(),
                    SectionFlags::execute(),
                    vec![Token::Instruction(
                        "addi".to_string(),
                        vec![Token::Register('x', 5), Token::Register('x', 6), Token::Immediate(255)]
                    )]
                )
            );
        },
        Err(_) => panic!("Failed on tokenizer test 'instruction_parsing'!"),
    }
}

#[test]
fn data_parsing() {
    let input = "
    # Some data to parse...
    .rodata # <<< Read only data section.
        # vvv Data label.
        data_label:
            .asciz \"Hello, World!\"
            .word 100 , 0x100,235
    .bss";

    let tokenizer = Tokenizer::<i32>::new_from_string(input);

    match tokenizer {
        Ok(parser) => {
            assert_eq!(
                parser.tokens[0],
                Token::Section(
                    "rodata".to_string(),
                    SectionFlags::allocate(),
                    vec![Token::Label(
                        "data_label".to_string(),
                        vec![
                            Token::Data(DataType::String("\"Hello, World!\"".to_string())),
                            Token::Data(DataType::Word(vec![100, 0x100, 235]))
                        ]
                    )]
                )
            );

            assert_eq!(
                parser.tokens[1],
                Token::Section("bss".to_string(), SectionFlags::allocate(), vec![])
            );
        },
        Err(_) => panic!("Failed on tokenizer test 'data_parsing'!"),
    }
}

// Offsets and symbolic destinations take their tagged forms.
#[test]
fn offset_operands() {
    let input = ".text\nlw x12, -8(x2)\nbeq x1, x2, away";
    let parser = Tokenizer::<i32>::new_from_string(input).expect("tokenizes");
    assert_eq!(
        parser.tokens[0],
        Token::Section(
            "text".to_string(),
            SectionFlags::execute(),
            vec![
                Token::Instruction(
                    "lw".to_string(),
                    vec![
                        Token::Register('x', 12),
                        Token::Offset { base: RelativeSymbol::Register('x', 2), offset: -8 }
                    ]
                ),
                Token::Instruction(
                    "beq".to_string(),
                    vec![
                        Token::Register('x', 1),
                        Token::Register('x', 2),
                        Token::Offset { base: RelativeSymbol::Label("away".to_string()), offset: 0 }
                    ]
                )
            ]
        )
    );
}

// A bad operand reports its message.
#[test]
fn tokenizer_errors() {
    match Tokenizer::<i32>::new_from_string(".text\naddi x1, [") {
        Err(m) => assert_eq!(m, "Unable to parse an instruction operand: \"[\""),
        Ok(_) => panic!("expected an error"),
    }
    match Tokenizer::<i32>::new_from_string(".shrug x") {
        Err(m) => assert_eq!(m, "Unrecognized section directive from line: \".shrug x\""),
        Ok(_) => panic!("expected an error"),
    }
}

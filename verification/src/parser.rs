//! Grouping types for parsed programs: instructions with their register
//! slots, and labels holding either code or constant data.

use vstd::prelude::*;

verus! {

/// How an instruction's immediate operand addresses its value: a plain
/// immediate, or an offset relative to a named symbol.
#[derive(Debug, PartialEq)]
pub enum AddressingMode<T> {
    Immediate(T),
    Relative(String, T),
}

/// Contents of an instruction: the mnemonic and its operand slots.
#[derive(Debug, PartialEq)]
pub struct Instruction<T> {
    pub mnemonic: String,
    pub dest: Option<u8>,
    pub src0: Option<u8>,
    pub src1: Option<u8>,
    pub imm: Option<AddressingMode<T>>,
}

/// Contents of a label: a run of instructions, or constant values.
#[derive(Debug, PartialEq)]
pub enum LabelContents<T> {
    Function(Vec<Instruction<T>>),
    Constant(Vec<T>),
}

/// A named region of the program.
#[derive(Debug, PartialEq)]
pub struct Label<T> {
    content: LabelContents<T>,
}

impl<T> Label<T> {
    /// The contents, as contracts see them.
    pub closed spec fn spec_contents(self) -> LabelContents<T> {
        self.content
    }

    /// Wraps contents into a label.
    pub fn new(content: LabelContents<T>) -> (r: Self)
        ensures
            r.spec_contents() == content,
    {
        Label { content }
    }

    /// The label's contents.
    pub fn contents(&self) -> (r: &LabelContents<T>)
        ensures
            *r == self.spec_contents(),
    {
        &self.content
    }
}

/// Parsed labels, e.g. constants or functions with directives.
#[derive(Debug, PartialEq)]
pub struct Parser<T> {
    pub labels: Vec<Label<T>>,
}

} // verus!

//! A RISC-V assembler: lexes assembly source into a token stream, expands
//! user macros and pseudo-instructions, and encodes 32-bit RISC-V words
//! into a relocatable object image with a symbol table and relocations.

// Shared parsing and string helpers.
pub mod util;

// Memory/section utility.
pub mod mem;

// RISC-V ISA tables and encoding descriptors.
pub mod arch;

// Lexical analysis of RISC-V assembly.
pub mod lexer;

// RISC-V ISA encoding.
pub mod codec;

// Language assembler: macro/pseudo expansion and object assembly.
pub mod assembler;

// Object and symbol-table utilities.
pub mod memory;

// Memory protection bookkeeping.
pub mod mmu;

// Section-level tokenizer.
pub mod tokenizer;

// Numeric parsing with radix detection.
pub mod utility;

// Label/instruction grouping types.
pub mod parser;

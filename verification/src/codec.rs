//! RISC-V ISA encoding.

pub mod enc;

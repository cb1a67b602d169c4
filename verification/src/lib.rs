//! A small instruction-set toolkit: field packing for 32-bit instruction
//! words, two instruction sets built on it, and the operand grammar of the
//! assembler.
pub mod codec;
pub mod isa;
pub mod vm;
pub mod token;
pub mod grammar;

//! The byte-field instruction set: registers in 8-bit fields and unsigned
//! immediates of 8 and 16 bits.
pub mod register;
pub mod operand;
pub mod instruction;

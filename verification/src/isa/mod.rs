//! The five-bit instruction set: 32 registers in 5-bit fields and signed
//! immediates of 14 and 19 bits.
pub mod register;
pub mod operand;
pub mod instruction;

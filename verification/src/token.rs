//! The tokens that the assembler's lexer hands to the grammar.
use vstd::prelude::*;
use crate::isa::instruction::Mnemonic;
use crate::isa::register::Register;

verus! {

/// What an identifier turned out to be.
#[derive(Debug, Clone, Copy, PartialEq, Eq, Structural)]
pub enum IdentifierType {
    /// The name of a register.
    Register(Register),
    /// The name of an instruction.
    Mnemonic(Mnemonic),
    /// Any other name: a symbol that is resolved later.
    Symbol,
}

/// A lexical token of a source line.
#[derive(Debug, Clone, Copy, PartialEq, Eq, Structural)]
pub enum Token {
    Identifier(IdentifierType),
    Label,
    Directive,
    LiteralDecimal,
    LiteralHex,
    LiteralBinary,
    Comma,
    ParenL,
    ParenR,
    Eol,
}

} // verus!

use vm_isa::grammar::{
    line_kind, validate_operands, InstructionRule, LineKind, OperandRuleType, OperandTokenType,
    RuleError,
};
use vm_isa::isa::instruction::{InstructionType, Mnemonic};
use vm_isa::isa::register::Register;
use vm_isa::token::{IdentifierType, Token};

fn reg() -> Token {
    Token::Identifier(IdentifierType::Register(Register::A0))
}

#[test]
fn three_register_list_is_accepted() {
    let tokens = vec![reg(), Token::Comma, reg(), Token::Comma, reg(), Token::Eol];
    for m in [
        Mnemonic::Add,
        Mnemonic::Sub,
        Mnemonic::Mul,
        Mnemonic::And,
        Mnemonic::Or,
        Mnemonic::Xor,
        Mnemonic::Shl,
        Mnemonic::Shr,
        Mnemonic::ShrA,
        Mnemonic::Syscall,
    ] {
        assert_eq!(OperandRuleType::from(m), OperandRuleType::R3);
        assert_eq!(validate_operands(m, &tokens), Ok(()));
        assert_eq!(InstructionRule::new(m).validate(&tokens), Ok(()));
    }
}

#[test]
fn label_in_place_of_third_register_is_refused() {
    let tokens = vec![reg(), Token::Comma, Token::Label];
    assert_eq!(
        validate_operands(Mnemonic::Add, &tokens),
        Err(RuleError::InvalidInstructionSequence(OperandTokenType::Register))
    );
}

#[test]
fn first_mismatch_names_the_expected_category() {
    let rule = InstructionRule::new(Mnemonic::Lw);
    let good = vec![
        reg(),
        Token::Comma,
        Token::LiteralHex,
        Token::ParenL,
        reg(),
        Token::ParenR,
        Token::Eol,
    ];
    assert_eq!(rule.validate(&good), Ok(()));
    let mut bad = good.clone();
    bad[3] = Token::Comma;
    bad[5] = Token::Comma;
    assert_eq!(
        rule.validate(&bad),
        Err(RuleError::InvalidInstructionSequence(OperandTokenType::ParenL))
    );
    assert_eq!(
        rule.validate(&good[..6]),
        Err(RuleError::InvalidInstructionSequence(OperandTokenType::Eol))
    );
    assert_eq!(
        rule.validate(&good[..2]),
        Err(RuleError::InvalidInstructionSequence(OperandTokenType::Immediate))
    );
    assert_eq!(
        rule.validate(&[]),
        Err(RuleError::InvalidInstructionSequence(OperandTokenType::Register))
    );
    let mut no_eol = good.clone();
    no_eol[6] = Token::Comma;
    assert_eq!(
        rule.validate(&no_eol),
        Err(RuleError::InvalidInstructionSequence(OperandTokenType::Eol))
    );
}

#[test]
fn immediates_take_literals_and_symbols() {
    let symbol = Token::Identifier(IdentifierType::Symbol);
    for imm in [Token::LiteralDecimal, Token::LiteralHex, Token::LiteralBinary, symbol] {
        assert!(imm.matches(OperandTokenType::Immediate));
        let tokens = vec![reg(), Token::Comma, imm, Token::Eol];
        assert_eq!(validate_operands(Mnemonic::Lui, &tokens), Ok(()));
        assert_eq!(validate_operands(Mnemonic::Li, &tokens), Ok(()));
    }
    assert!(!symbol.matches(OperandTokenType::Register));
    assert!(!symbol.matches(OperandTokenType::Label));
    assert!(!reg().matches(OperandTokenType::Immediate));
    assert!(!Token::Identifier(IdentifierType::Mnemonic(Mnemonic::Add))
        .matches(OperandTokenType::Register));
    assert!(Token::Label.matches(OperandTokenType::Label));
    assert!(Token::ParenL.matches(OperandTokenType::ParenL));
    assert!(Token::ParenR.matches(OperandTokenType::ParenR));
    assert!(!Token::ParenR.matches(OperandTokenType::ParenL));
    assert!(Token::Eol.matches(OperandTokenType::Eol));
    assert!(!Token::Directive.matches(OperandTokenType::Label));
}

#[test]
fn sequences_of_every_shape() {
    assert_eq!(
        InstructionRule::generate_sequence(OperandRuleType::R3),
        vec![OperandTokenType::Register, OperandTokenType::Comma, OperandTokenType::Register, OperandTokenType::Comma, OperandTokenType::Register]
    );
    assert_eq!(
        InstructionRule::generate_sequence(OperandRuleType::R2I),
        vec![OperandTokenType::Register, OperandTokenType::Comma, OperandTokenType::Register, OperandTokenType::Comma, OperandTokenType::Immediate]
    );
    assert_eq!(
        InstructionRule::generate_sequence(OperandRuleType::R2L),
        vec![OperandTokenType::Register, OperandTokenType::Comma, OperandTokenType::Register, OperandTokenType::Comma, OperandTokenType::Label]
    );
    assert_eq!(
        InstructionRule::generate_sequence(OperandRuleType::RI),
        vec![OperandTokenType::Register, OperandTokenType::Comma, OperandTokenType::Immediate]
    );
    assert_eq!(
        InstructionRule::generate_sequence(OperandRuleType::RIR),
        vec![OperandTokenType::Register, OperandTokenType::Comma, OperandTokenType::Immediate, OperandTokenType::ParenL, OperandTokenType::Register, OperandTokenType::ParenR]
    );
    assert_eq!(
        InstructionRule::generate_sequence(OperandRuleType::RL),
        vec![OperandTokenType::Register, OperandTokenType::Comma, OperandTokenType::Label]
    );
}

#[test]
fn rule_accessors() {
    let rule = InstructionRule::new(Mnemonic::AddI);
    assert_eq!(rule.ty(), OperandRuleType::R2I);
    assert_eq!(rule.len(), 5);
    assert_eq!(rule.get(0), OperandTokenType::Register);
    assert_eq!(rule.get(4), OperandTokenType::Immediate);
    assert_eq!(rule.iter(), InstructionRule::generate_sequence(OperandRuleType::R2I));
    let again = InstructionRule::new(Mnemonic::AddI);
    assert_eq!(again.ty(), rule.ty());
    assert_eq!(again.iter(), rule.iter());
}

#[test]
fn rule_types() {
    assert_eq!(OperandRuleType::default(), OperandRuleType::R2I);
    assert_eq!(OperandRuleType::from(Mnemonic::AddI), OperandRuleType::R2I);
    assert_eq!(OperandRuleType::from(Mnemonic::Lui), OperandRuleType::RI);
    assert_eq!(OperandRuleType::from(Mnemonic::Lw), OperandRuleType::RIR);
    assert_eq!(OperandRuleType::from(Mnemonic::Sw), OperandRuleType::RIR);
    assert_eq!(OperandRuleType::from(InstructionType::Arithmetic), OperandRuleType::R3);
    assert_eq!(OperandRuleType::from(InstructionType::IA), OperandRuleType::R2I);
    assert_eq!(OperandRuleType::from(InstructionType::IJ), OperandRuleType::R2I);
    assert_eq!(OperandRuleType::from(InstructionType::IL), OperandRuleType::RIR);
    assert_eq!(OperandRuleType::from(InstructionType::S), OperandRuleType::RIR);
    assert_eq!(OperandRuleType::from(InstructionType::B), OperandRuleType::R2L);
    assert_eq!(OperandRuleType::from(InstructionType::J), OperandRuleType::RL);
    assert_eq!(OperandRuleType::from(InstructionType::U), OperandRuleType::RI);
}

#[test]
fn line_shapes() {
    assert_eq!(line_kind(&[Token::Directive, Token::Eol]), Ok(LineKind::Directive));
    assert_eq!(
        line_kind(&[Token::Identifier(IdentifierType::Mnemonic(Mnemonic::Sub)), reg()]),
        Ok(LineKind::Instruction(Mnemonic::Sub))
    );
    assert_eq!(line_kind(&[Token::Label]), Ok(LineKind::Label));
    assert_eq!(line_kind(&[reg()]), Err(RuleError::InvalidLabelSequence));
    assert_eq!(line_kind(&[Token::Comma]), Err(RuleError::InvalidLabelSequence));
    assert_eq!(line_kind(&[]), Err(RuleError::InvalidLabelSequence));
}

#[test]
fn names_and_messages() {
    assert_eq!(OperandTokenType::COUNT, 7);
    assert_eq!(OperandTokenType::Register.name(), "register");
    assert_eq!(OperandTokenType::Comma.name(), "comma");
    assert_eq!(OperandTokenType::Label.name(), "label");
    assert_eq!(OperandTokenType::Immediate.name(), "decimal|hex|binary");
    assert_eq!(OperandTokenType::ParenL.name(), "(");
    assert_eq!(OperandTokenType::ParenR.name(), ")");
    assert_eq!(OperandTokenType::Eol.name(), "eol");
    assert_eq!(
        RuleError::InvalidInstructionSequence(OperandTokenType::Immediate).message(),
        "`decimal|hex|binary`"
    );
    assert_eq!(RuleError::InvalidLabelSequence.message(), "directive|instruction|break");
}

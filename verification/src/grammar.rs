//! The operand grammar: which token categories must follow each mnemonic, and
//! the check of a token sequence against them.
use vstd::prelude::*;
use vstd::std_specs::convert::FromSpec;
use vstd::std_specs::convert::FromSpecImpl;
use crate::isa::instruction::InstructionType;
use crate::isa::instruction::Mnemonic;
use crate::token::IdentifierType;
use crate::token::Token;

verus! {

/// The category of token that a position of an operand list asks for.
#[derive(Debug, Clone, Copy, PartialEq, Eq, Structural)]
pub enum OperandTokenType {
    Register,
    Comma,
    Label,
    Immediate,
    ParenL,
    ParenR,
    Eol,
}

/// Why a source line was refused.
#[derive(Debug, Clone, Copy, PartialEq, Eq, Structural)]
pub enum RuleError {
    /// A token of the operand list is not of the category that its position
    /// asks for; the category asked for is given.
    InvalidInstructionSequence(OperandTokenType),
    /// The line begins neither a directive nor an instruction nor a label.
    InvalidLabelSequence,
}

/// The shape of an instruction's operand list.
#[derive(Debug, Clone, Copy, PartialEq, Eq, Structural)]
pub enum OperandRuleType {
    /// Register, register, register.
    R3,
    /// Register, register, immediate.
    R2I,
    /// Register, register, label.
    R2L,
    /// Register, immediate(register).
    RIR,
    /// Register, immediate.
    RI,
    /// Register, label.
    RL,
}

/// What a source line is, by its first token.
#[derive(Debug, Clone, Copy, PartialEq, Eq, Structural)]
pub enum LineKind {
    Directive,
    Instruction(Mnemonic),
    Label,
}

/// The operand rule of one mnemonic: its shape and the token categories that
/// the shape expands to.
#[derive(Debug)]
pub struct InstructionRule {
    ty: OperandRuleType,
    sequence: Vec<OperandTokenType>,
}

impl OperandTokenType {
    /// Number of token categories.
    pub const COUNT: usize = 7;

    /// The category's name in diagnostics.
    pub open spec fn text(self) -> &'static str {
        match self {
            OperandTokenType::Register => "register",
            OperandTokenType::Comma => "comma",
            OperandTokenType::Label => "label",
            OperandTokenType::Immediate => "decimal|hex|binary",
            OperandTokenType::ParenL => "(",
            OperandTokenType::ParenR => ")",
            OperandTokenType::Eol => "eol",
        }
    }

    /// Computes [`OperandTokenType::text`].
    pub fn name(&self) -> (name: &'static str)
        ensures
            name == self.text(),
    {
        match self {
            OperandTokenType::Register => "register",
            OperandTokenType::Comma => "comma",
            OperandTokenType::Label => "label",
            OperandTokenType::Immediate => "decimal|hex|binary",
            OperandTokenType::ParenL => "(",
            OperandTokenType::ParenR => ")",
            OperandTokenType::Eol => "eol",
        }
    }
}

impl RuleError {
    /// The error's message: the category that was expected, between
    /// backticks, or the three things a line can begin.
    pub open spec fn text(self) -> &'static str {
        match self {
            RuleError::InvalidInstructionSequence(OperandTokenType::Register) => "`register`",
            RuleError::InvalidInstructionSequence(OperandTokenType::Comma) => "`comma`",
            RuleError::InvalidInstructionSequence(OperandTokenType::Label) => "`label`",
            RuleError::InvalidInstructionSequence(OperandTokenType::Immediate) => {
                "`decimal|hex|binary`"
            },
            RuleError::InvalidInstructionSequence(OperandTokenType::ParenL) => "`(`",
            RuleError::InvalidInstructionSequence(OperandTokenType::ParenR) => "`)`",
            RuleError::InvalidInstructionSequence(OperandTokenType::Eol) => "`eol`",
            RuleError::InvalidLabelSequence => "directive|instruction|break",
        }
    }

    /// Computes [`RuleError::text`].
    pub fn message(&self) -> (message: &'static str)
        ensures
            message == self.text(),
    {
        match self {
            RuleError::InvalidInstructionSequence(OperandTokenType::Register) => "`register`",
            RuleError::InvalidInstructionSequence(OperandTokenType::Comma) => "`comma`",
            RuleError::InvalidInstructionSequence(OperandTokenType::Label) => "`label`",
            RuleError::InvalidInstructionSequence(OperandTokenType::Immediate) => {
                "`decimal|hex|binary`"
            },
            RuleError::InvalidInstructionSequence(OperandTokenType::ParenL) => "`(`",
            RuleError::InvalidInstructionSequence(OperandTokenType::ParenR) => "`)`",
            RuleError::InvalidInstructionSequence(OperandTokenType::Eol) => "`eol`",
            RuleError::InvalidLabelSequence => "directive|instruction|break",
        }
    }
}

impl Token {
    /// The token is of the category: a register name is a register; a
    /// literal of any base is an immediate, and so is a symbol, which may
    /// name a constant that is defined later; every other token is of the
    /// category of its own name.
    pub open spec fn fits(self, category: OperandTokenType) -> bool {
        match (self, category) {
            (Token::Identifier(IdentifierType::Register(_)), OperandTokenType::Register) => true,
            (Token::Identifier(IdentifierType::Symbol), OperandTokenType::Immediate) => true,
            (Token::Label, OperandTokenType::Label) => true,
            (Token::LiteralDecimal, OperandTokenType::Immediate) => true,
            (Token::LiteralHex, OperandTokenType::Immediate) => true,
            (Token::LiteralBinary, OperandTokenType::Immediate) => true,
            (Token::ParenR, OperandTokenType::ParenR) => true,
            (Token::ParenL, OperandTokenType::ParenL) => true,
            (Token::Comma, OperandTokenType::Comma) => true,
            (Token::Eol, OperandTokenType::Eol) => true,
            _ => false,
        }
    }

    /// Computes [`Token::fits`].
    pub fn matches(&self, category: OperandTokenType) -> (fits: bool)
        ensures
            fits == self.fits(category),
    {
        match (self, category) {
            (Token::Identifier(IdentifierType::Register(_)), OperandTokenType::Register) => true,
            (Token::Identifier(IdentifierType::Symbol), OperandTokenType::Immediate) => true,
            (Token::Label, OperandTokenType::Label) => true,
            (Token::LiteralDecimal, OperandTokenType::Immediate) => true,
            (Token::LiteralHex, OperandTokenType::Immediate) => true,
            (Token::LiteralBinary, OperandTokenType::Immediate) => true,
            (Token::ParenR, OperandTokenType::ParenR) => true,
            (Token::ParenL, OperandTokenType::ParenL) => true,
            (Token::Comma, OperandTokenType::Comma) => true,
            (Token::Eol, OperandTokenType::Eol) => true,
            _ => false,
        }
    }
}

impl Default for OperandRuleType {
    fn default() -> (ty: Self)
        ensures
            ty == OperandRuleType::R2I,
    {
        OperandRuleType::R2I
    }
}

impl From<InstructionType> for OperandRuleType {
    fn from(value: InstructionType) -> (ty: Self) {
        match value {
            InstructionType::Arithmetic => OperandRuleType::R3,
            InstructionType::IA => OperandRuleType::R2I,
            InstructionType::IJ => OperandRuleType::R2I,
            InstructionType::IL => OperandRuleType::RIR,
            InstructionType::S => OperandRuleType::RIR,
            InstructionType::B => OperandRuleType::R2L,
            InstructionType::J => OperandRuleType::RL,
            InstructionType::U => OperandRuleType::RI,
        }
    }
}

impl FromSpecImpl<InstructionType> for OperandRuleType {
    open spec fn obeys_from_spec() -> bool {
        true
    }

    open spec fn from_spec(value: InstructionType) -> Self {
        match value {
            InstructionType::Arithmetic => OperandRuleType::R3,
            InstructionType::IA => OperandRuleType::R2I,
            InstructionType::IJ => OperandRuleType::R2I,
            InstructionType::IL => OperandRuleType::RIR,
            InstructionType::S => OperandRuleType::RIR,
            InstructionType::B => OperandRuleType::R2L,
            InstructionType::J => OperandRuleType::RL,
            InstructionType::U => OperandRuleType::RI,
        }
    }
}

impl From<Mnemonic> for OperandRuleType {
    fn from(value: Mnemonic) -> (ty: Self) {
        match value {
            Mnemonic::Add => OperandRuleType::R3,
            Mnemonic::Sub => OperandRuleType::R3,
            Mnemonic::Mul => OperandRuleType::R3,
            Mnemonic::And => OperandRuleType::R3,
            Mnemonic::Or => OperandRuleType::R3,
            Mnemonic::Xor => OperandRuleType::R3,
            Mnemonic::Shl => OperandRuleType::R3,
            Mnemonic::Shr => OperandRuleType::R3,
            Mnemonic::ShrA => OperandRuleType::R3,
            Mnemonic::AddI => OperandRuleType::R2I,
            Mnemonic::Lui => OperandRuleType::RI,
            Mnemonic::Lw => OperandRuleType::RIR,
            Mnemonic::Sw => OperandRuleType::RIR,
            Mnemonic::Syscall => OperandRuleType::R3,
            Mnemonic::Li => OperandRuleType::RI,
        }
    }
}

impl FromSpecImpl<Mnemonic> for OperandRuleType {
    open spec fn obeys_from_spec() -> bool {
        true
    }

    open spec fn from_spec(value: Mnemonic) -> Self {
        match value {
            Mnemonic::Add => OperandRuleType::R3,
            Mnemonic::Sub => OperandRuleType::R3,
            Mnemonic::Mul => OperandRuleType::R3,
            Mnemonic::And => OperandRuleType::R3,
            Mnemonic::Or => OperandRuleType::R3,
            Mnemonic::Xor => OperandRuleType::R3,
            Mnemonic::Shl => OperandRuleType::R3,
            Mnemonic::Shr => OperandRuleType::R3,
            Mnemonic::ShrA => OperandRuleType::R3,
            Mnemonic::AddI => OperandRuleType::R2I,
            Mnemonic::Lui => OperandRuleType::RI,
            Mnemonic::Lw => OperandRuleType::RIR,
            Mnemonic::Sw => OperandRuleType::RIR,
            Mnemonic::Syscall => OperandRuleType::R3,
            Mnemonic::Li => OperandRuleType::RI,
        }
    }
}

/// The shape of an instruction's operand list, by its mnemonic.
pub open spec fn rule_type_of(mnemonic: Mnemonic) -> OperandRuleType {
    <OperandRuleType as FromSpec<Mnemonic>>::from_spec(mnemonic)
}

/// The token categories that a shape expands to, in order.
pub open spec fn sequence_of(ty: OperandRuleType) -> Seq<OperandTokenType> {
    match ty {
        OperandRuleType::R3 => seq![
            OperandTokenType::Register,
            OperandTokenType::Comma,
            OperandTokenType::Register,
            OperandTokenType::Comma,
            OperandTokenType::Register,
        ],
        OperandRuleType::R2I => seq![
            OperandTokenType::Register,
            OperandTokenType::Comma,
            OperandTokenType::Register,
            OperandTokenType::Comma,
            OperandTokenType::Immediate,
        ],
        OperandRuleType::R2L => seq![
            OperandTokenType::Register,
            OperandTokenType::Comma,
            OperandTokenType::Register,
            OperandTokenType::Comma,
            OperandTokenType::Label,
        ],
        OperandRuleType::RI => seq![
            OperandTokenType::Register,
            OperandTokenType::Comma,
            OperandTokenType::Immediate,
        ],
        OperandRuleType::RIR => seq![
            OperandTokenType::Register,
            OperandTokenType::Comma,
            OperandTokenType::Immediate,
            OperandTokenType::ParenL,
            OperandTokenType::Register,
            OperandTokenType::ParenR,
        ],
        OperandRuleType::RL => seq![
            OperandTokenType::Register,
            OperandTokenType::Comma,
            OperandTokenType::Label,
        ],
    }
}

/// What a whole operand list must look like: the shape's categories, then
/// the end of the line.
pub open spec fn expected_of(ty: OperandRuleType) -> Seq<OperandTokenType> {
    sequence_of(ty).push(OperandTokenType::Eol)
}

/// The outcome of comparing `tokens` with `expected` position by position
/// from position `from` on: the first position whose token is missing or of
/// another category gives the error that names the category expected there.
/// Tokens behind the last expected position are not looked at.
pub open spec fn checked(expected: Seq<OperandTokenType>, tokens: Seq<Token>, from: int) -> Result<
    (),
    RuleError,
>
    decreases expected.len() - from,
{
    if from < 0 || from >= expected.len() {
        Ok(())
    } else if from < tokens.len() && tokens[from].fits(expected[from]) {
        checked(expected, tokens, from + 1)
    } else {
        Err(RuleError::InvalidInstructionSequence(expected[from]))
    }
}

/// Every expected position has a token of its category.
pub open spec fn accepts(expected: Seq<OperandTokenType>, tokens: Seq<Token>) -> bool {
    &&& expected.len() <= tokens.len()
    &&& forall|i: int| 0 <= i < expected.len() ==> (#[trigger] tokens[i]).fits(expected[i])
}

/// Position `at` is the first whose token is missing or of another category.
pub open spec fn first_mismatch(
    expected: Seq<OperandTokenType>,
    tokens: Seq<Token>,
    at: int,
) -> bool {
    &&& 0 <= at < expected.len()
    &&& at <= tokens.len()
    &&& forall|i: int| 0 <= i < at ==> (#[trigger] tokens[i]).fits(expected[i])
    &&& at < tokens.len() ==> !tokens[at].fits(expected[at])
}

/// What a line is, by its first token: a directive, else an instruction, else
/// a label; a line that begins otherwise, or has no token, is refused.
pub open spec fn line_kind_of(tokens: Seq<Token>) -> Result<LineKind, RuleError> {
    if tokens.len() == 0 {
        Err(RuleError::InvalidLabelSequence)
    } else {
        match tokens[0] {
            Token::Directive => Ok(LineKind::Directive),
            Token::Identifier(IdentifierType::Mnemonic(mnemonic)) => Ok(
                LineKind::Instruction(mnemonic),
            ),
            Token::Label => Ok(LineKind::Label),
            _ => Err(RuleError::InvalidLabelSequence),
        }
    }
}

/// Computes [`line_kind_of`].
pub fn line_kind(tokens: &[Token]) -> (kind: Result<LineKind, RuleError>)
    ensures
        kind == line_kind_of(tokens@),
{
    if tokens.len() == 0 {
        Err(RuleError::InvalidLabelSequence)
    } else {
        match tokens[0] {
            Token::Directive => Ok(LineKind::Directive),
            Token::Identifier(IdentifierType::Mnemonic(mnemonic)) => Ok(
                LineKind::Instruction(mnemonic),
            ),
            Token::Label => Ok(LineKind::Label),
            _ => Err(RuleError::InvalidLabelSequence),
        }
    }
}

impl View for InstructionRule {
    type V = Seq<OperandTokenType>;

    closed spec fn view(&self) -> Seq<OperandTokenType> {
        self.sequence@
    }
}

impl InstructionRule {
    /// The rule's shape.
    pub closed spec fn rule_type(&self) -> OperandRuleType {
        self.ty
    }

    /// The rule holds the categories that its shape expands to.
    #[verifier::type_invariant]
    pub closed spec fn wf(self) -> bool {
        self.sequence@ == sequence_of(self.ty)
    }

    /// The rule of a mnemonic. It depends on the mnemonic alone.
    pub fn new(mnemonic: Mnemonic) -> (rule: InstructionRule)
        ensures
            rule.wf(),
            rule.rule_type() == rule_type_of(mnemonic),
            rule@ == sequence_of(rule_type_of(mnemonic)),
    {
        let ty = OperandRuleType::from(mnemonic);
        InstructionRule { ty, sequence: Self::generate_sequence(ty) }
    }

    /// The rule's shape.
    pub fn ty(&self) -> (ty: OperandRuleType)
        ensures
            ty == self.rule_type(),
    {
        self.ty
    }

    /// The category at a position of the rule.
    pub fn get(&self, index: usize) -> (category: OperandTokenType)
        requires
            index < self@.len(),
        ensures
            category == self@[index as int],
    {
        self.sequence[index]
    }

    /// The number of positions of the rule.
    pub fn len(&self) -> (len: usize)
        ensures
            len == self@.len(),
            self@ == sequence_of(self.rule_type()),
    {
        proof {
            use_type_invariant(self);
        }
        self.sequence.len()
    }

    /// The rule's categories, in order.
    pub fn iter(&self) -> (categories: Vec<OperandTokenType>)
        ensures
            categories@ == self@,
            self@ == sequence_of(self.rule_type()),
    {
        proof {
            use_type_invariant(self);
        }
        let mut categories: Vec<OperandTokenType> = Vec::new();
        let mut i: usize = 0;
        while i < self.sequence.len()
            invariant
                i <= self.sequence.len(),
                categories@ == self.sequence@.take(i as int),
            decreases self.sequence.len() - i,
        {
            categories.push(self.sequence[i]);
            i = i + 1;
            assert(categories@ =~= self.sequence@.take(i as int));
        }
        assert(categories@ =~= self.sequence@);
        categories
    }

    /// Expands a shape to its token categories.
    pub fn generate_sequence(ty: OperandRuleType) -> (sequence: Vec<OperandTokenType>)
        ensures
            sequence@ == sequence_of(ty),
    {
        let mut sequence: Vec<OperandTokenType> = Vec::new();
        sequence.push(OperandTokenType::Register);
        sequence.push(OperandTokenType::Comma);
        match ty {
            OperandRuleType::R3 => {
                sequence.push(OperandTokenType::Register);
                sequence.push(OperandTokenType::Comma);
                sequence.push(OperandTokenType::Register);
            },
            OperandRuleType::R2I => {
                sequence.push(OperandTokenType::Register);
                sequence.push(OperandTokenType::Comma);
                sequence.push(OperandTokenType::Immediate);
            },
            OperandRuleType::R2L => {
                sequence.push(OperandTokenType::Register);
                sequence.push(OperandTokenType::Comma);
                sequence.push(OperandTokenType::Label);
            },
            OperandRuleType::RI => {
                sequence.push(OperandTokenType::Immediate);
            },
            OperandRuleType::RIR => {
                sequence.push(OperandTokenType::Immediate);
                sequence.push(OperandTokenType::ParenL);
                sequence.push(OperandTokenType::Register);
                sequence.push(OperandTokenType::ParenR);
            },
            OperandRuleType::RL => {
                sequence.push(OperandTokenType::Label);
            },
        }
        assert(sequence@ =~= sequence_of(ty));
        sequence
    }

    /// Checks an operand list against the rule, position by position, and
    /// then for the end of the line. The first token that is missing or of
    /// another category ends the check with the category expected there.
    pub fn validate(&self, tokens: &[Token]) -> (outcome: Result<(), RuleError>)
        ensures
            outcome == checked(expected_of(self.rule_type()), tokens@, 0),
            outcome is Ok <==> accepts(expected_of(self.rule_type()), tokens@),
    {
        proof {
            use_type_invariant(self);
        }
        let ghost expected = expected_of(self.ty);
        let n = self.sequence.len();
        let mut i: usize = 0;
        while i < n
            invariant
                n == self.sequence@.len(),
                i <= n,
                expected == self.sequence@.push(OperandTokenType::Eol),
                expected == expected_of(self.rule_type()),
                i <= tokens@.len(),
                forall|j: int| 0 <= j < i ==> (#[trigger] tokens@[j]).fits(expected[j]),
            decreases n - i,
        {
            let category = self.sequence[i];
            if i >= tokens.len() || !tokens[i].matches(category) {
                proof {
                    lemma_checked_at_mismatch(expected, tokens@, i as int);
                }
                return Err(RuleError::InvalidInstructionSequence(category));
            }
            i = i + 1;
        }
        assert(expected[n as int] == OperandTokenType::Eol);
        if n >= tokens.len() || !tokens[n].matches(OperandTokenType::Eol) {
            proof {
                lemma_checked_at_mismatch(expected, tokens@, n as int);
            }
            Err(RuleError::InvalidInstructionSequence(OperandTokenType::Eol))
        } else {
            proof {
                assert(accepts(expected, tokens@));
                lemma_checked_accepts(expected, tokens@);
            }
            Ok(())
        }
    }
}

/// Checks the operand list of an instruction against the rule of its
/// mnemonic.
pub fn validate_operands(mnemonic: Mnemonic, tokens: &[Token]) -> (outcome: Result<(), RuleError>)
    ensures
        outcome == checked(expected_of(rule_type_of(mnemonic)), tokens@, 0),
        outcome is Ok <==> accepts(expected_of(rule_type_of(mnemonic)), tokens@),
{
    let rule = InstructionRule::new(mnemonic);
    rule.validate(tokens)
}

/// A check that has reached a position goes on as the check from the start.
proof fn lemma_checked_prefix(expected: Seq<OperandTokenType>, tokens: Seq<Token>, at: int)
    requires
        0 <= at <= expected.len(),
        at <= tokens.len(),
        forall|i: int| 0 <= i < at ==> (#[trigger] tokens[i]).fits(expected[i]),
    ensures
        checked(expected, tokens, 0) == checked(expected, tokens, at),
    decreases at,
{
    if at > 0 {
        lemma_checked_prefix(expected, tokens, at - 1);
    }
}

/// The check fails at the first mismatch, with the category expected there.
pub proof fn lemma_checked_at_mismatch(
    expected: Seq<OperandTokenType>,
    tokens: Seq<Token>,
    at: int,
)
    requires
        first_mismatch(expected, tokens, at),
    ensures
        checked(expected, tokens, 0) == Err::<(), RuleError>(
            RuleError::InvalidInstructionSequence(expected[at]),
        ),
        !accepts(expected, tokens),
{
    lemma_checked_prefix(expected, tokens, at);
}

/// The check succeeds exactly on the lists that have a token of the expected
/// category at every expected position.
pub proof fn lemma_checked_accepts(expected: Seq<OperandTokenType>, tokens: Seq<Token>)
    ensures
        checked(expected, tokens, 0) is Ok <==> accepts(expected, tokens),
        accepts(expected, tokens) ==> checked(expected, tokens, 0) == Ok::<(), RuleError>(()),
{
    if accepts(expected, tokens) {
        lemma_checked_prefix(expected, tokens, expected.len() as int);
        assert(checked(expected, tokens, expected.len() as int) == Ok::<(), RuleError>(()));
    } else {
        lemma_mismatch_exists(expected, tokens, 0);
        let at = choose|at: int| first_mismatch(expected, tokens, at);
        lemma_checked_at_mismatch(expected, tokens, at);
    }
}

proof fn lemma_mismatch_exists(expected: Seq<OperandTokenType>, tokens: Seq<Token>, from: int)
    requires
        !accepts(expected, tokens),
        0 <= from <= expected.len(),
        from <= tokens.len(),
        forall|i: int| 0 <= i < from ==> (#[trigger] tokens[i]).fits(expected[i]),
    ensures
        exists|at: int| first_mismatch(expected, tokens, at),
    decreases expected.len() - from,
{
    if from < expected.len() && from < tokens.len() && tokens[from].fits(expected[from]) {
        lemma_mismatch_exists(expected, tokens, from + 1);
    } else {
        assert(first_mismatch(expected, tokens, from));
    }
}

/// Three registers with commas between them and the end of the line behind
/// them are a valid operand list of every mnemonic of the three-register
/// shape.
pub proof fn lemma_three_registers_accepted(mnemonic: Mnemonic, tokens: Seq<Token>)
    requires
        rule_type_of(mnemonic) == OperandRuleType::R3,
        tokens.len() == 6,
        tokens[0].fits(OperandTokenType::Register),
        tokens[1].fits(OperandTokenType::Comma),
        tokens[2].fits(OperandTokenType::Register),
        tokens[3].fits(OperandTokenType::Comma),
        tokens[4].fits(OperandTokenType::Register),
        tokens[5].fits(OperandTokenType::Eol),
    ensures
        checked(expected_of(rule_type_of(mnemonic)), tokens, 0) == Ok::<(), RuleError>(()),
{
    let expected = expected_of(OperandRuleType::R3);
    assert(accepts(expected, tokens));
    lemma_checked_accepts(expected, tokens);
}

/// A register, a comma and then anything but a register is refused by every
/// mnemonic of the three-register shape, at the third position: a register
/// was expected there.
pub proof fn lemma_third_register_expected(mnemonic: Mnemonic, tokens: Seq<Token>)
    requires
        rule_type_of(mnemonic) == OperandRuleType::R3,
        tokens.len() >= 2,
        tokens[0].fits(OperandTokenType::Register),
        tokens[1].fits(OperandTokenType::Comma),
        tokens.len() > 2 ==> !tokens[2].fits(OperandTokenType::Register),
    ensures
        checked(expected_of(rule_type_of(mnemonic)), tokens, 0) == Err::<(), RuleError>(
            RuleError::InvalidInstructionSequence(OperandTokenType::Register),
        ),
{
    let expected = expected_of(OperandRuleType::R3);
    assert(first_mismatch(expected, tokens, 2));
    lemma_checked_at_mismatch(expected, tokens, 2);
}

/// Two rules of one mnemonic are the same rule: the same shape and the same
/// categories.
pub proof fn lemma_rule_resolution_stable(
    mnemonic: Mnemonic,
    first: InstructionRule,
    second: InstructionRule,
)
    requires
        first.wf(),
        second.wf(),
        first.rule_type() == rule_type_of(mnemonic),
        second.rule_type() == rule_type_of(mnemonic),
    ensures
        first.rule_type() == second.rule_type(),
        first@ == second@,
        first@ == sequence_of(rule_type_of(mnemonic)),
{
}

} // verus!

//! The instructions of the five-bit instruction set, their layouts and their encoding.
use vstd::prelude::*;
use vstd::std_specs::convert::FromSpecImpl;
use vstd::std_specs::convert::TryFromSpecImpl;
use crate::codec::Codec;
use crate::codec::DecodeError;
use crate::codec::Field;
use crate::codec::FieldKind;
use crate::codec::SchemaEntry;
use crate::codec::layout_fits;
use crate::codec::offset_of;
use crate::codec::clear_from;
use crate::codec::packed;
use crate::codec::unpacked;
use crate::codec::extract;
use crate::codec::opcode_of;
use crate::codec::values_fit;
use crate::codec::pack;
use crate::codec::unpack;
use crate::codec::opcode_bits;
use crate::codec::lemma_unpack_packed;
use crate::codec::lemma_masked_small;
use crate::codec::lemma_masked_bound;
use crate::codec::lemma_mask_values;
use crate::isa::operand::Immediate14;
use crate::isa::operand::Immediate19;
use crate::isa::register::Register;
use crate::isa::register::REGISTER_BITS;

verus! {

/// The name of an instruction: what selects its opcode and layout.
#[derive(Debug, Clone, Copy, PartialEq, Eq, Hash, Structural)]
pub enum Mnemonic {
    Add,
    Sub,
    Mul,
    And,
    Or,
    Xor,
    Shl,
    Shr,
    ShrA,
    AddI,
    Lui,
    Lw,
    Sw,
    Syscall,
    Li,
}

impl Mnemonic {
    /// The opcode of the instruction.
    pub open spec fn code(&self) -> u8 {
        match self {
            Mnemonic::Add => 0x1,
            Mnemonic::Sub => 0x2,
            Mnemonic::Mul => 0x3,
            Mnemonic::And => 0x4,
            Mnemonic::Or => 0x5,
            Mnemonic::Xor => 0x6,
            Mnemonic::Shl => 0x7,
            Mnemonic::Shr => 0x8,
            Mnemonic::ShrA => 0x9,
            Mnemonic::AddI => 0x13,
            Mnemonic::Lui => 0x14,
            Mnemonic::Lw => 0xc,
            Mnemonic::Sw => 0xd,
            Mnemonic::Syscall => 0x73,
            Mnemonic::Li => 0xff,
        }
    }

    /// The instruction that has the given opcode, if one has.
    pub open spec fn of_opcode(opcode: u8) -> Option<Mnemonic> {
        if opcode == 0x1 {
            Some(Mnemonic::Add)
        } else if opcode == 0x2 {
            Some(Mnemonic::Sub)
        } else if opcode == 0x3 {
            Some(Mnemonic::Mul)
        } else if opcode == 0x4 {
            Some(Mnemonic::And)
        } else if opcode == 0x5 {
            Some(Mnemonic::Or)
        } else if opcode == 0x6 {
            Some(Mnemonic::Xor)
        } else if opcode == 0x7 {
            Some(Mnemonic::Shl)
        } else if opcode == 0x8 {
            Some(Mnemonic::Shr)
        } else if opcode == 0x9 {
            Some(Mnemonic::ShrA)
        } else if opcode == 0x13 {
            Some(Mnemonic::AddI)
        } else if opcode == 0x14 {
            Some(Mnemonic::Lui)
        } else if opcode == 0xc {
            Some(Mnemonic::Lw)
        } else if opcode == 0xd {
            Some(Mnemonic::Sw)
        } else if opcode == 0x73 {
            Some(Mnemonic::Syscall)
        } else if opcode == 0xff {
            Some(Mnemonic::Li)
        } else {
            None
        }
    }

    /// Computes [`Mnemonic::code`]; the opcode leads back to the mnemonic.
    pub fn opcode(&self) -> (opcode: u8)
        ensures
            opcode == self.code(),
            Mnemonic::of_opcode(opcode) == Some(*self),
    {
        match self {
            Mnemonic::Add => 0x1,
            Mnemonic::Sub => 0x2,
            Mnemonic::Mul => 0x3,
            Mnemonic::And => 0x4,
            Mnemonic::Or => 0x5,
            Mnemonic::Xor => 0x6,
            Mnemonic::Shl => 0x7,
            Mnemonic::Shr => 0x8,
            Mnemonic::ShrA => 0x9,
            Mnemonic::AddI => 0x13,
            Mnemonic::Lui => 0x14,
            Mnemonic::Lw => 0xc,
            Mnemonic::Sw => 0xd,
            Mnemonic::Syscall => 0x73,
            Mnemonic::Li => 0xff,
        }
    }

    /// Computes [`Mnemonic::of_opcode`]: the mnemonic whose opcode this is,
    /// or nothing where no instruction has the opcode.
    pub fn from_opcode(opcode: u8) -> (mnemonic: Option<Mnemonic>)
        ensures
            mnemonic == Mnemonic::of_opcode(opcode),
            mnemonic is Some ==> mnemonic->Some_0.code() == opcode,
    {
        if opcode == 0x1 {
            Some(Mnemonic::Add)
        } else if opcode == 0x2 {
            Some(Mnemonic::Sub)
        } else if opcode == 0x3 {
            Some(Mnemonic::Mul)
        } else if opcode == 0x4 {
            Some(Mnemonic::And)
        } else if opcode == 0x5 {
            Some(Mnemonic::Or)
        } else if opcode == 0x6 {
            Some(Mnemonic::Xor)
        } else if opcode == 0x7 {
            Some(Mnemonic::Shl)
        } else if opcode == 0x8 {
            Some(Mnemonic::Shr)
        } else if opcode == 0x9 {
            Some(Mnemonic::ShrA)
        } else if opcode == 0x13 {
            Some(Mnemonic::AddI)
        } else if opcode == 0x14 {
            Some(Mnemonic::Lui)
        } else if opcode == 0xc {
            Some(Mnemonic::Lw)
        } else if opcode == 0xd {
            Some(Mnemonic::Sw)
        } else if opcode == 0x73 {
            Some(Mnemonic::Syscall)
        } else if opcode == 0xff {
            Some(Mnemonic::Li)
        } else {
            None
        }
    }
}

/// A register field of the given name.
pub open spec fn register_field(name: &'static str) -> Field {
    Field { name, width: REGISTER_BITS, kind: FieldKind::Register }
}

/// An immediate field of the given name and width.
pub open spec fn immediate_field(name: &'static str, width: u32) -> Field {
    Field { name, width, kind: FieldKind::Immediate }
}

fn new_register_field(name: &'static str) -> (field: Field)
    ensures
        field == register_field(name),
{
    Field { name, width: REGISTER_BITS, kind: FieldKind::Register }
}

fn new_immediate_field(name: &'static str, width: u32) -> (field: Field)
    ensures
        field == immediate_field(name, width),
{
    Field { name, width, kind: FieldKind::Immediate }
}

/// The fields of each instruction, in packing order: the table that both
/// directions of the encoding go by.
pub open spec fn layout(mnemonic: Mnemonic) -> Seq<Field> {
    match mnemonic {
        Mnemonic::Add => seq![
            register_field("dest"),
            register_field("src1"),
            register_field("src2"),
        ],
        Mnemonic::Sub => seq![
            register_field("dest"),
            register_field("src1"),
            register_field("src2"),
        ],
        Mnemonic::Mul => seq![
            register_field("dest"),
            register_field("src1"),
            register_field("src2"),
        ],
        Mnemonic::And => seq![
            register_field("dest"),
            register_field("src1"),
            register_field("src2"),
        ],
        Mnemonic::Or => seq![
            register_field("dest"),
            register_field("src1"),
            register_field("src2"),
        ],
        Mnemonic::Xor => seq![
            register_field("dest"),
            register_field("src1"),
            register_field("src2"),
        ],
        Mnemonic::Shl => seq![
            register_field("dest"),
            register_field("src"),
            register_field("shift"),
        ],
        Mnemonic::Shr => seq![
            register_field("dest"),
            register_field("src"),
            register_field("shift"),
        ],
        Mnemonic::ShrA => seq![
            register_field("dest"),
            register_field("src"),
            register_field("shift"),
        ],
        Mnemonic::AddI => seq![
            register_field("dest"),
            register_field("src"),
            immediate_field("value", 14),
        ],
        Mnemonic::Lui => seq![
            register_field("dest"),
            immediate_field("value", 19),
        ],
        Mnemonic::Lw => seq![
            register_field("dest"),
            register_field("src"),
            immediate_field("offset", 14),
        ],
        Mnemonic::Sw => seq![
            register_field("dest"),
            register_field("src"),
            immediate_field("offset", 14),
        ],
        Mnemonic::Syscall => seq![
            register_field("src1"),
            register_field("src2"),
            register_field("src3"),
        ],
        Mnemonic::Li => seq![
            register_field("dest"),
            immediate_field("value", 19),
        ],
    }
}

/// Every layout fits the word behind the opcode, with at most three fields.
pub proof fn lemma_layout_fits(mnemonic: Mnemonic)
    ensures
        layout_fits(layout(mnemonic)),
        layout(mnemonic).len() <= 3,
{
    reveal_with_fuel(offset_of, 4);
}

/// The schema entry of an instruction: its opcode and its layout. The entry
/// depends on the mnemonic alone.
pub fn schema_for(mnemonic: Mnemonic) -> (entry: SchemaEntry)
    ensures
        entry.opcode == mnemonic.code(),
        entry.fields@ == layout(mnemonic),
        entry.wf(),
{
    let mut fields: Vec<Field> = Vec::new();
    match mnemonic {
        Mnemonic::Add => {
            fields.push(new_register_field("dest"));
            fields.push(new_register_field("src1"));
            fields.push(new_register_field("src2"));
        },
        Mnemonic::Sub => {
            fields.push(new_register_field("dest"));
            fields.push(new_register_field("src1"));
            fields.push(new_register_field("src2"));
        },
        Mnemonic::Mul => {
            fields.push(new_register_field("dest"));
            fields.push(new_register_field("src1"));
            fields.push(new_register_field("src2"));
        },
        Mnemonic::And => {
            fields.push(new_register_field("dest"));
            fields.push(new_register_field("src1"));
            fields.push(new_register_field("src2"));
        },
        Mnemonic::Or => {
            fields.push(new_register_field("dest"));
            fields.push(new_register_field("src1"));
            fields.push(new_register_field("src2"));
        },
        Mnemonic::Xor => {
            fields.push(new_register_field("dest"));
            fields.push(new_register_field("src1"));
            fields.push(new_register_field("src2"));
        },
        Mnemonic::Shl => {
            fields.push(new_register_field("dest"));
            fields.push(new_register_field("src"));
            fields.push(new_register_field("shift"));
        },
        Mnemonic::Shr => {
            fields.push(new_register_field("dest"));
            fields.push(new_register_field("src"));
            fields.push(new_register_field("shift"));
        },
        Mnemonic::ShrA => {
            fields.push(new_register_field("dest"));
            fields.push(new_register_field("src"));
            fields.push(new_register_field("shift"));
        },
        Mnemonic::AddI => {
            fields.push(new_register_field("dest"));
            fields.push(new_register_field("src"));
            fields.push(new_immediate_field("value", 14));
        },
        Mnemonic::Lui => {
            fields.push(new_register_field("dest"));
            fields.push(new_immediate_field("value", 19));
        },
        Mnemonic::Lw => {
            fields.push(new_register_field("dest"));
            fields.push(new_register_field("src"));
            fields.push(new_immediate_field("offset", 14));
        },
        Mnemonic::Sw => {
            fields.push(new_register_field("dest"));
            fields.push(new_register_field("src"));
            fields.push(new_immediate_field("offset", 14));
        },
        Mnemonic::Syscall => {
            fields.push(new_register_field("src1"));
            fields.push(new_register_field("src2"));
            fields.push(new_register_field("src3"));
        },
        Mnemonic::Li => {
            fields.push(new_register_field("dest"));
            fields.push(new_immediate_field("value", 19));
        },
    }
    proof {
        lemma_layout_fits(mnemonic);
        assert(fields@ =~= layout(mnemonic));
    }
    SchemaEntry { opcode: mnemonic.opcode(), fields }
}

/// Two entries of one mnemonic are the same entry: the same opcode and the
/// same fields.
pub proof fn lemma_schema_resolution_stable(
    mnemonic: Mnemonic,
    first: SchemaEntry,
    second: SchemaEntry,
)
    requires
        first.opcode == mnemonic.code(),
        first.fields@ == layout(mnemonic),
        second.opcode == mnemonic.code(),
        second.fields@ == layout(mnemonic),
    ensures
        first.opcode == second.opcode,
        first.fields@ == second.fields@,
        first.wf() && second.wf(),
{
    lemma_layout_fits(mnemonic);
}

/// An instruction with its operands.
#[allow(inconsistent_fields)]
#[derive(Debug, Clone, Copy, PartialEq, Eq, Structural)]
pub enum Instruction {
    Add { dest: Register, src1: Register, src2: Register },
    Sub { dest: Register, src1: Register, src2: Register },
    Mul { dest: Register, src1: Register, src2: Register },
    And { dest: Register, src1: Register, src2: Register },
    Or { dest: Register, src1: Register, src2: Register },
    Xor { dest: Register, src1: Register, src2: Register },
    /// Shift left.
    Shl { dest: Register, src: Register, shift: Register },
    /// Shift right, logical.
    Shr { dest: Register, src: Register, shift: Register },
    /// Shift right, arithmetic.
    ShrA { dest: Register, src: Register, shift: Register },
    /// Add immediate.
    AddI { dest: Register, src: Register, value: Immediate14 },
    /// Load upper immediate.
    Lui { dest: Register, value: Immediate19 },
    /// Load word.
    Lw { dest: Register, src: Register, offset: Immediate14 },
    /// Store word.
    Sw { dest: Register, src: Register, offset: Immediate14 },
    Syscall { src1: Register, src2: Register, src3: Register },
    /// Load immediate.
    Li { dest: Register, value: Immediate19 },
}

impl Instruction {
    /// The instruction's name.
    pub open spec fn mnemonic_of(&self) -> Mnemonic {
        match self {
            Instruction::Add { .. } => Mnemonic::Add,
            Instruction::Sub { .. } => Mnemonic::Sub,
            Instruction::Mul { .. } => Mnemonic::Mul,
            Instruction::And { .. } => Mnemonic::And,
            Instruction::Or { .. } => Mnemonic::Or,
            Instruction::Xor { .. } => Mnemonic::Xor,
            Instruction::Shl { .. } => Mnemonic::Shl,
            Instruction::Shr { .. } => Mnemonic::Shr,
            Instruction::ShrA { .. } => Mnemonic::ShrA,
            Instruction::AddI { .. } => Mnemonic::AddI,
            Instruction::Lui { .. } => Mnemonic::Lui,
            Instruction::Lw { .. } => Mnemonic::Lw,
            Instruction::Sw { .. } => Mnemonic::Sw,
            Instruction::Syscall { .. } => Mnemonic::Syscall,
            Instruction::Li { .. } => Mnemonic::Li,
        }
    }

    /// Every immediate operand holds a value in its range.
    pub open spec fn wf(&self) -> bool {
        match self {
            Instruction::AddI { value, .. } => value.wf(),
            Instruction::Lui { value, .. } => value.wf(),
            Instruction::Lw { offset, .. } => offset.wf(),
            Instruction::Sw { offset, .. } => offset.wf(),
            Instruction::Li { value, .. } => value.wf(),
            _ => true,
        }
    }

    /// The raw value of each operand, in declared order: a register's
    /// number, an immediate's bit pattern.
    pub open spec fn operand_values(&self) -> Seq<u32> {
        match self {
            Instruction::Add { dest, src1, src2 } => seq![dest.raw(), src1.raw(), src2.raw()],
            Instruction::Sub { dest, src1, src2 } => seq![dest.raw(), src1.raw(), src2.raw()],
            Instruction::Mul { dest, src1, src2 } => seq![dest.raw(), src1.raw(), src2.raw()],
            Instruction::And { dest, src1, src2 } => seq![dest.raw(), src1.raw(), src2.raw()],
            Instruction::Or { dest, src1, src2 } => seq![dest.raw(), src1.raw(), src2.raw()],
            Instruction::Xor { dest, src1, src2 } => seq![dest.raw(), src1.raw(), src2.raw()],
            Instruction::Shl { dest, src, shift } => seq![dest.raw(), src.raw(), shift.raw()],
            Instruction::Shr { dest, src, shift } => seq![dest.raw(), src.raw(), shift.raw()],
            Instruction::ShrA { dest, src, shift } => seq![dest.raw(), src.raw(), shift.raw()],
            Instruction::AddI { dest, src, value } => seq![dest.raw(), src.raw(), value.raw()],
            Instruction::Lui { dest, value } => seq![dest.raw(), value.raw()],
            Instruction::Lw { dest, src, offset } => seq![dest.raw(), src.raw(), offset.raw()],
            Instruction::Sw { dest, src, offset } => seq![dest.raw(), src.raw(), offset.raw()],
            Instruction::Syscall { src1, src2, src3 } => seq![src1.raw(), src2.raw(), src3.raw()],
            Instruction::Li { dest, value } => seq![dest.raw(), value.raw()],
        }
    }

    /// The word of the instruction: the opcode in the low byte, and above it
    /// each operand in its field of the layout.
    pub open spec fn encoding(&self) -> u32 {
        packed(
            self.mnemonic_of().code(),
            layout(self.mnemonic_of()),
            self.operand_values(),
            layout(self.mnemonic_of()).len() as int,
        )
    }

    /// The instruction of the given name whose operands have the given raw
    /// values, or the error of the first operand that has none.
    pub open spec fn assembled(mnemonic: Mnemonic, values: Seq<u32>) -> Result<
        Instruction,
        DecodeError,
    > {
        match mnemonic {
            Mnemonic::Add => match (
                <Register as Codec>::from_raw(values[0]),
                <Register as Codec>::from_raw(values[1]),
                <Register as Codec>::from_raw(values[2]),
            ) {
                (Ok(dest), Ok(src1), Ok(src2)) => Ok(Instruction::Add { dest, src1, src2 }),
                (Err(e), _, _) => Err(e),
                (_, Err(e), _) => Err(e),
                (_, _, Err(e)) => Err(e),
            },
            Mnemonic::Sub => match (
                <Register as Codec>::from_raw(values[0]),
                <Register as Codec>::from_raw(values[1]),
                <Register as Codec>::from_raw(values[2]),
            ) {
                (Ok(dest), Ok(src1), Ok(src2)) => Ok(Instruction::Sub { dest, src1, src2 }),
                (Err(e), _, _) => Err(e),
                (_, Err(e), _) => Err(e),
                (_, _, Err(e)) => Err(e),
            },
            Mnemonic::Mul => match (
                <Register as Codec>::from_raw(values[0]),
                <Register as Codec>::from_raw(values[1]),
                <Register as Codec>::from_raw(values[2]),
            ) {
                (Ok(dest), Ok(src1), Ok(src2)) => Ok(Instruction::Mul { dest, src1, src2 }),
                (Err(e), _, _) => Err(e),
                (_, Err(e), _) => Err(e),
                (_, _, Err(e)) => Err(e),
            },
            Mnemonic::And => match (
                <Register as Codec>::from_raw(values[0]),
                <Register as Codec>::from_raw(values[1]),
                <Register as Codec>::from_raw(values[2]),
            ) {
                (Ok(dest), Ok(src1), Ok(src2)) => Ok(Instruction::And { dest, src1, src2 }),
                (Err(e), _, _) => Err(e),
                (_, Err(e), _) => Err(e),
                (_, _, Err(e)) => Err(e),
            },
            Mnemonic::Or => match (
                <Register as Codec>::from_raw(values[0]),
                <Register as Codec>::from_raw(values[1]),
                <Register as Codec>::from_raw(values[2]),
            ) {
                (Ok(dest), Ok(src1), Ok(src2)) => Ok(Instruction::Or { dest, src1, src2 }),
                (Err(e), _, _) => Err(e),
                (_, Err(e), _) => Err(e),
                (_, _, Err(e)) => Err(e),
            },
            Mnemonic::Xor => match (
                <Register as Codec>::from_raw(values[0]),
                <Register as Codec>::from_raw(values[1]),
                <Register as Codec>::from_raw(values[2]),
            ) {
                (Ok(dest), Ok(src1), Ok(src2)) => Ok(Instruction::Xor { dest, src1, src2 }),
                (Err(e), _, _) => Err(e),
                (_, Err(e), _) => Err(e),
                (_, _, Err(e)) => Err(e),
            },
            Mnemonic::Shl => match (
                <Register as Codec>::from_raw(values[0]),
                <Register as Codec>::from_raw(values[1]),
                <Register as Codec>::from_raw(values[2]),
            ) {
                (Ok(dest), Ok(src), Ok(shift)) => Ok(Instruction::Shl { dest, src, shift }),
                (Err(e), _, _) => Err(e),
                (_, Err(e), _) => Err(e),
                (_, _, Err(e)) => Err(e),
            },
            Mnemonic::Shr => match (
                <Register as Codec>::from_raw(values[0]),
                <Register as Codec>::from_raw(values[1]),
                <Register as Codec>::from_raw(values[2]),
            ) {
                (Ok(dest), Ok(src), Ok(shift)) => Ok(Instruction::Shr { dest, src, shift }),
                (Err(e), _, _) => Err(e),
                (_, Err(e), _) => Err(e),
                (_, _, Err(e)) => Err(e),
            },
            Mnemonic::ShrA => match (
                <Register as Codec>::from_raw(values[0]),
                <Register as Codec>::from_raw(values[1]),
                <Register as Codec>::from_raw(values[2]),
            ) {
                (Ok(dest), Ok(src), Ok(shift)) => Ok(Instruction::ShrA { dest, src, shift }),
                (Err(e), _, _) => Err(e),
                (_, Err(e), _) => Err(e),
                (_, _, Err(e)) => Err(e),
            },
            Mnemonic::AddI => match (
                <Register as Codec>::from_raw(values[0]),
                <Register as Codec>::from_raw(values[1]),
                <Immediate14 as Codec>::from_raw(values[2]),
            ) {
                (Ok(dest), Ok(src), Ok(value)) => Ok(Instruction::AddI { dest, src, value }),
                (Err(e), _, _) => Err(e),
                (_, Err(e), _) => Err(e),
                (_, _, Err(e)) => Err(e),
            },
            Mnemonic::Lui => match (
                <Register as Codec>::from_raw(values[0]),
                <Immediate19 as Codec>::from_raw(values[1]),
            ) {
                (Ok(dest), Ok(value)) => Ok(Instruction::Lui { dest, value }),
                (Err(e), _) => Err(e),
                (_, Err(e)) => Err(e),
            },
            Mnemonic::Lw => match (
                <Register as Codec>::from_raw(values[0]),
                <Register as Codec>::from_raw(values[1]),
                <Immediate14 as Codec>::from_raw(values[2]),
            ) {
                (Ok(dest), Ok(src), Ok(offset)) => Ok(Instruction::Lw { dest, src, offset }),
                (Err(e), _, _) => Err(e),
                (_, Err(e), _) => Err(e),
                (_, _, Err(e)) => Err(e),
            },
            Mnemonic::Sw => match (
                <Register as Codec>::from_raw(values[0]),
                <Register as Codec>::from_raw(values[1]),
                <Immediate14 as Codec>::from_raw(values[2]),
            ) {
                (Ok(dest), Ok(src), Ok(offset)) => Ok(Instruction::Sw { dest, src, offset }),
                (Err(e), _, _) => Err(e),
                (_, Err(e), _) => Err(e),
                (_, _, Err(e)) => Err(e),
            },
            Mnemonic::Syscall => match (
                <Register as Codec>::from_raw(values[0]),
                <Register as Codec>::from_raw(values[1]),
                <Register as Codec>::from_raw(values[2]),
            ) {
                (Ok(src1), Ok(src2), Ok(src3)) => Ok(Instruction::Syscall { src1, src2, src3 }),
                (Err(e), _, _) => Err(e),
                (_, Err(e), _) => Err(e),
                (_, _, Err(e)) => Err(e),
            },
            Mnemonic::Li => match (
                <Register as Codec>::from_raw(values[0]),
                <Immediate19 as Codec>::from_raw(values[1]),
            ) {
                (Ok(dest), Ok(value)) => Ok(Instruction::Li { dest, value }),
                (Err(e), _) => Err(e),
                (_, Err(e)) => Err(e),
            },
        }
    }

    /// What a word decodes to: the instruction that its low byte names, with
    /// the operands read from the fields of its layout, or the error.
    pub open spec fn decoding(word: u32) -> Result<Instruction, DecodeError> {
        match Mnemonic::of_opcode(opcode_of(word)) {
            None => Err(DecodeError::UnknownOpcode(opcode_of(word))),
            Some(mnemonic) => Instruction::assembled(mnemonic, unpacked(layout(mnemonic), word)),
        }
    }

    /// Computes [`Instruction::mnemonic_of`].
    pub fn mnemonic(&self) -> (mnemonic: Mnemonic)
        ensures
            mnemonic == self.mnemonic_of(),
    {
        match self {
            Instruction::Add { .. } => Mnemonic::Add,
            Instruction::Sub { .. } => Mnemonic::Sub,
            Instruction::Mul { .. } => Mnemonic::Mul,
            Instruction::And { .. } => Mnemonic::And,
            Instruction::Or { .. } => Mnemonic::Or,
            Instruction::Xor { .. } => Mnemonic::Xor,
            Instruction::Shl { .. } => Mnemonic::Shl,
            Instruction::Shr { .. } => Mnemonic::Shr,
            Instruction::ShrA { .. } => Mnemonic::ShrA,
            Instruction::AddI { .. } => Mnemonic::AddI,
            Instruction::Lui { .. } => Mnemonic::Lui,
            Instruction::Lw { .. } => Mnemonic::Lw,
            Instruction::Sw { .. } => Mnemonic::Sw,
            Instruction::Syscall { .. } => Mnemonic::Syscall,
            Instruction::Li { .. } => Mnemonic::Li,
        }
    }

    /// Computes [`Instruction::operand_values`].
    pub fn operands(&self) -> (values: Vec<u32>)
        ensures
            values@ == self.operand_values(),
            self.wf(),
    {
        let mut values: Vec<u32> = Vec::new();
        match self {
            Instruction::Add { dest, src1, src2 } => {
                values.push(dest.to_raw());
                values.push(src1.to_raw());
                values.push(src2.to_raw());
            },
            Instruction::Sub { dest, src1, src2 } => {
                values.push(dest.to_raw());
                values.push(src1.to_raw());
                values.push(src2.to_raw());
            },
            Instruction::Mul { dest, src1, src2 } => {
                values.push(dest.to_raw());
                values.push(src1.to_raw());
                values.push(src2.to_raw());
            },
            Instruction::And { dest, src1, src2 } => {
                values.push(dest.to_raw());
                values.push(src1.to_raw());
                values.push(src2.to_raw());
            },
            Instruction::Or { dest, src1, src2 } => {
                values.push(dest.to_raw());
                values.push(src1.to_raw());
                values.push(src2.to_raw());
            },
            Instruction::Xor { dest, src1, src2 } => {
                values.push(dest.to_raw());
                values.push(src1.to_raw());
                values.push(src2.to_raw());
            },
            Instruction::Shl { dest, src, shift } => {
                values.push(dest.to_raw());
                values.push(src.to_raw());
                values.push(shift.to_raw());
            },
            Instruction::Shr { dest, src, shift } => {
                values.push(dest.to_raw());
                values.push(src.to_raw());
                values.push(shift.to_raw());
            },
            Instruction::ShrA { dest, src, shift } => {
                values.push(dest.to_raw());
                values.push(src.to_raw());
                values.push(shift.to_raw());
            },
            Instruction::AddI { dest, src, value } => {
                values.push(dest.to_raw());
                values.push(src.to_raw());
                proof {
                    use_type_invariant(value);
                }
                values.push(value.to_raw());
            },
            Instruction::Lui { dest, value } => {
                values.push(dest.to_raw());
                proof {
                    use_type_invariant(value);
                }
                values.push(value.to_raw());
            },
            Instruction::Lw { dest, src, offset } => {
                values.push(dest.to_raw());
                values.push(src.to_raw());
                proof {
                    use_type_invariant(offset);
                }
                values.push(offset.to_raw());
            },
            Instruction::Sw { dest, src, offset } => {
                values.push(dest.to_raw());
                values.push(src.to_raw());
                proof {
                    use_type_invariant(offset);
                }
                values.push(offset.to_raw());
            },
            Instruction::Syscall { src1, src2, src3 } => {
                values.push(src1.to_raw());
                values.push(src2.to_raw());
                values.push(src3.to_raw());
            },
            Instruction::Li { dest, value } => {
                values.push(dest.to_raw());
                proof {
                    use_type_invariant(value);
                }
                values.push(value.to_raw());
            },
        }
        assert(values@ =~= self.operand_values());
        values
    }

    /// Encodes the instruction: the word is [`Instruction::encoding`], its low
    /// byte is the opcode, the bits above the last field are zero, and it
    /// decodes to this instruction again.
    pub fn encode(&self) -> (word: u32)
        ensures
            word == self.encoding(),
            opcode_of(word) == self.mnemonic_of().code(),
            clear_from(
                word,
                offset_of(layout(self.mnemonic_of()), layout(self.mnemonic_of()).len() as int),
            ),
            Instruction::decoding(word) == Ok::<Instruction, DecodeError>(*self),
    {
        let mnemonic = self.mnemonic();
        let entry = schema_for(mnemonic);
        let values = self.operands();
        proof {
            lemma_layout_fits(mnemonic);
            Instruction::lemma_round_trip(*self);
        }
        pack(&entry, &values)
    }

    /// Builds the instruction of the given name from the raw values of its
    /// operands.
    pub fn assemble(mnemonic: Mnemonic, values: &Vec<u32>) -> (made: Result<
        Instruction,
        DecodeError,
    >)
        requires
            values.len() == layout(mnemonic).len(),
        ensures
            made == Instruction::assembled(mnemonic, values@),
    {
        match mnemonic {
            Mnemonic::Add => match (
                Register::try_from_raw(values[0]),
                Register::try_from_raw(values[1]),
                Register::try_from_raw(values[2]),
            ) {
                (Ok(dest), Ok(src1), Ok(src2)) => Ok(Instruction::Add { dest, src1, src2 }),
                (Err(e), _, _) => Err(e),
                (_, Err(e), _) => Err(e),
                (_, _, Err(e)) => Err(e),
            },
            Mnemonic::Sub => match (
                Register::try_from_raw(values[0]),
                Register::try_from_raw(values[1]),
                Register::try_from_raw(values[2]),
            ) {
                (Ok(dest), Ok(src1), Ok(src2)) => Ok(Instruction::Sub { dest, src1, src2 }),
                (Err(e), _, _) => Err(e),
                (_, Err(e), _) => Err(e),
                (_, _, Err(e)) => Err(e),
            },
            Mnemonic::Mul => match (
                Register::try_from_raw(values[0]),
                Register::try_from_raw(values[1]),
                Register::try_from_raw(values[2]),
            ) {
                (Ok(dest), Ok(src1), Ok(src2)) => Ok(Instruction::Mul { dest, src1, src2 }),
                (Err(e), _, _) => Err(e),
                (_, Err(e), _) => Err(e),
                (_, _, Err(e)) => Err(e),
            },
            Mnemonic::And => match (
                Register::try_from_raw(values[0]),
                Register::try_from_raw(values[1]),
                Register::try_from_raw(values[2]),
            ) {
                (Ok(dest), Ok(src1), Ok(src2)) => Ok(Instruction::And { dest, src1, src2 }),
                (Err(e), _, _) => Err(e),
                (_, Err(e), _) => Err(e),
                (_, _, Err(e)) => Err(e),
            },
            Mnemonic::Or => match (
                Register::try_from_raw(values[0]),
                Register::try_from_raw(values[1]),
                Register::try_from_raw(values[2]),
            ) {
                (Ok(dest), Ok(src1), Ok(src2)) => Ok(Instruction::Or { dest, src1, src2 }),
                (Err(e), _, _) => Err(e),
                (_, Err(e), _) => Err(e),
                (_, _, Err(e)) => Err(e),
            },
            Mnemonic::Xor => match (
                Register::try_from_raw(values[0]),
                Register::try_from_raw(values[1]),
                Register::try_from_raw(values[2]),
            ) {
                (Ok(dest), Ok(src1), Ok(src2)) => Ok(Instruction::Xor { dest, src1, src2 }),
                (Err(e), _, _) => Err(e),
                (_, Err(e), _) => Err(e),
                (_, _, Err(e)) => Err(e),
            },
            Mnemonic::Shl => match (
                Register::try_from_raw(values[0]),
                Register::try_from_raw(values[1]),
                Register::try_from_raw(values[2]),
            ) {
                (Ok(dest), Ok(src), Ok(shift)) => Ok(Instruction::Shl { dest, src, shift }),
                (Err(e), _, _) => Err(e),
                (_, Err(e), _) => Err(e),
                (_, _, Err(e)) => Err(e),
            },
            Mnemonic::Shr => match (
                Register::try_from_raw(values[0]),
                Register::try_from_raw(values[1]),
                Register::try_from_raw(values[2]),
            ) {
                (Ok(dest), Ok(src), Ok(shift)) => Ok(Instruction::Shr { dest, src, shift }),
                (Err(e), _, _) => Err(e),
                (_, Err(e), _) => Err(e),
                (_, _, Err(e)) => Err(e),
            },
            Mnemonic::ShrA => match (
                Register::try_from_raw(values[0]),
                Register::try_from_raw(values[1]),
                Register::try_from_raw(values[2]),
            ) {
                (Ok(dest), Ok(src), Ok(shift)) => Ok(Instruction::ShrA { dest, src, shift }),
                (Err(e), _, _) => Err(e),
                (_, Err(e), _) => Err(e),
                (_, _, Err(e)) => Err(e),
            },
            Mnemonic::AddI => match (
                Register::try_from_raw(values[0]),
                Register::try_from_raw(values[1]),
                Immediate14::try_from_raw(values[2]),
            ) {
                (Ok(dest), Ok(src), Ok(value)) => Ok(Instruction::AddI { dest, src, value }),
                (Err(e), _, _) => Err(e),
                (_, Err(e), _) => Err(e),
                (_, _, Err(e)) => Err(e),
            },
            Mnemonic::Lui => match (
                Register::try_from_raw(values[0]),
                Immediate19::try_from_raw(values[1]),
            ) {
                (Ok(dest), Ok(value)) => Ok(Instruction::Lui { dest, value }),
                (Err(e), _) => Err(e),
                (_, Err(e)) => Err(e),
            },
            Mnemonic::Lw => match (
                Register::try_from_raw(values[0]),
                Register::try_from_raw(values[1]),
                Immediate14::try_from_raw(values[2]),
            ) {
                (Ok(dest), Ok(src), Ok(offset)) => Ok(Instruction::Lw { dest, src, offset }),
                (Err(e), _, _) => Err(e),
                (_, Err(e), _) => Err(e),
                (_, _, Err(e)) => Err(e),
            },
            Mnemonic::Sw => match (
                Register::try_from_raw(values[0]),
                Register::try_from_raw(values[1]),
                Immediate14::try_from_raw(values[2]),
            ) {
                (Ok(dest), Ok(src), Ok(offset)) => Ok(Instruction::Sw { dest, src, offset }),
                (Err(e), _, _) => Err(e),
                (_, Err(e), _) => Err(e),
                (_, _, Err(e)) => Err(e),
            },
            Mnemonic::Syscall => match (
                Register::try_from_raw(values[0]),
                Register::try_from_raw(values[1]),
                Register::try_from_raw(values[2]),
            ) {
                (Ok(src1), Ok(src2), Ok(src3)) => Ok(Instruction::Syscall { src1, src2, src3 }),
                (Err(e), _, _) => Err(e),
                (_, Err(e), _) => Err(e),
                (_, _, Err(e)) => Err(e),
            },
            Mnemonic::Li => match (
                Register::try_from_raw(values[0]),
                Immediate19::try_from_raw(values[1]),
            ) {
                (Ok(dest), Ok(value)) => Ok(Instruction::Li { dest, value }),
                (Err(e), _) => Err(e),
                (_, Err(e)) => Err(e),
            },
        }
    }

    /// Decodes a word. A low byte that is no instruction's opcode gives
    /// `UnknownOpcode` with that byte, whatever the other bits are; else the
    /// operands are read from the fields of the instruction's layout.
    pub fn decode(word: u32) -> (made: Result<Instruction, DecodeError>)
        ensures
            made == Instruction::decoding(word),
            Mnemonic::of_opcode(opcode_of(word)) is None ==> made == Err::<Instruction, DecodeError>(
                DecodeError::UnknownOpcode(opcode_of(word)),
            ),
            made is Err <==> Mnemonic::of_opcode(opcode_of(word)) is None,
            made is Ok ==> made->Ok_0.wf(),
    {
        let opcode = opcode_bits(word);
        match Mnemonic::from_opcode(opcode) {
            None => Err(DecodeError::UnknownOpcode(opcode)),
            Some(mnemonic) => {
                let entry = schema_for(mnemonic);
                let values = unpack(&entry, word);
                proof {
                    Instruction::lemma_decoding(word);
                }
                Instruction::assemble(mnemonic, &values)
            },
        }
    }

    /// Decoding undoes encoding: the word of an instruction decodes to that
    /// instruction, for every instruction whose immediates are in range.
    pub proof fn lemma_round_trip(instruction: Instruction)
        requires
            instruction.wf(),
        ensures
            opcode_of(instruction.encoding()) == instruction.mnemonic_of().code(),
            Instruction::decoding(instruction.encoding()) == Ok::<Instruction, DecodeError>(
                instruction,
            ),
    {
        match instruction {
            Instruction::Add { .. } => Instruction::lemma_round_trip_add(instruction),
            Instruction::Sub { .. } => Instruction::lemma_round_trip_sub(instruction),
            Instruction::Mul { .. } => Instruction::lemma_round_trip_mul(instruction),
            Instruction::And { .. } => Instruction::lemma_round_trip_and(instruction),
            Instruction::Or { .. } => Instruction::lemma_round_trip_or(instruction),
            Instruction::Xor { .. } => Instruction::lemma_round_trip_xor(instruction),
            Instruction::Shl { .. } => Instruction::lemma_round_trip_shl(instruction),
            Instruction::Shr { .. } => Instruction::lemma_round_trip_shr(instruction),
            Instruction::ShrA { .. } => Instruction::lemma_round_trip_shr_a(instruction),
            Instruction::AddI { .. } => Instruction::lemma_round_trip_add_i(instruction),
            Instruction::Lui { .. } => Instruction::lemma_round_trip_lui(instruction),
            Instruction::Lw { .. } => Instruction::lemma_round_trip_lw(instruction),
            Instruction::Sw { .. } => Instruction::lemma_round_trip_sw(instruction),
            Instruction::Syscall { .. } => Instruction::lemma_round_trip_syscall(instruction),
            Instruction::Li { .. } => Instruction::lemma_round_trip_li(instruction),
        }
    }

    proof fn lemma_round_trip_add(instruction: Instruction)
        requires
            instruction is Add,
            instruction.wf(),
        ensures
            opcode_of(instruction.encoding()) == instruction.mnemonic_of().code(),
            Instruction::decoding(instruction.encoding()) == Ok::<Instruction, DecodeError>(
                instruction,
            ),
    {
        lemma_mask_values();
        match instruction {
            Instruction::Add { dest, src1, src2 } => {
                lemma_masked_small(dest.index(), 5);
                Register::lemma_index_round_trip(dest);
                lemma_masked_small(src1.index(), 5);
                Register::lemma_index_round_trip(src1);
                lemma_masked_small(src2.index(), 5);
                Register::lemma_index_round_trip(src2);
            },
            _ => {},
        }
        Instruction::lemma_values_round_trip(Mnemonic::Add, instruction.operand_values());
    }

    proof fn lemma_round_trip_sub(instruction: Instruction)
        requires
            instruction is Sub,
            instruction.wf(),
        ensures
            opcode_of(instruction.encoding()) == instruction.mnemonic_of().code(),
            Instruction::decoding(instruction.encoding()) == Ok::<Instruction, DecodeError>(
                instruction,
            ),
    {
        lemma_mask_values();
        match instruction {
            Instruction::Sub { dest, src1, src2 } => {
                lemma_masked_small(dest.index(), 5);
                Register::lemma_index_round_trip(dest);
                lemma_masked_small(src1.index(), 5);
                Register::lemma_index_round_trip(src1);
                lemma_masked_small(src2.index(), 5);
                Register::lemma_index_round_trip(src2);
            },
            _ => {},
        }
        Instruction::lemma_values_round_trip(Mnemonic::Sub, instruction.operand_values());
    }

    proof fn lemma_round_trip_mul(instruction: Instruction)
        requires
            instruction is Mul,
            instruction.wf(),
        ensures
            opcode_of(instruction.encoding()) == instruction.mnemonic_of().code(),
            Instruction::decoding(instruction.encoding()) == Ok::<Instruction, DecodeError>(
                instruction,
            ),
    {
        lemma_mask_values();
        match instruction {
            Instruction::Mul { dest, src1, src2 } => {
                lemma_masked_small(dest.index(), 5);
                Register::lemma_index_round_trip(dest);
                lemma_masked_small(src1.index(), 5);
                Register::lemma_index_round_trip(src1);
                lemma_masked_small(src2.index(), 5);
                Register::lemma_index_round_trip(src2);
            },
            _ => {},
        }
        Instruction::lemma_values_round_trip(Mnemonic::Mul, instruction.operand_values());
    }

    proof fn lemma_round_trip_and(instruction: Instruction)
        requires
            instruction is And,
            instruction.wf(),
        ensures
            opcode_of(instruction.encoding()) == instruction.mnemonic_of().code(),
            Instruction::decoding(instruction.encoding()) == Ok::<Instruction, DecodeError>(
                instruction,
            ),
    {
        lemma_mask_values();
        match instruction {
            Instruction::And { dest, src1, src2 } => {
                lemma_masked_small(dest.index(), 5);
                Register::lemma_index_round_trip(dest);
                lemma_masked_small(src1.index(), 5);
                Register::lemma_index_round_trip(src1);
                lemma_masked_small(src2.index(), 5);
                Register::lemma_index_round_trip(src2);
            },
            _ => {},
        }
        Instruction::lemma_values_round_trip(Mnemonic::And, instruction.operand_values());
    }

    proof fn lemma_round_trip_or(instruction: Instruction)
        requires
            instruction is Or,
            instruction.wf(),
        ensures
            opcode_of(instruction.encoding()) == instruction.mnemonic_of().code(),
            Instruction::decoding(instruction.encoding()) == Ok::<Instruction, DecodeError>(
                instruction,
            ),
    {
        lemma_mask_values();
        match instruction {
            Instruction::Or { dest, src1, src2 } => {
                lemma_masked_small(dest.index(), 5);
                Register::lemma_index_round_trip(dest);
                lemma_masked_small(src1.index(), 5);
                Register::lemma_index_round_trip(src1);
                lemma_masked_small(src2.index(), 5);
                Register::lemma_index_round_trip(src2);
            },
            _ => {},
        }
        Instruction::lemma_values_round_trip(Mnemonic::Or, instruction.operand_values());
    }

    proof fn lemma_round_trip_xor(instruction: Instruction)
        requires
            instruction is Xor,
            instruction.wf(),
        ensures
            opcode_of(instruction.encoding()) == instruction.mnemonic_of().code(),
            Instruction::decoding(instruction.encoding()) == Ok::<Instruction, DecodeError>(
                instruction,
            ),
    {
        lemma_mask_values();
        match instruction {
            Instruction::Xor { dest, src1, src2 } => {
                lemma_masked_small(dest.index(), 5);
                Register::lemma_index_round_trip(dest);
                lemma_masked_small(src1.index(), 5);
                Register::lemma_index_round_trip(src1);
                lemma_masked_small(src2.index(), 5);
                Register::lemma_index_round_trip(src2);
            },
            _ => {},
        }
        Instruction::lemma_values_round_trip(Mnemonic::Xor, instruction.operand_values());
    }

    proof fn lemma_round_trip_shl(instruction: Instruction)
        requires
            instruction is Shl,
            instruction.wf(),
        ensures
            opcode_of(instruction.encoding()) == instruction.mnemonic_of().code(),
            Instruction::decoding(instruction.encoding()) == Ok::<Instruction, DecodeError>(
                instruction,
            ),
    {
        lemma_mask_values();
        match instruction {
            Instruction::Shl { dest, src, shift } => {
                lemma_masked_small(dest.index(), 5);
                Register::lemma_index_round_trip(dest);
                lemma_masked_small(src.index(), 5);
                Register::lemma_index_round_trip(src);
                lemma_masked_small(shift.index(), 5);
                Register::lemma_index_round_trip(shift);
            },
            _ => {},
        }
        Instruction::lemma_values_round_trip(Mnemonic::Shl, instruction.operand_values());
    }

    proof fn lemma_round_trip_shr(instruction: Instruction)
        requires
            instruction is Shr,
            instruction.wf(),
        ensures
            opcode_of(instruction.encoding()) == instruction.mnemonic_of().code(),
            Instruction::decoding(instruction.encoding()) == Ok::<Instruction, DecodeError>(
                instruction,
            ),
    {
        lemma_mask_values();
        match instruction {
            Instruction::Shr { dest, src, shift } => {
                lemma_masked_small(dest.index(), 5);
                Register::lemma_index_round_trip(dest);
                lemma_masked_small(src.index(), 5);
                Register::lemma_index_round_trip(src);
                lemma_masked_small(shift.index(), 5);
                Register::lemma_index_round_trip(shift);
            },
            _ => {},
        }
        Instruction::lemma_values_round_trip(Mnemonic::Shr, instruction.operand_values());
    }

    proof fn lemma_round_trip_shr_a(instruction: Instruction)
        requires
            instruction is ShrA,
            instruction.wf(),
        ensures
            opcode_of(instruction.encoding()) == instruction.mnemonic_of().code(),
            Instruction::decoding(instruction.encoding()) == Ok::<Instruction, DecodeError>(
                instruction,
            ),
    {
        lemma_mask_values();
        match instruction {
            Instruction::ShrA { dest, src, shift } => {
                lemma_masked_small(dest.index(), 5);
                Register::lemma_index_round_trip(dest);
                lemma_masked_small(src.index(), 5);
                Register::lemma_index_round_trip(src);
                lemma_masked_small(shift.index(), 5);
                Register::lemma_index_round_trip(shift);
            },
            _ => {},
        }
        Instruction::lemma_values_round_trip(Mnemonic::ShrA, instruction.operand_values());
    }

    proof fn lemma_round_trip_add_i(instruction: Instruction)
        requires
            instruction is AddI,
            instruction.wf(),
        ensures
            opcode_of(instruction.encoding()) == instruction.mnemonic_of().code(),
            Instruction::decoding(instruction.encoding()) == Ok::<Instruction, DecodeError>(
                instruction,
            ),
    {
        lemma_mask_values();
        match instruction {
            Instruction::AddI { dest, src, value } => {
                lemma_masked_small(dest.index(), 5);
                Register::lemma_index_round_trip(dest);
                lemma_masked_small(src.index(), 5);
                Register::lemma_index_round_trip(src);
                Immediate14::lemma_bits_round_trip(value);
            },
            _ => {},
        }
        Instruction::lemma_values_round_trip(Mnemonic::AddI, instruction.operand_values());
    }

    proof fn lemma_round_trip_lui(instruction: Instruction)
        requires
            instruction is Lui,
            instruction.wf(),
        ensures
            opcode_of(instruction.encoding()) == instruction.mnemonic_of().code(),
            Instruction::decoding(instruction.encoding()) == Ok::<Instruction, DecodeError>(
                instruction,
            ),
    {
        lemma_mask_values();
        match instruction {
            Instruction::Lui { dest, value } => {
                lemma_masked_small(dest.index(), 5);
                Register::lemma_index_round_trip(dest);
                Immediate19::lemma_bits_round_trip(value);
            },
            _ => {},
        }
        Instruction::lemma_values_round_trip(Mnemonic::Lui, instruction.operand_values());
    }

    proof fn lemma_round_trip_lw(instruction: Instruction)
        requires
            instruction is Lw,
            instruction.wf(),
        ensures
            opcode_of(instruction.encoding()) == instruction.mnemonic_of().code(),
            Instruction::decoding(instruction.encoding()) == Ok::<Instruction, DecodeError>(
                instruction,
            ),
    {
        lemma_mask_values();
        match instruction {
            Instruction::Lw { dest, src, offset } => {
                lemma_masked_small(dest.index(), 5);
                Register::lemma_index_round_trip(dest);
                lemma_masked_small(src.index(), 5);
                Register::lemma_index_round_trip(src);
                Immediate14::lemma_bits_round_trip(offset);
            },
            _ => {},
        }
        Instruction::lemma_values_round_trip(Mnemonic::Lw, instruction.operand_values());
    }

    proof fn lemma_round_trip_sw(instruction: Instruction)
        requires
            instruction is Sw,
            instruction.wf(),
        ensures
            opcode_of(instruction.encoding()) == instruction.mnemonic_of().code(),
            Instruction::decoding(instruction.encoding()) == Ok::<Instruction, DecodeError>(
                instruction,
            ),
    {
        lemma_mask_values();
        match instruction {
            Instruction::Sw { dest, src, offset } => {
                lemma_masked_small(dest.index(), 5);
                Register::lemma_index_round_trip(dest);
                lemma_masked_small(src.index(), 5);
                Register::lemma_index_round_trip(src);
                Immediate14::lemma_bits_round_trip(offset);
            },
            _ => {},
        }
        Instruction::lemma_values_round_trip(Mnemonic::Sw, instruction.operand_values());
    }

    proof fn lemma_round_trip_syscall(instruction: Instruction)
        requires
            instruction is Syscall,
            instruction.wf(),
        ensures
            opcode_of(instruction.encoding()) == instruction.mnemonic_of().code(),
            Instruction::decoding(instruction.encoding()) == Ok::<Instruction, DecodeError>(
                instruction,
            ),
    {
        lemma_mask_values();
        match instruction {
            Instruction::Syscall { src1, src2, src3 } => {
                lemma_masked_small(src1.index(), 5);
                Register::lemma_index_round_trip(src1);
                lemma_masked_small(src2.index(), 5);
                Register::lemma_index_round_trip(src2);
                lemma_masked_small(src3.index(), 5);
                Register::lemma_index_round_trip(src3);
            },
            _ => {},
        }
        Instruction::lemma_values_round_trip(Mnemonic::Syscall, instruction.operand_values());
    }

    proof fn lemma_round_trip_li(instruction: Instruction)
        requires
            instruction is Li,
            instruction.wf(),
        ensures
            opcode_of(instruction.encoding()) == instruction.mnemonic_of().code(),
            Instruction::decoding(instruction.encoding()) == Ok::<Instruction, DecodeError>(
                instruction,
            ),
    {
        lemma_mask_values();
        match instruction {
            Instruction::Li { dest, value } => {
                lemma_masked_small(dest.index(), 5);
                Register::lemma_index_round_trip(dest);
                Immediate19::lemma_bits_round_trip(value);
            },
            _ => {},
        }
        Instruction::lemma_values_round_trip(Mnemonic::Li, instruction.operand_values());
    }


    /// The raw values that fit an instruction's fields come back, with the
    /// opcode, from the word they were packed into.
    pub proof fn lemma_values_round_trip(mnemonic: Mnemonic, values: Seq<u32>)
        requires
            values_fit(layout(mnemonic), values),
        ensures
            opcode_of(packed(mnemonic.code(), layout(mnemonic), values, values.len() as int))
                == mnemonic.code(),
            unpacked(
                layout(mnemonic),
                packed(mnemonic.code(), layout(mnemonic), values, values.len() as int),
            ) == values,
    {
        lemma_layout_fits(mnemonic);
        lemma_unpack_packed(mnemonic.code(), layout(mnemonic), values);
    }

    /// Decoding fails on an unknown opcode and on nothing else: behind a
    /// known opcode every field holds a register or an immediate in range.
    pub proof fn lemma_decoding(word: u32)
        ensures
            Instruction::decoding(word) is Err <==> Mnemonic::of_opcode(opcode_of(word)) is None,
            Instruction::decoding(word) is Ok ==> Instruction::decoding(word)->Ok_0.wf(),
            Instruction::decoding(word) is Ok ==> Instruction::decoding(word)->Ok_0.mnemonic_of().code()
                == opcode_of(word),
    {
        match Mnemonic::of_opcode(opcode_of(word)) {
            None => {},
            Some(mnemonic) => {
                Instruction::lemma_assembled(mnemonic, word);
            },
        }
    }

    /// The fields of any word hold operands of any instruction: registers
    /// where it has registers, immediates in range where it has immediates.
    pub proof fn lemma_assembled(mnemonic: Mnemonic, word: u32)
        ensures
            Instruction::assembled(mnemonic, unpacked(layout(mnemonic), word)) is Ok,
            Instruction::assembled(mnemonic, unpacked(layout(mnemonic), word))->Ok_0.wf(),
            Instruction::assembled(mnemonic, unpacked(layout(mnemonic), word))->Ok_0.mnemonic_of()
                == mnemonic,
    {
        lemma_mask_values();
        reveal_with_fuel(offset_of, 4);
        lemma_masked_bound(word >> 8, 5);
        lemma_masked_bound(word >> 13, 5);
        lemma_masked_bound(word >> 18, 5);
        Register::lemma_of_index(extract(word, 8, 5));
        Register::lemma_of_index(extract(word, 13, 5));
        Register::lemma_of_index(extract(word, 18, 5));
        Immediate14::lemma_from_raw(extract(word, 18, 14));
        Immediate19::lemma_from_raw(extract(word, 13, 19));
    }

}

impl From<&Instruction> for u32 {
    fn from(instruction: &Instruction) -> (word: u32) {
        instruction.encode()
    }
}

impl FromSpecImpl<&Instruction> for u32 {
    open spec fn obeys_from_spec() -> bool {
        true
    }

    open spec fn from_spec(instruction: &Instruction) -> u32 {
        instruction.encoding()
    }
}

impl TryFrom<u32> for Instruction {
    type Error = DecodeError;

    fn try_from(word: u32) -> (made: Result<Instruction, DecodeError>) {
        Instruction::decode(word)
    }
}

impl TryFromSpecImpl<u32> for Instruction {
    open spec fn obeys_try_from_spec() -> bool {
        true
    }

    open spec fn try_from_spec(word: u32) -> Result<Instruction, DecodeError> {
        Instruction::decoding(word)
    }
}

/// The format class of an instruction.
#[derive(Debug, Clone, Copy, PartialEq, Eq, Hash, Structural)]
pub enum InstructionType {
    /// Register to register arithmetic.
    Arithmetic,
    /// Arithmetic with an immediate.
    IA,
    /// Jump through a register and an immediate.
    IJ,
    /// Load.
    IL,
    /// Store.
    S,
    /// Branch.
    B,
    /// Jump.
    J,
    /// Upper immediate.
    U,
}

} // verus!

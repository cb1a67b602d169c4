//! The instructions of the byte-field instruction set, their layouts and their encoding.
use vstd::prelude::*;
use vstd::std_specs::convert::FromSpecImpl;
use vstd::std_specs::convert::TryFromSpecImpl;
use crate::codec::Codec;
use crate::codec::DecodeError;
use crate::codec::Field;
use crate::codec::FieldKind;
use crate::codec::SchemaEntry;
use crate::codec::layout_fits;
use crate::codec::offset_of;
use crate::codec::clear_from;
use crate::codec::packed;
use crate::codec::unpacked;
use crate::codec::opcode_of;
use crate::codec::values_fit;
use crate::codec::pack;
use crate::codec::unpack;
use crate::codec::opcode_bits;
use crate::codec::lemma_unpack_packed;
use crate::codec::lemma_masked_small;
use crate::codec::lemma_mask_values;
use crate::vm::operand::Imm8;
use crate::vm::operand::Imm16;
use crate::vm::register::Register;
use crate::vm::register::REGISTER_BITS;

verus! {

/// The name of an instruction: what selects its opcode and layout.
#[derive(Debug, Clone, Copy, PartialEq, Eq, Hash, Structural)]
pub enum Mnemonic {
    Nop,
    Add,
    Sub,
    Mul,
    And,
    Or,
    Xor,
    Shl,
    Shr,
    ShrA,
    AddI,
    LoadWord,
    StoreWord,
    Syscall,
}

impl Mnemonic {
    /// The opcode of the instruction.
    pub open spec fn code(&self) -> u8 {
        match self {
            Mnemonic::Nop => 0xff,
            Mnemonic::Add => 0x1,
            Mnemonic::Sub => 0x2,
            Mnemonic::Mul => 0x3,
            Mnemonic::And => 0x4,
            Mnemonic::Or => 0x5,
            Mnemonic::Xor => 0x6,
            Mnemonic::Shl => 0x7,
            Mnemonic::Shr => 0x8,
            Mnemonic::ShrA => 0x9,
            Mnemonic::AddI => 0x13,
            Mnemonic::LoadWord => 0xc,
            Mnemonic::StoreWord => 0xd,
            Mnemonic::Syscall => 0x73,
        }
    }

    /// The instruction that has the given opcode, if one has.
    pub open spec fn of_opcode(opcode: u8) -> Option<Mnemonic> {
        if opcode == 0xff {
            Some(Mnemonic::Nop)
        } else if opcode == 0x1 {
            Some(Mnemonic::Add)
        } else if opcode == 0x2 {
            Some(Mnemonic::Sub)
        } else if opcode == 0x3 {
            Some(Mnemonic::Mul)
        } else if opcode == 0x4 {
            Some(Mnemonic::And)
        } else if opcode == 0x5 {
            Some(Mnemonic::Or)
        } else if opcode == 0x6 {
            Some(Mnemonic::Xor)
        } else if opcode == 0x7 {
            Some(Mnemonic::Shl)
        } else if opcode == 0x8 {
            Some(Mnemonic::Shr)
        } else if opcode == 0x9 {
            Some(Mnemonic::ShrA)
        } else if opcode == 0x13 {
            Some(Mnemonic::AddI)
        } else if opcode == 0xc {
            Some(Mnemonic::LoadWord)
        } else if opcode == 0xd {
            Some(Mnemonic::StoreWord)
        } else if opcode == 0x73 {
            Some(Mnemonic::Syscall)
        } else {
            None
        }
    }

    /// Computes [`Mnemonic::code`]; the opcode leads back to the mnemonic.
    pub fn opcode(&self) -> (opcode: u8)
        ensures
            opcode == self.code(),
            Mnemonic::of_opcode(opcode) == Some(*self),
    {
        match self {
            Mnemonic::Nop => 0xff,
            Mnemonic::Add => 0x1,
            Mnemonic::Sub => 0x2,
            Mnemonic::Mul => 0x3,
            Mnemonic::And => 0x4,
            Mnemonic::Or => 0x5,
            Mnemonic::Xor => 0x6,
            Mnemonic::Shl => 0x7,
            Mnemonic::Shr => 0x8,
            Mnemonic::ShrA => 0x9,
            Mnemonic::AddI => 0x13,
            Mnemonic::LoadWord => 0xc,
            Mnemonic::StoreWord => 0xd,
            Mnemonic::Syscall => 0x73,
        }
    }

    /// Computes [`Mnemonic::of_opcode`]: the mnemonic whose opcode this is,
    /// or nothing where no instruction has the opcode.
    pub fn from_opcode(opcode: u8) -> (mnemonic: Option<Mnemonic>)
        ensures
            mnemonic == Mnemonic::of_opcode(opcode),
            mnemonic is Some ==> mnemonic->Some_0.code() == opcode,
    {
        if opcode == 0xff {
            Some(Mnemonic::Nop)
        } else if opcode == 0x1 {
            Some(Mnemonic::Add)
        } else if opcode == 0x2 {
            Some(Mnemonic::Sub)
        } else if opcode == 0x3 {
            Some(Mnemonic::Mul)
        } else if opcode == 0x4 {
            Some(Mnemonic::And)
        } else if opcode == 0x5 {
            Some(Mnemonic::Or)
        } else if opcode == 0x6 {
            Some(Mnemonic::Xor)
        } else if opcode == 0x7 {
            Some(Mnemonic::Shl)
        } else if opcode == 0x8 {
            Some(Mnemonic::Shr)
        } else if opcode == 0x9 {
            Some(Mnemonic::ShrA)
        } else if opcode == 0x13 {
            Some(Mnemonic::AddI)
        } else if opcode == 0xc {
            Some(Mnemonic::LoadWord)
        } else if opcode == 0xd {
            Some(Mnemonic::StoreWord)
        } else if opcode == 0x73 {
            Some(Mnemonic::Syscall)
        } else {
            None
        }
    }
}

/// A register field of the given name.
pub open spec fn register_field(name: &'static str) -> Field {
    Field { name, width: REGISTER_BITS, kind: FieldKind::Register }
}

/// An immediate field of the given name and width.
pub open spec fn immediate_field(name: &'static str, width: u32) -> Field {
    Field { name, width, kind: FieldKind::Immediate }
}

fn new_register_field(name: &'static str) -> (field: Field)
    ensures
        field == register_field(name),
{
    Field { name, width: REGISTER_BITS, kind: FieldKind::Register }
}

fn new_immediate_field(name: &'static str, width: u32) -> (field: Field)
    ensures
        field == immediate_field(name, width),
{
    Field { name, width, kind: FieldKind::Immediate }
}

/// The fields of each instruction, in packing order: the table that both
/// directions of the encoding go by.
pub open spec fn layout(mnemonic: Mnemonic) -> Seq<Field> {
    match mnemonic {
        Mnemonic::Nop => Seq::<Field>::empty(),
        Mnemonic::Add => seq![
            register_field("dest"),
            register_field("src1"),
            register_field("src2"),
        ],
        Mnemonic::Sub => seq![
            register_field("dest"),
            register_field("src1"),
            register_field("src2"),
        ],
        Mnemonic::Mul => seq![
            register_field("dest"),
            register_field("src1"),
            register_field("src2"),
        ],
        Mnemonic::And => seq![
            register_field("dest"),
            register_field("src1"),
            register_field("src2"),
        ],
        Mnemonic::Or => seq![
            register_field("dest"),
            register_field("src1"),
            register_field("src2"),
        ],
        Mnemonic::Xor => seq![
            register_field("dest"),
            register_field("src1"),
            register_field("src2"),
        ],
        Mnemonic::Shl => seq![
            register_field("dest"),
            register_field("src"),
            register_field("shift"),
        ],
        Mnemonic::Shr => seq![
            register_field("dest"),
            register_field("src"),
            register_field("shift"),
        ],
        Mnemonic::ShrA => seq![
            register_field("dest"),
            register_field("src"),
            register_field("shift"),
        ],
        Mnemonic::AddI => seq![
            register_field("dest"),
            immediate_field("src", 16),
        ],
        Mnemonic::LoadWord => seq![
            register_field("dest"),
            register_field("src"),
            immediate_field("offset", 8),
        ],
        Mnemonic::StoreWord => seq![
            register_field("dest"),
            register_field("src"),
            immediate_field("offset", 8),
        ],
        Mnemonic::Syscall => seq![
            register_field("number"),
        ],
    }
}

/// Every layout fits the word behind the opcode, with at most three fields.
pub proof fn lemma_layout_fits(mnemonic: Mnemonic)
    ensures
        layout_fits(layout(mnemonic)),
        layout(mnemonic).len() <= 3,
{
    reveal_with_fuel(offset_of, 4);
}

/// The schema entry of an instruction: its opcode and its layout. The entry
/// depends on the mnemonic alone.
pub fn schema_for(mnemonic: Mnemonic) -> (entry: SchemaEntry)
    ensures
        entry.opcode == mnemonic.code(),
        entry.fields@ == layout(mnemonic),
        entry.wf(),
{
    let mut fields: Vec<Field> = Vec::new();
    match mnemonic {
        Mnemonic::Nop => {
        },
        Mnemonic::Add => {
            fields.push(new_register_field("dest"));
            fields.push(new_register_field("src1"));
            fields.push(new_register_field("src2"));
        },
        Mnemonic::Sub => {
            fields.push(new_register_field("dest"));
            fields.push(new_register_field("src1"));
            fields.push(new_register_field("src2"));
        },
        Mnemonic::Mul => {
            fields.push(new_register_field("dest"));
            fields.push(new_register_field("src1"));
            fields.push(new_register_field("src2"));
        },
        Mnemonic::And => {
            fields.push(new_register_field("dest"));
            fields.push(new_register_field("src1"));
            fields.push(new_register_field("src2"));
        },
        Mnemonic::Or => {
            fields.push(new_register_field("dest"));
            fields.push(new_register_field("src1"));
            fields.push(new_register_field("src2"));
        },
        Mnemonic::Xor => {
            fields.push(new_register_field("dest"));
            fields.push(new_register_field("src1"));
            fields.push(new_register_field("src2"));
        },
        Mnemonic::Shl => {
            fields.push(new_register_field("dest"));
            fields.push(new_register_field("src"));
            fields.push(new_register_field("shift"));
        },
        Mnemonic::Shr => {
            fields.push(new_register_field("dest"));
            fields.push(new_register_field("src"));
            fields.push(new_register_field("shift"));
        },
        Mnemonic::ShrA => {
            fields.push(new_register_field("dest"));
            fields.push(new_register_field("src"));
            fields.push(new_register_field("shift"));
        },
        Mnemonic::AddI => {
            fields.push(new_register_field("dest"));
            fields.push(new_immediate_field("src", 16));
        },
        Mnemonic::LoadWord => {
            fields.push(new_register_field("dest"));
            fields.push(new_register_field("src"));
            fields.push(new_immediate_field("offset", 8));
        },
        Mnemonic::StoreWord => {
            fields.push(new_register_field("dest"));
            fields.push(new_register_field("src"));
            fields.push(new_immediate_field("offset", 8));
        },
        Mnemonic::Syscall => {
            fields.push(new_register_field("number"));
        },
    }
    proof {
        lemma_layout_fits(mnemonic);
        assert(fields@ =~= layout(mnemonic));
    }
    SchemaEntry { opcode: mnemonic.opcode(), fields }
}

/// Two entries of one mnemonic are the same entry: the same opcode and the
/// same fields.
pub proof fn lemma_schema_resolution_stable(
    mnemonic: Mnemonic,
    first: SchemaEntry,
    second: SchemaEntry,
)
    requires
        first.opcode == mnemonic.code(),
        first.fields@ == layout(mnemonic),
        second.opcode == mnemonic.code(),
        second.fields@ == layout(mnemonic),
    ensures
        first.opcode == second.opcode,
        first.fields@ == second.fields@,
        first.wf() && second.wf(),
{
    lemma_layout_fits(mnemonic);
}

/// An instruction with its operands.
#[allow(inconsistent_fields)]
#[derive(Debug, Clone, Copy, PartialEq, Eq, Structural)]
pub enum Instruction {
    Nop,
    Add { dest: Register, src1: Register, src2: Register },
    Sub { dest: Register, src1: Register, src2: Register },
    Mul { dest: Register, src1: Register, src2: Register },
    And { dest: Register, src1: Register, src2: Register },
    Or { dest: Register, src1: Register, src2: Register },
    Xor { dest: Register, src1: Register, src2: Register },
    /// Shift left.
    Shl { dest: Register, src: Register, shift: Register },
    /// Shift right, logical.
    Shr { dest: Register, src: Register, shift: Register },
    /// Shift right, arithmetic.
    ShrA { dest: Register, src: Register, shift: Register },
    /// Add immediate.
    AddI { dest: Register, src: Imm16 },
    LoadWord { dest: Register, src: Register, offset: Imm8 },
    StoreWord { dest: Register, src: Register, offset: Imm8 },
    Syscall { number: Register },
}

impl Instruction {
    /// The instruction's name.
    pub open spec fn mnemonic_of(&self) -> Mnemonic {
        match self {
            Instruction::Nop => Mnemonic::Nop,
            Instruction::Add { .. } => Mnemonic::Add,
            Instruction::Sub { .. } => Mnemonic::Sub,
            Instruction::Mul { .. } => Mnemonic::Mul,
            Instruction::And { .. } => Mnemonic::And,
            Instruction::Or { .. } => Mnemonic::Or,
            Instruction::Xor { .. } => Mnemonic::Xor,
            Instruction::Shl { .. } => Mnemonic::Shl,
            Instruction::Shr { .. } => Mnemonic::Shr,
            Instruction::ShrA { .. } => Mnemonic::ShrA,
            Instruction::AddI { .. } => Mnemonic::AddI,
            Instruction::LoadWord { .. } => Mnemonic::LoadWord,
            Instruction::StoreWord { .. } => Mnemonic::StoreWord,
            Instruction::Syscall { .. } => Mnemonic::Syscall,
        }
    }

    /// The raw value of each operand, in declared order: a register's
    /// number, an immediate's bit pattern.
    pub open spec fn operand_values(&self) -> Seq<u32> {
        match self {
            Instruction::Nop => Seq::<u32>::empty(),
            Instruction::Add { dest, src1, src2 } => seq![dest.raw(), src1.raw(), src2.raw()],
            Instruction::Sub { dest, src1, src2 } => seq![dest.raw(), src1.raw(), src2.raw()],
            Instruction::Mul { dest, src1, src2 } => seq![dest.raw(), src1.raw(), src2.raw()],
            Instruction::And { dest, src1, src2 } => seq![dest.raw(), src1.raw(), src2.raw()],
            Instruction::Or { dest, src1, src2 } => seq![dest.raw(), src1.raw(), src2.raw()],
            Instruction::Xor { dest, src1, src2 } => seq![dest.raw(), src1.raw(), src2.raw()],
            Instruction::Shl { dest, src, shift } => seq![dest.raw(), src.raw(), shift.raw()],
            Instruction::Shr { dest, src, shift } => seq![dest.raw(), src.raw(), shift.raw()],
            Instruction::ShrA { dest, src, shift } => seq![dest.raw(), src.raw(), shift.raw()],
            Instruction::AddI { dest, src } => seq![dest.raw(), src.raw()],
            Instruction::LoadWord { dest, src, offset } => seq![dest.raw(), src.raw(), offset.raw()],
            Instruction::StoreWord { dest, src, offset } => seq![dest.raw(), src.raw(), offset.raw()],
            Instruction::Syscall { number } => seq![number.raw()],
        }
    }

    /// The word of the instruction: the opcode in the low byte, and above it
    /// each operand in its field of the layout.
    pub open spec fn encoding(&self) -> u32 {
        packed(
            self.mnemonic_of().code(),
            layout(self.mnemonic_of()),
            self.operand_values(),
            layout(self.mnemonic_of()).len() as int,
        )
    }

    /// The instruction of the given name whose operands have the given raw
    /// values, or the error of the first operand that has none.
    pub open spec fn assembled(mnemonic: Mnemonic, values: Seq<u32>) -> Result<
        Instruction,
        DecodeError,
    > {
        match mnemonic {
            Mnemonic::Nop => Ok(Instruction::Nop),
            Mnemonic::Add => match (
                <Register as Codec>::from_raw(values[0]),
                <Register as Codec>::from_raw(values[1]),
                <Register as Codec>::from_raw(values[2]),
            ) {
                (Ok(dest), Ok(src1), Ok(src2)) => Ok(Instruction::Add { dest, src1, src2 }),
                (Err(e), _, _) => Err(e),
                (_, Err(e), _) => Err(e),
                (_, _, Err(e)) => Err(e),
            },
            Mnemonic::Sub => match (
                <Register as Codec>::from_raw(values[0]),
                <Register as Codec>::from_raw(values[1]),
                <Register as Codec>::from_raw(values[2]),
            ) {
                (Ok(dest), Ok(src1), Ok(src2)) => Ok(Instruction::Sub { dest, src1, src2 }),
                (Err(e), _, _) => Err(e),
                (_, Err(e), _) => Err(e),
                (_, _, Err(e)) => Err(e),
            },
            Mnemonic::Mul => match (
                <Register as Codec>::from_raw(values[0]),
                <Register as Codec>::from_raw(values[1]),
                <Register as Codec>::from_raw(values[2]),
            ) {
                (Ok(dest), Ok(src1), Ok(src2)) => Ok(Instruction::Mul { dest, src1, src2 }),
                (Err(e), _, _) => Err(e),
                (_, Err(e), _) => Err(e),
                (_, _, Err(e)) => Err(e),
            },
            Mnemonic::And => match (
                <Register as Codec>::from_raw(values[0]),
                <Register as Codec>::from_raw(values[1]),
                <Register as Codec>::from_raw(values[2]),
            ) {
                (Ok(dest), Ok(src1), Ok(src2)) => Ok(Instruction::And { dest, src1, src2 }),
                (Err(e), _, _) => Err(e),
                (_, Err(e), _) => Err(e),
                (_, _, Err(e)) => Err(e),
            },
            Mnemonic::Or => match (
                <Register as Codec>::from_raw(values[0]),
                <Register as Codec>::from_raw(values[1]),
                <Register as Codec>::from_raw(values[2]),
            ) {
                (Ok(dest), Ok(src1), Ok(src2)) => Ok(Instruction::Or { dest, src1, src2 }),
                (Err(e), _, _) => Err(e),
                (_, Err(e), _) => Err(e),
                (_, _, Err(e)) => Err(e),
            },
            Mnemonic::Xor => match (
                <Register as Codec>::from_raw(values[0]),
                <Register as Codec>::from_raw(values[1]),
                <Register as Codec>::from_raw(values[2]),
            ) {
                (Ok(dest), Ok(src1), Ok(src2)) => Ok(Instruction::Xor { dest, src1, src2 }),
                (Err(e), _, _) => Err(e),
                (_, Err(e), _) => Err(e),
                (_, _, Err(e)) => Err(e),
            },
            Mnemonic::Shl => match (
                <Register as Codec>::from_raw(values[0]),
                <Register as Codec>::from_raw(values[1]),
                <Register as Codec>::from_raw(values[2]),
            ) {
                (Ok(dest), Ok(src), Ok(shift)) => Ok(Instruction::Shl { dest, src, shift }),
                (Err(e), _, _) => Err(e),
                (_, Err(e), _) => Err(e),
                (_, _, Err(e)) => Err(e),
            },
            Mnemonic::Shr => match (
                <Register as Codec>::from_raw(values[0]),
                <Register as Codec>::from_raw(values[1]),
                <Register as Codec>::from_raw(values[2]),
            ) {
                (Ok(dest), Ok(src), Ok(shift)) => Ok(Instruction::Shr { dest, src, shift }),
                (Err(e), _, _) => Err(e),
                (_, Err(e), _) => Err(e),
                (_, _, Err(e)) => Err(e),
            },
            Mnemonic::ShrA => match (
                <Register as Codec>::from_raw(values[0]),
                <Register as Codec>::from_raw(values[1]),
                <Register as Codec>::from_raw(values[2]),
            ) {
                (Ok(dest), Ok(src), Ok(shift)) => Ok(Instruction::ShrA { dest, src, shift }),
                (Err(e), _, _) => Err(e),
                (_, Err(e), _) => Err(e),
                (_, _, Err(e)) => Err(e),
            },
            Mnemonic::AddI => match (
                <Register as Codec>::from_raw(values[0]),
                <Imm16 as Codec>::from_raw(values[1]),
            ) {
                (Ok(dest), Ok(src)) => Ok(Instruction::AddI { dest, src }),
                (Err(e), _) => Err(e),
                (_, Err(e)) => Err(e),
            },
            Mnemonic::LoadWord => match (
                <Register as Codec>::from_raw(values[0]),
                <Register as Codec>::from_raw(values[1]),
                <Imm8 as Codec>::from_raw(values[2]),
            ) {
                (Ok(dest), Ok(src), Ok(offset)) => Ok(Instruction::LoadWord { dest, src, offset }),
                (Err(e), _, _) => Err(e),
                (_, Err(e), _) => Err(e),
                (_, _, Err(e)) => Err(e),
            },
            Mnemonic::StoreWord => match (
                <Register as Codec>::from_raw(values[0]),
                <Register as Codec>::from_raw(values[1]),
                <Imm8 as Codec>::from_raw(values[2]),
            ) {
                (Ok(dest), Ok(src), Ok(offset)) => Ok(Instruction::StoreWord { dest, src, offset }),
                (Err(e), _, _) => Err(e),
                (_, Err(e), _) => Err(e),
                (_, _, Err(e)) => Err(e),
            },
            Mnemonic::Syscall => match (
                <Register as Codec>::from_raw(values[0]),
            ) {
                (Ok(number),) => Ok(Instruction::Syscall { number }),
                (Err(e),) => Err(e),
            },
        }
    }

    /// What a word decodes to: the instruction that its low byte names, with
    /// the operands read from the fields of its layout, or the error.
    pub open spec fn decoding(word: u32) -> Result<Instruction, DecodeError> {
        match Mnemonic::of_opcode(opcode_of(word)) {
            None => Err(DecodeError::UnknownOpcode(opcode_of(word))),
            Some(mnemonic) => Instruction::assembled(mnemonic, unpacked(layout(mnemonic), word)),
        }
    }

    /// Computes [`Instruction::mnemonic_of`].
    pub fn mnemonic(&self) -> (mnemonic: Mnemonic)
        ensures
            mnemonic == self.mnemonic_of(),
    {
        match self {
            Instruction::Nop => Mnemonic::Nop,
            Instruction::Add { .. } => Mnemonic::Add,
            Instruction::Sub { .. } => Mnemonic::Sub,
            Instruction::Mul { .. } => Mnemonic::Mul,
            Instruction::And { .. } => Mnemonic::And,
            Instruction::Or { .. } => Mnemonic::Or,
            Instruction::Xor { .. } => Mnemonic::Xor,
            Instruction::Shl { .. } => Mnemonic::Shl,
            Instruction::Shr { .. } => Mnemonic::Shr,
            Instruction::ShrA { .. } => Mnemonic::ShrA,
            Instruction::AddI { .. } => Mnemonic::AddI,
            Instruction::LoadWord { .. } => Mnemonic::LoadWord,
            Instruction::StoreWord { .. } => Mnemonic::StoreWord,
            Instruction::Syscall { .. } => Mnemonic::Syscall,
        }
    }

    /// Computes [`Instruction::operand_values`].
    pub fn operands(&self) -> (values: Vec<u32>)
        ensures
            values@ == self.operand_values(),
    {
        let mut values: Vec<u32> = Vec::new();
        match self {
            Instruction::Nop => {
            },
            Instruction::Add { dest, src1, src2 } => {
                values.push(dest.to_raw());
                values.push(src1.to_raw());
                values.push(src2.to_raw());
            },
            Instruction::Sub { dest, src1, src2 } => {
                values.push(dest.to_raw());
                values.push(src1.to_raw());
                values.push(src2.to_raw());
            },
            Instruction::Mul { dest, src1, src2 } => {
                values.push(dest.to_raw());
                values.push(src1.to_raw());
                values.push(src2.to_raw());
            },
            Instruction::And { dest, src1, src2 } => {
                values.push(dest.to_raw());
                values.push(src1.to_raw());
                values.push(src2.to_raw());
            },
            Instruction::Or { dest, src1, src2 } => {
                values.push(dest.to_raw());
                values.push(src1.to_raw());
                values.push(src2.to_raw());
            },
            Instruction::Xor { dest, src1, src2 } => {
                values.push(dest.to_raw());
                values.push(src1.to_raw());
                values.push(src2.to_raw());
            },
            Instruction::Shl { dest, src, shift } => {
                values.push(dest.to_raw());
                values.push(src.to_raw());
                values.push(shift.to_raw());
            },
            Instruction::Shr { dest, src, shift } => {
                values.push(dest.to_raw());
                values.push(src.to_raw());
                values.push(shift.to_raw());
            },
            Instruction::ShrA { dest, src, shift } => {
                values.push(dest.to_raw());
                values.push(src.to_raw());
                values.push(shift.to_raw());
            },
            Instruction::AddI { dest, src } => {
                values.push(dest.to_raw());
                values.push(src.to_raw());
            },
            Instruction::LoadWord { dest, src, offset } => {
                values.push(dest.to_raw());
                values.push(src.to_raw());
                values.push(offset.to_raw());
            },
            Instruction::StoreWord { dest, src, offset } => {
                values.push(dest.to_raw());
                values.push(src.to_raw());
                values.push(offset.to_raw());
            },
            Instruction::Syscall { number } => {
                values.push(number.to_raw());
            },
        }
        assert(values@ =~= self.operand_values());
        values
    }

    /// Encodes the instruction: the word is [`Instruction::encoding`], its low
    /// byte is the opcode, the bits above the last field are zero, and it
    /// decodes to this instruction again.
    pub fn encode(&self) -> (word: u32)
        ensures
            word == self.encoding(),
            opcode_of(word) == self.mnemonic_of().code(),
            clear_from(
                word,
                offset_of(layout(self.mnemonic_of()), layout(self.mnemonic_of()).len() as int),
            ),
            Instruction::decoding(word) == Ok::<Instruction, DecodeError>(*self),
    {
        let mnemonic = self.mnemonic();
        let entry = schema_for(mnemonic);
        let values = self.operands();
        proof {
            lemma_layout_fits(mnemonic);
            Instruction::lemma_round_trip(*self);
        }
        pack(&entry, &values)
    }

    /// Builds the instruction of the given name from the raw values of its
    /// operands.
    pub fn assemble(mnemonic: Mnemonic, values: &Vec<u32>) -> (made: Result<
        Instruction,
        DecodeError,
    >)
        requires
            values.len() == layout(mnemonic).len(),
        ensures
            made == Instruction::assembled(mnemonic, values@),
    {
        match mnemonic {
            Mnemonic::Nop => Ok(Instruction::Nop),
            Mnemonic::Add => match (
                Register::try_from_raw(values[0]),
                Register::try_from_raw(values[1]),
                Register::try_from_raw(values[2]),
            ) {
                (Ok(dest), Ok(src1), Ok(src2)) => Ok(Instruction::Add { dest, src1, src2 }),
                (Err(e), _, _) => Err(e),
                (_, Err(e), _) => Err(e),
                (_, _, Err(e)) => Err(e),
            },
            Mnemonic::Sub => match (
                Register::try_from_raw(values[0]),
                Register::try_from_raw(values[1]),
                Register::try_from_raw(values[2]),
            ) {
                (Ok(dest), Ok(src1), Ok(src2)) => Ok(Instruction::Sub { dest, src1, src2 }),
                (Err(e), _, _) => Err(e),
                (_, Err(e), _) => Err(e),
                (_, _, Err(e)) => Err(e),
            },
            Mnemonic::Mul => match (
                Register::try_from_raw(values[0]),
                Register::try_from_raw(values[1]),
                Register::try_from_raw(values[2]),
            ) {
                (Ok(dest), Ok(src1), Ok(src2)) => Ok(Instruction::Mul { dest, src1, src2 }),
                (Err(e), _, _) => Err(e),
                (_, Err(e), _) => Err(e),
                (_, _, Err(e)) => Err(e),
            },
            Mnemonic::And => match (
                Register::try_from_raw(values[0]),
                Register::try_from_raw(values[1]),
                Register::try_from_raw(values[2]),
            ) {
                (Ok(dest), Ok(src1), Ok(src2)) => Ok(Instruction::And { dest, src1, src2 }),
                (Err(e), _, _) => Err(e),
                (_, Err(e), _) => Err(e),
                (_, _, Err(e)) => Err(e),
            },
            Mnemonic::Or => match (
                Register::try_from_raw(values[0]),
                Register::try_from_raw(values[1]),
                Register::try_from_raw(values[2]),
            ) {
                (Ok(dest), Ok(src1), Ok(src2)) => Ok(Instruction::Or { dest, src1, src2 }),
                (Err(e), _, _) => Err(e),
                (_, Err(e), _) => Err(e),
                (_, _, Err(e)) => Err(e),
            },
            Mnemonic::Xor => match (
                Register::try_from_raw(values[0]),
                Register::try_from_raw(values[1]),
                Register::try_from_raw(values[2]),
            ) {
                (Ok(dest), Ok(src1), Ok(src2)) => Ok(Instruction::Xor { dest, src1, src2 }),
                (Err(e), _, _) => Err(e),
                (_, Err(e), _) => Err(e),
                (_, _, Err(e)) => Err(e),
            },
            Mnemonic::Shl => match (
                Register::try_from_raw(values[0]),
                Register::try_from_raw(values[1]),
                Register::try_from_raw(values[2]),
            ) {
                (Ok(dest), Ok(src), Ok(shift)) => Ok(Instruction::Shl { dest, src, shift }),
                (Err(e), _, _) => Err(e),
                (_, Err(e), _) => Err(e),
                (_, _, Err(e)) => Err(e),
            },
            Mnemonic::Shr => match (
                Register::try_from_raw(values[0]),
                Register::try_from_raw(values[1]),
                Register::try_from_raw(values[2]),
            ) {
                (Ok(dest), Ok(src), Ok(shift)) => Ok(Instruction::Shr { dest, src, shift }),
                (Err(e), _, _) => Err(e),
                (_, Err(e), _) => Err(e),
                (_, _, Err(e)) => Err(e),
            },
            Mnemonic::ShrA => match (
                Register::try_from_raw(values[0]),
                Register::try_from_raw(values[1]),
                Register::try_from_raw(values[2]),
            ) {
                (Ok(dest), Ok(src), Ok(shift)) => Ok(Instruction::ShrA { dest, src, shift }),
                (Err(e), _, _) => Err(e),
                (_, Err(e), _) => Err(e),
                (_, _, Err(e)) => Err(e),
            },
            Mnemonic::AddI => match (
                Register::try_from_raw(values[0]),
                Imm16::try_from_raw(values[1]),
            ) {
                (Ok(dest), Ok(src)) => Ok(Instruction::AddI { dest, src }),
                (Err(e), _) => Err(e),
                (_, Err(e)) => Err(e),
            },
            Mnemonic::LoadWord => match (
                Register::try_from_raw(values[0]),
                Register::try_from_raw(values[1]),
                Imm8::try_from_raw(values[2]),
            ) {
                (Ok(dest), Ok(src), Ok(offset)) => Ok(Instruction::LoadWord { dest, src, offset }),
                (Err(e), _, _) => Err(e),
                (_, Err(e), _) => Err(e),
                (_, _, Err(e)) => Err(e),
            },
            Mnemonic::StoreWord => match (
                Register::try_from_raw(values[0]),
                Register::try_from_raw(values[1]),
                Imm8::try_from_raw(values[2]),
            ) {
                (Ok(dest), Ok(src), Ok(offset)) => Ok(Instruction::StoreWord { dest, src, offset }),
                (Err(e), _, _) => Err(e),
                (_, Err(e), _) => Err(e),
                (_, _, Err(e)) => Err(e),
            },
            Mnemonic::Syscall => match (
                Register::try_from_raw(values[0]),
            ) {
                (Ok(number),) => Ok(Instruction::Syscall { number }),
                (Err(e),) => Err(e),
            },
        }
    }

    /// Decodes a word. A low byte that is no instruction's opcode gives
    /// `UnknownOpcode` with that byte, whatever the other bits are; else the
    /// operands are read from the fields of the instruction's layout.
    pub fn decode(word: u32) -> (made: Result<Instruction, DecodeError>)
        ensures
            made == Instruction::decoding(word),
            Mnemonic::of_opcode(opcode_of(word)) is None ==> made == Err::<Instruction, DecodeError>(
                DecodeError::UnknownOpcode(opcode_of(word)),
            ),
    {
        let opcode = opcode_bits(word);
        match Mnemonic::from_opcode(opcode) {
            None => Err(DecodeError::UnknownOpcode(opcode)),
            Some(mnemonic) => {
                let entry = schema_for(mnemonic);
                let values = unpack(&entry, word);
                proof {
                    Instruction::lemma_decoding(word);
                }
                Instruction::assemble(mnemonic, &values)
            },
        }
    }

    /// Decoding undoes encoding: the word of an instruction decodes to that
    /// instruction, for every instruction.
    pub proof fn lemma_round_trip(instruction: Instruction)
        ensures
            opcode_of(instruction.encoding()) == instruction.mnemonic_of().code(),
            Instruction::decoding(instruction.encoding()) == Ok::<Instruction, DecodeError>(
                instruction,
            ),
    {
        match instruction {
            Instruction::Nop => Instruction::lemma_round_trip_nop(instruction),
            Instruction::Add { .. } => Instruction::lemma_round_trip_add(instruction),
            Instruction::Sub { .. } => Instruction::lemma_round_trip_sub(instruction),
            Instruction::Mul { .. } => Instruction::lemma_round_trip_mul(instruction),
            Instruction::And { .. } => Instruction::lemma_round_trip_and(instruction),
            Instruction::Or { .. } => Instruction::lemma_round_trip_or(instruction),
            Instruction::Xor { .. } => Instruction::lemma_round_trip_xor(instruction),
            Instruction::Shl { .. } => Instruction::lemma_round_trip_shl(instruction),
            Instruction::Shr { .. } => Instruction::lemma_round_trip_shr(instruction),
            Instruction::ShrA { .. } => Instruction::lemma_round_trip_shr_a(instruction),
            Instruction::AddI { .. } => Instruction::lemma_round_trip_add_i(instruction),
            Instruction::LoadWord { .. } => Instruction::lemma_round_trip_load_word(instruction),
            Instruction::StoreWord { .. } => Instruction::lemma_round_trip_store_word(instruction),
            Instruction::Syscall { .. } => Instruction::lemma_round_trip_syscall(instruction),
        }
    }

    proof fn lemma_round_trip_nop(instruction: Instruction)
        requires
            instruction is Nop,
        ensures
            opcode_of(instruction.encoding()) == instruction.mnemonic_of().code(),
            Instruction::decoding(instruction.encoding()) == Ok::<Instruction, DecodeError>(
                instruction,
            ),
    {
        lemma_mask_values();
        match instruction {
            Instruction::Nop => {
            },
            _ => {},
        }
        Instruction::lemma_values_round_trip(Mnemonic::Nop, instruction.operand_values());
    }

    proof fn lemma_round_trip_add(instruction: Instruction)
        requires
            instruction is Add,
        ensures
            opcode_of(instruction.encoding()) == instruction.mnemonic_of().code(),
            Instruction::decoding(instruction.encoding()) == Ok::<Instruction, DecodeError>(
                instruction,
            ),
    {
        lemma_mask_values();
        match instruction {
            Instruction::Add { dest, src1, src2 } => {
                lemma_masked_small(dest.index(), 8);
                Register::lemma_index_round_trip(dest);
                lemma_masked_small(src1.index(), 8);
                Register::lemma_index_round_trip(src1);
                lemma_masked_small(src2.index(), 8);
                Register::lemma_index_round_trip(src2);
            },
            _ => {},
        }
        Instruction::lemma_values_round_trip(Mnemonic::Add, instruction.operand_values());
    }

    proof fn lemma_round_trip_sub(instruction: Instruction)
        requires
            instruction is Sub,
        ensures
            opcode_of(instruction.encoding()) == instruction.mnemonic_of().code(),
            Instruction::decoding(instruction.encoding()) == Ok::<Instruction, DecodeError>(
                instruction,
            ),
    {
        lemma_mask_values();
        match instruction {
            Instruction::Sub { dest, src1, src2 } => {
                lemma_masked_small(dest.index(), 8);
                Register::lemma_index_round_trip(dest);
                lemma_masked_small(src1.index(), 8);
                Register::lemma_index_round_trip(src1);
                lemma_masked_small(src2.index(), 8);
                Register::lemma_index_round_trip(src2);
            },
            _ => {},
        }
        Instruction::lemma_values_round_trip(Mnemonic::Sub, instruction.operand_values());
    }

    proof fn lemma_round_trip_mul(instruction: Instruction)
        requires
            instruction is Mul,
        ensures
            opcode_of(instruction.encoding()) == instruction.mnemonic_of().code(),
            Instruction::decoding(instruction.encoding()) == Ok::<Instruction, DecodeError>(
                instruction,
            ),
    {
        lemma_mask_values();
        match instruction {
            Instruction::Mul { dest, src1, src2 } => {
                lemma_masked_small(dest.index(), 8);
                Register::lemma_index_round_trip(dest);
                lemma_masked_small(src1.index(), 8);
                Register::lemma_index_round_trip(src1);
                lemma_masked_small(src2.index(), 8);
                Register::lemma_index_round_trip(src2);
            },
            _ => {},
        }
        Instruction::lemma_values_round_trip(Mnemonic::Mul, instruction.operand_values());
    }

    proof fn lemma_round_trip_and(instruction: Instruction)
        requires
            instruction is And,
        ensures
            opcode_of(instruction.encoding()) == instruction.mnemonic_of().code(),
            Instruction::decoding(instruction.encoding()) == Ok::<Instruction, DecodeError>(
                instruction,
            ),
    {
        lemma_mask_values();
        match instruction {
            Instruction::And { dest, src1, src2 } => {
                lemma_masked_small(dest.index(), 8);
                Register::lemma_index_round_trip(dest);
                lemma_masked_small(src1.index(), 8);
                Register::lemma_index_round_trip(src1);
                lemma_masked_small(src2.index(), 8);
                Register::lemma_index_round_trip(src2);
            },
            _ => {},
        }
        Instruction::lemma_values_round_trip(Mnemonic::And, instruction.operand_values());
    }

    proof fn lemma_round_trip_or(instruction: Instruction)
        requires
            instruction is Or,
        ensures
            opcode_of(instruction.encoding()) == instruction.mnemonic_of().code(),
            Instruction::decoding(instruction.encoding()) == Ok::<Instruction, DecodeError>(
                instruction,
            ),
    {
        lemma_mask_values();
        match instruction {
            Instruction::Or { dest, src1, src2 } => {
                lemma_masked_small(dest.index(), 8);
                Register::lemma_index_round_trip(dest);
                lemma_masked_small(src1.index(), 8);
                Register::lemma_index_round_trip(src1);
                lemma_masked_small(src2.index(), 8);
                Register::lemma_index_round_trip(src2);
            },
            _ => {},
        }
        Instruction::lemma_values_round_trip(Mnemonic::Or, instruction.operand_values());
    }

    proof fn lemma_round_trip_xor(instruction: Instruction)
        requires
            instruction is Xor,
        ensures
            opcode_of(instruction.encoding()) == instruction.mnemonic_of().code(),
            Instruction::decoding(instruction.encoding()) == Ok::<Instruction, DecodeError>(
                instruction,
            ),
    {
        lemma_mask_values();
        match instruction {
            Instruction::Xor { dest, src1, src2 } => {
                lemma_masked_small(dest.index(), 8);
                Register::lemma_index_round_trip(dest);
                lemma_masked_small(src1.index(), 8);
                Register::lemma_index_round_trip(src1);
                lemma_masked_small(src2.index(), 8);
                Register::lemma_index_round_trip(src2);
            },
            _ => {},
        }
        Instruction::lemma_values_round_trip(Mnemonic::Xor, instruction.operand_values());
    }

    proof fn lemma_round_trip_shl(instruction: Instruction)
        requires
            instruction is Shl,
        ensures
            opcode_of(instruction.encoding()) == instruction.mnemonic_of().code(),
            Instruction::decoding(instruction.encoding()) == Ok::<Instruction, DecodeError>(
                instruction,
            ),
    {
        lemma_mask_values();
        match instruction {
            Instruction::Shl { dest, src, shift } => {
                lemma_masked_small(dest.index(), 8);
                Register::lemma_index_round_trip(dest);
                lemma_masked_small(src.index(), 8);
                Register::lemma_index_round_trip(src);
                lemma_masked_small(shift.index(), 8);
                Register::lemma_index_round_trip(shift);
            },
            _ => {},
        }
        Instruction::lemma_values_round_trip(Mnemonic::Shl, instruction.operand_values());
    }

    proof fn lemma_round_trip_shr(instruction: Instruction)
        requires
            instruction is Shr,
        ensures
            opcode_of(instruction.encoding()) == instruction.mnemonic_of().code(),
            Instruction::decoding(instruction.encoding()) == Ok::<Instruction, DecodeError>(
                instruction,
            ),
    {
        lemma_mask_values();
        match instruction {
            Instruction::Shr { dest, src, shift } => {
                lemma_masked_small(dest.index(), 8);
                Register::lemma_index_round_trip(dest);
                lemma_masked_small(src.index(), 8);
                Register::lemma_index_round_trip(src);
                lemma_masked_small(shift.index(), 8);
                Register::lemma_index_round_trip(shift);
            },
            _ => {},
        }
        Instruction::lemma_values_round_trip(Mnemonic::Shr, instruction.operand_values());
    }

    proof fn lemma_round_trip_shr_a(instruction: Instruction)
        requires
            instruction is ShrA,
        ensures
            opcode_of(instruction.encoding()) == instruction.mnemonic_of().code(),
            Instruction::decoding(instruction.encoding()) == Ok::<Instruction, DecodeError>(
                instruction,
            ),
    {
        lemma_mask_values();
        match instruction {
            Instruction::ShrA { dest, src, shift } => {
                lemma_masked_small(dest.index(), 8);
                Register::lemma_index_round_trip(dest);
                lemma_masked_small(src.index(), 8);
                Register::lemma_index_round_trip(src);
                lemma_masked_small(shift.index(), 8);
                Register::lemma_index_round_trip(shift);
            },
            _ => {},
        }
        Instruction::lemma_values_round_trip(Mnemonic::ShrA, instruction.operand_values());
    }

    proof fn lemma_round_trip_add_i(instruction: Instruction)
        requires
            instruction is AddI,
        ensures
            opcode_of(instruction.encoding()) == instruction.mnemonic_of().code(),
            Instruction::decoding(instruction.encoding()) == Ok::<Instruction, DecodeError>(
                instruction,
            ),
    {
        lemma_mask_values();
        match instruction {
            Instruction::AddI { dest, src } => {
                lemma_masked_small(dest.index(), 8);
                Register::lemma_index_round_trip(dest);
                Imm16::lemma_bits_round_trip(src);
            },
            _ => {},
        }
        Instruction::lemma_values_round_trip(Mnemonic::AddI, instruction.operand_values());
    }

    proof fn lemma_round_trip_load_word(instruction: Instruction)
        requires
            instruction is LoadWord,
        ensures
            opcode_of(instruction.encoding()) == instruction.mnemonic_of().code(),
            Instruction::decoding(instruction.encoding()) == Ok::<Instruction, DecodeError>(
                instruction,
            ),
    {
        lemma_mask_values();
        match instruction {
            Instruction::LoadWord { dest, src, offset } => {
                lemma_masked_small(dest.index(), 8);
                Register::lemma_index_round_trip(dest);
                lemma_masked_small(src.index(), 8);
                Register::lemma_index_round_trip(src);
                Imm8::lemma_bits_round_trip(offset);
            },
            _ => {},
        }
        Instruction::lemma_values_round_trip(Mnemonic::LoadWord, instruction.operand_values());
    }

    proof fn lemma_round_trip_store_word(instruction: Instruction)
        requires
            instruction is StoreWord,
        ensures
            opcode_of(instruction.encoding()) == instruction.mnemonic_of().code(),
            Instruction::decoding(instruction.encoding()) == Ok::<Instruction, DecodeError>(
                instruction,
            ),
    {
        lemma_mask_values();
        match instruction {
            Instruction::StoreWord { dest, src, offset } => {
                lemma_masked_small(dest.index(), 8);
                Register::lemma_index_round_trip(dest);
                lemma_masked_small(src.index(), 8);
                Register::lemma_index_round_trip(src);
                Imm8::lemma_bits_round_trip(offset);
            },
            _ => {},
        }
        Instruction::lemma_values_round_trip(Mnemonic::StoreWord, instruction.operand_values());
    }

    proof fn lemma_round_trip_syscall(instruction: Instruction)
        requires
            instruction is Syscall,
        ensures
            opcode_of(instruction.encoding()) == instruction.mnemonic_of().code(),
            Instruction::decoding(instruction.encoding()) == Ok::<Instruction, DecodeError>(
                instruction,
            ),
    {
        lemma_mask_values();
        match instruction {
            Instruction::Syscall { number } => {
                lemma_masked_small(number.index(), 8);
                Register::lemma_index_round_trip(number);
            },
            _ => {},
        }
        Instruction::lemma_values_round_trip(Mnemonic::Syscall, instruction.operand_values());
    }


    /// The raw values that fit an instruction's fields come back, with the
    /// opcode, from the word they were packed into.
    pub proof fn lemma_values_round_trip(mnemonic: Mnemonic, values: Seq<u32>)
        requires
            values_fit(layout(mnemonic), values),
        ensures
            opcode_of(packed(mnemonic.code(), layout(mnemonic), values, values.len() as int))
                == mnemonic.code(),
            unpacked(
                layout(mnemonic),
                packed(mnemonic.code(), layout(mnemonic), values, values.len() as int),
            ) == values,
    {
        lemma_layout_fits(mnemonic);
        lemma_unpack_packed(mnemonic.code(), layout(mnemonic), values);
    }

    /// A decoded instruction has the opcode that the word's low byte holds.
    pub proof fn lemma_decoding(word: u32)
        ensures
            Instruction::decoding(word) is Ok ==> Instruction::decoding(word)->Ok_0.mnemonic_of().code()
                == opcode_of(word),
            Mnemonic::of_opcode(opcode_of(word)) is None ==> Instruction::decoding(word) is Err,
    {
    }

}

impl From<&Instruction> for u32 {
    fn from(instruction: &Instruction) -> (word: u32) {
        instruction.encode()
    }
}

impl FromSpecImpl<&Instruction> for u32 {
    open spec fn obeys_from_spec() -> bool {
        true
    }

    open spec fn from_spec(instruction: &Instruction) -> u32 {
        instruction.encoding()
    }
}

impl TryFrom<u32> for Instruction {
    type Error = DecodeError;

    fn try_from(word: u32) -> (made: Result<Instruction, DecodeError>) {
        Instruction::decode(word)
    }
}

impl TryFromSpecImpl<u32> for Instruction {
    open spec fn obeys_try_from_spec() -> bool {
        true
    }

    open spec fn try_from_spec(word: u32) -> Result<Instruction, DecodeError> {
        Instruction::decoding(word)
    }
}

} // verus!

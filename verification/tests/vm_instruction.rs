use vm_isa::codec::{Codec, DecodeError};
use vm_isa::vm::instruction::{schema_for, Instruction, Mnemonic};
use vm_isa::vm::operand::{Imm16, Imm8};
use vm_isa::vm::register::Register;

#[test]
fn test_opcode() {
    let op1 = u32::from(&Instruction::Nop) as u8;

    assert_eq!(op1.to_le_bytes(), 0xff_u8.to_le_bytes());
}

#[test]
fn test_encodings() -> Result<(), DecodeError> {
    let ops: Vec<Instruction> = vec![
        Instruction::Add {
            dest: Register::X2,
            src1: Register::X3,
            src2: Register::X4,
        },
        Instruction::LoadWord {
            dest: Register::X4,
            src: Register::X10,
            offset: Imm8(240),
        },
        Instruction::StoreWord {
            dest: Register::X4,
            src: Register::X9,
            offset: Imm8(255),
        },
        Instruction::Nop,
        Instruction::Syscall {
            number: Register::X7,
        },
    ];

    let encoded: Vec<u32> = ops.iter().map(|x| x.into()).collect();
    for (i, (l, r)) in ops.iter().zip(encoded.iter()).enumerate() {
        println!("{i} l: {:?}, r: {1}", l, r);
        let decoded = Instruction::try_from(*r)?;
        println!("Decoded: {:?}", decoded);
        assert_eq!(*l, decoded);
    }
    Ok(())
}

#[test]
fn byte_fields_sit_in_the_bytes_of_the_word() {
    let add = Instruction::Add {
        dest: Register::X2,
        src1: Register::X3,
        src2: Register::X4,
    };
    assert_eq!(add.encode(), 0x04_03_02_01);
    let load = Instruction::LoadWord {
        dest: Register::X4,
        src: Register::X10,
        offset: Imm8(240),
    };
    assert_eq!(load.encode(), 0xf0_0a_04_0c);
    let addi = Instruction::AddI { dest: Register::X31, src: Imm16(0xbeef) };
    assert_eq!(addi.encode(), 0xbeef_1f_13);
    assert_eq!(Instruction::decode(0xbeef_1f_13), Ok(addi));
    assert_eq!(Instruction::Nop.encode(), 0xff);
    assert_eq!(Instruction::Syscall { number: Register::X7 }.encode(), 0x07_73);
}

#[test]
fn vm_unknown_opcode_and_invalid_register() {
    assert_eq!(Instruction::decode(0xab), Err(DecodeError::UnknownOpcode(0xab)));
    assert_eq!(Instruction::decode(0xffff_ffab), Err(DecodeError::UnknownOpcode(0xab)));
    assert_eq!(Instruction::decode(0x04_03_20_01), Err(DecodeError::InvalidRegister(0x20)));
    assert_eq!(Instruction::decode(0x04_ff_02_01), Err(DecodeError::InvalidRegister(0xff)));
    assert_eq!(Instruction::decode(0xffff_ffff), Ok(Instruction::Nop));
}

#[test]
fn vm_register_index_round_trip() {
    for index in 0..32u32 {
        assert_eq!(Register::from_index(index).unwrap().to_index(), index);
    }
    assert_eq!(Register::from_index(7), Ok(Register::X7));
    assert_eq!(Register::from_index(32), Err(DecodeError::InvalidRegister(32)));
}

#[test]
fn unsigned_immediates_hold_every_pattern() {
    assert_eq!(Imm8::from_bits(0x1ff), Imm8(0xff));
    assert_eq!(Imm8::new(240).to_bits(), 240);
    assert_eq!(Imm8(7).value(), 7);
    assert_eq!(Imm16::from_bits(0xf_1234), Imm16(0x1234));
    assert_eq!(Imm16::new(0xffff).to_bits(), 0xffff);
    assert_eq!(Imm8(240).encode(0xff, 24), 0xf000_0000);
    assert_eq!(Imm8::decode(0xf000_0000, 24, 0xff), Ok(Imm8(240)));
}

#[test]
fn vm_schema_is_the_same_on_every_lookup() {
    let first = schema_for(Mnemonic::LoadWord);
    let second = schema_for(Mnemonic::LoadWord);
    assert_eq!(first, second);
    assert_eq!(first.opcode, 0xc);
    let widths: Vec<u32> = first.fields.iter().map(|f| f.width).collect();
    assert_eq!(widths, vec![8, 8, 8]);
    assert_eq!(schema_for(Mnemonic::Nop).fields.len(), 0);
    assert_eq!(Mnemonic::Syscall.opcode(), 0x73);
}

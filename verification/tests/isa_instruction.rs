use vm_isa::codec::{Codec, DecodeError, OperandError};
use vm_isa::isa::instruction::{schema_for, Instruction, Mnemonic};
use vm_isa::isa::operand::{Immediate14, Immediate19};
use vm_isa::isa::register::Register;

#[test]
fn t_opcode() {
    let op1 = u32::from(&Instruction::Li {
        dest: Register::Zero,
        value: Immediate19::new(150).unwrap(),
    }) as u8;

    assert_eq!(op1.to_le_bytes(), 0xff_u8.to_le_bytes());
}

#[test]
fn t_encode_decode() -> Result<(), DecodeError> {
    let ins: Vec<Instruction> = vec![
        Instruction::Add {
            dest: Register::A0,
            src1: Register::A1,
            src2: Register::A2,
        },
        Instruction::Li {
            dest: Register::T0,
            value: Immediate19::new(150).unwrap(),
        },
        Instruction::Lui {
            dest: Register::T0,
            value: Immediate19::new(150).unwrap(),
        },
        Instruction::AddI {
            dest: Register::A0,
            src: Register::A1,
            value: Immediate14::new(-31).unwrap(),
        },
        Instruction::Syscall {
            src1: Register::A1,
            src2: Register::A2,
            src3: Register::A3,
        },
    ];

    let encoded: Vec<u32> = ins.iter().map(|x| x.into()).collect();
    for (l, r) in ins.iter().zip(encoded.iter()) {
        println!("instruction: {:?}, memory representation: {1}", l, r);
        let decoded = Instruction::try_from(*r)?;
        assert_eq!(*l, decoded);
    }
    Ok(())
}

#[test]
fn add_packs_opcode_and_three_five_bit_fields() {
    let add = Instruction::Add {
        dest: Register::A0,
        src1: Register::A1,
        src2: Register::A2,
    };
    let word = add.encode();
    assert_eq!(word & 0xff, 0x1);
    assert_eq!((word >> 8) & 0x1f, 10);
    assert_eq!((word >> 13) & 0x1f, 11);
    assert_eq!((word >> 18) & 0x1f, 12);
    assert_eq!(word, 0x1 | (10 << 8) | (11 << 13) | (12 << 18));
    assert_eq!(word >> 23, 0);
    assert_eq!(Instruction::decode(word), Ok(add));
}

#[test]
fn negative_immediate_is_packed_in_twos_complement() {
    let addi = Instruction::AddI {
        dest: Register::A0,
        src: Register::A1,
        value: Immediate14::new(-31).unwrap(),
    };
    let word = addi.encode();
    assert_eq!(word, 0x13 | (10 << 8) | (11 << 13) | (0x3fe1 << 18));
    assert_eq!(Instruction::decode(word), Ok(addi));
    let lui = Instruction::Lui {
        dest: Register::T6,
        value: Immediate19::new(-262144).unwrap(),
    };
    let word = lui.encode();
    assert_eq!(word, 0x14 | (31 << 8) | (0x40000 << 13));
    assert_eq!(Instruction::decode(word), Ok(lui));
}

#[test]
fn every_variant_round_trips_at_the_boundaries() {
    let low14 = Immediate14::new(-8192).unwrap();
    let high14 = Immediate14::new(8191).unwrap();
    let low19 = Immediate19::new(-262144).unwrap();
    let high19 = Immediate19::new(262143).unwrap();
    let (a, b, c) = (Register::Zero, Register::T6, Register::S1);
    let all = vec![
        Instruction::Add { dest: a, src1: b, src2: c },
        Instruction::Sub { dest: b, src1: c, src2: a },
        Instruction::Mul { dest: c, src1: a, src2: b },
        Instruction::And { dest: a, src1: a, src2: a },
        Instruction::Or { dest: b, src1: b, src2: b },
        Instruction::Xor { dest: c, src1: b, src2: a },
        Instruction::Shl { dest: a, src: b, shift: c },
        Instruction::Shr { dest: b, src: c, shift: a },
        Instruction::ShrA { dest: c, src: a, shift: b },
        Instruction::AddI { dest: b, src: b, value: low14 },
        Instruction::AddI { dest: a, src: c, value: high14 },
        Instruction::Lui { dest: b, value: low19 },
        Instruction::Lui { dest: a, value: high19 },
        Instruction::Lw { dest: b, src: a, offset: low14 },
        Instruction::Sw { dest: c, src: b, offset: high14 },
        Instruction::Syscall { src1: b, src2: b, src3: b },
        Instruction::Li { dest: b, value: low19 },
        Instruction::Li { dest: c, value: high19 },
    ];
    for i in all.iter() {
        let word = i.encode();
        assert_eq!(word as u8, i.mnemonic().opcode());
        assert_eq!(Instruction::decode(word), Ok(*i));
    }
}

#[test]
fn unknown_opcode_is_reported_whatever_the_other_bits() {
    assert_eq!(Instruction::decode(0xab), Err(DecodeError::UnknownOpcode(0xab)));
    assert_eq!(Instruction::decode(0xffff_ffab), Err(DecodeError::UnknownOpcode(0xab)));
    assert_eq!(Instruction::decode(0x1234_56ab), Err(DecodeError::UnknownOpcode(0xab)));
    assert_eq!(Instruction::decode(0), Err(DecodeError::UnknownOpcode(0)));
}

#[test]
fn known_opcode_always_decodes() {
    let decoded = Instruction::decode(0xffff_ff01).unwrap();
    assert_eq!(
        decoded,
        Instruction::Add { dest: Register::T6, src1: Register::T6, src2: Register::T6 }
    );
    let decoded = Instruction::decode(0xffff_ff13).unwrap();
    assert_eq!(
        decoded,
        Instruction::AddI {
            dest: Register::T6,
            src: Register::T6,
            value: Immediate14::new(-1).unwrap(),
        }
    );
}

#[test]
fn immediate14_boundaries() {
    assert_eq!(Immediate14::new(-8192).unwrap().value(), -8192);
    assert_eq!(Immediate14::new(8191).unwrap().value(), 8191);
    assert_eq!(Immediate14::new(-8193), Err(OperandError::ImmediateOutOfRange(-8193, 14)));
    assert_eq!(Immediate14::new(8192), Err(OperandError::ImmediateOutOfRange(8192, 14)));
    assert_eq!(Immediate14::new(-1).unwrap().to_bits(), 0x3fff);
    assert_eq!(Immediate14::from_bits(0x3fff).value(), -1);
    assert_eq!(Immediate14::from_bits(0x2000).value(), -8192);
    assert_eq!(Immediate14::from_bits(0x1fff).value(), 8191);
    assert_eq!(Immediate14::from_bits(0xffff_c005).value(), 5);
    assert_eq!(Immediate14::new(-8192).unwrap().to_bits(), 0x2000);
}

#[test]
fn immediate19_boundaries() {
    assert_eq!(Immediate19::new(262143).unwrap().value(), 262143);
    assert_eq!(Immediate19::new(-262144).unwrap().to_bits(), 0x40000);
    assert_eq!(Immediate19::new(262144), Err(OperandError::ImmediateOutOfRange(262144, 19)));
    assert_eq!(Immediate19::new(-262145), Err(OperandError::ImmediateOutOfRange(-262145, 19)));
    assert_eq!(Immediate19::new(-1).unwrap().to_bits(), 0x7ffff);
    assert_eq!(Immediate19::from_bits(0x7ffff).value(), -1);
    assert_eq!(Immediate19::from_bits(150).value(), 150);
}

#[test]
fn immediate_round_trips_through_its_bits() {
    for v in [-8192, -31, -1, 0, 1, 150, 8191] {
        let imm = Immediate14::new(v).unwrap();
        assert_eq!(Immediate14::from_bits(imm.to_bits()), imm);
        assert_eq!(Immediate14::from_bits(imm.to_bits()).value(), v);
    }
}

#[test]
fn register_index_round_trip() {
    for index in 0..32u32 {
        let register = Register::from_index(index).unwrap();
        assert_eq!(register.to_index(), index);
    }
    assert_eq!(Register::from_index(0), Ok(Register::Zero));
    assert_eq!(Register::from_index(10), Ok(Register::A0));
    assert_eq!(Register::from_index(31), Ok(Register::T6));
    assert_eq!(Register::from_index(32), Err(DecodeError::InvalidRegister(32)));
    assert_eq!(Register::from_index(u32::MAX), Err(DecodeError::InvalidRegister(u32::MAX)));
}

#[test]
fn operand_field_encode_and_decode() {
    assert_eq!(Register::A0.encode(0x1f, 8), 10 << 8);
    assert_eq!(Register::decode(10 << 8, 8, 0x1f), Ok(Register::A0));
    let imm = Immediate14::new(-31).unwrap();
    assert_eq!(imm.encode(0x3fff, 18), 0x3fe1 << 18);
    assert_eq!(Immediate14::decode(0x3fe1 << 18, 18, 0x3fff), Ok(imm));
}

#[test]
fn schema_is_the_same_on_every_lookup() {
    let first = schema_for(Mnemonic::AddI);
    let second = schema_for(Mnemonic::AddI);
    assert_eq!(first, second);
    assert_eq!(first.opcode, 0x13);
    let widths: Vec<u32> = first.fields.iter().map(|f| f.width).collect();
    assert_eq!(widths, vec![5, 5, 14]);
    let names: Vec<&str> = first.fields.iter().map(|f| f.name).collect();
    assert_eq!(names, vec!["dest", "src", "value"]);
    assert_eq!(Mnemonic::from_opcode(0x13), Some(Mnemonic::AddI));
    assert_eq!(Mnemonic::from_opcode(0xab), None);
}

#[test]
fn conversions_agree_with_encode_and_decode() {
    let sw = Instruction::Sw {
        dest: Register::S2,
        src: Register::Sp,
        offset: Immediate14::new(-4).unwrap(),
    };
    assert_eq!(u32::from(&sw), sw.encode());
    assert_eq!(u32::from(&sw), 0xd | (18 << 8) | (2 << 13) | (0x3ffc << 18));
    assert_eq!(Instruction::try_from(sw.encode()), Ok(sw));
    assert_eq!(Instruction::try_from(0xabu32), Err(DecodeError::UnknownOpcode(0xab)));
}

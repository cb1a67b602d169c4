//! The unsigned immediates of the byte-field instruction set.
use vstd::prelude::*;
use crate::codec::Codec;
use crate::codec::DecodeError;
use crate::codec::mask;
use crate::codec::lemma_masked_small;
use crate::codec::lemma_mask_values;

verus! {

/// An unsigned immediate of 8 bits: any value from 0 to 255.
#[derive(Debug, Clone, Copy, PartialEq, Eq, Structural)]
pub struct Imm8(pub u8);

impl Imm8 {
    /// The immediate of the given value.
    pub fn new(value: u8) -> (made: Imm8)
        ensures
            made.0 == value,
    {
        Imm8(value)
    }

    /// The immediate's value.
    pub fn value(&self) -> (value: u8)
        ensures
            value == self.0,
    {
        self.0
    }

    /// The value as a pattern of 8 bits; the bits above are zero.
    pub fn to_bits(&self) -> (bits: u32)
        ensures
            bits == self.0,
            bits & mask(8) == bits,
    {
        let bits: u32 = self.0 as u32;
        proof {
            lemma_mask_values();
            lemma_masked_small(bits, 8);
        }
        bits
    }

    /// The immediate that the low 8 bits of `pattern` hold. Every pattern
    /// holds one.
    pub fn from_bits(pattern: u32) -> (made: Imm8)
        ensures
            made.0 == pattern & 0xff,
            Ok::<Imm8, DecodeError>(made) == <Imm8 as Codec>::from_raw(pattern),
    {
        assert(pattern & 0xff <= 0xff) by (bit_vector);
        Imm8((pattern & 0xff) as u8)
    }

    /// An immediate comes back from its own pattern, and the pattern fits
    /// the field.
    pub proof fn lemma_bits_round_trip(a: Imm8)
        ensures
            <Imm8 as Codec>::from_raw(a.raw()) == Ok::<Imm8, DecodeError>(a),
            a.raw() & mask(8) == a.raw(),
    {
        let bits: u32 = a.0 as u32;
        lemma_mask_values();
        lemma_masked_small(bits, 8);
    }
}

impl Codec for Imm8 {
    open spec fn raw(&self) -> u32 {
        self.0 as u32
    }

    open spec fn from_raw(raw: u32) -> Result<Self, DecodeError> {
        Ok(Imm8((raw & 0xff) as u8))
    }

    fn to_raw(&self) -> (raw: u32) {
        self.to_bits()
    }

    fn try_from_raw(raw: u32) -> (operand: Result<Self, DecodeError>) {
        Ok(Imm8::from_bits(raw))
    }
}

/// An unsigned immediate of 16 bits: any value from 0 to 65535.
#[derive(Debug, Clone, Copy, PartialEq, Eq, Structural)]
pub struct Imm16(pub u16);

impl Imm16 {
    /// The immediate of the given value.
    pub fn new(value: u16) -> (made: Imm16)
        ensures
            made.0 == value,
    {
        Imm16(value)
    }

    /// The immediate's value.
    pub fn value(&self) -> (value: u16)
        ensures
            value == self.0,
    {
        self.0
    }

    /// The value as a pattern of 16 bits; the bits above are zero.
    pub fn to_bits(&self) -> (bits: u32)
        ensures
            bits == self.0,
            bits & mask(16) == bits,
    {
        let bits: u32 = self.0 as u32;
        proof {
            lemma_mask_values();
            lemma_masked_small(bits, 16);
        }
        bits
    }

    /// The immediate that the low 16 bits of `pattern` hold. Every pattern
    /// holds one.
    pub fn from_bits(pattern: u32) -> (made: Imm16)
        ensures
            made.0 == pattern & 0xffff,
            Ok::<Imm16, DecodeError>(made) == <Imm16 as Codec>::from_raw(pattern),
    {
        assert(pattern & 0xffff <= 0xffff) by (bit_vector);
        Imm16((pattern & 0xffff) as u16)
    }

    /// An immediate comes back from its own pattern, and the pattern fits
    /// the field.
    pub proof fn lemma_bits_round_trip(a: Imm16)
        ensures
            <Imm16 as Codec>::from_raw(a.raw()) == Ok::<Imm16, DecodeError>(a),
            a.raw() & mask(16) == a.raw(),
    {
        let bits: u32 = a.0 as u32;
        lemma_mask_values();
        lemma_masked_small(bits, 16);
    }
}

impl Codec for Imm16 {
    open spec fn raw(&self) -> u32 {
        self.0 as u32
    }

    open spec fn from_raw(raw: u32) -> Result<Self, DecodeError> {
        Ok(Imm16((raw & 0xffff) as u16))
    }

    fn to_raw(&self) -> (raw: u32) {
        self.to_bits()
    }

    fn try_from_raw(raw: u32) -> (operand: Result<Self, DecodeError>) {
        Ok(Imm16::from_bits(raw))
    }
}

} // verus!

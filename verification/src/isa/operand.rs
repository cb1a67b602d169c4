//! The signed immediates of the five-bit instruction set.
use vstd::prelude::*;
use vstd::arithmetic::power2::lemma2_to64;
use crate::codec::Codec;
use crate::codec::DecodeError;
use crate::codec::OperandError;
use crate::codec::mask;
use crate::codec::signed_fits;
use crate::codec::twos_complement;
use crate::codec::sign_extended;
use crate::codec::fits_signed;
use crate::codec::signed_to_bits;
use crate::codec::bits_to_signed;
use crate::codec::lemma_signed_round_trip;
use crate::codec::lemma_signed_reencode;
use crate::codec::lemma_masked_bound;
use crate::codec::lemma_mask_values;

verus! {

/// A signed immediate of 14 bits: a value from -8192 to 8191.
#[derive(Debug, Clone, Copy, PartialEq, Eq, Structural)]
pub struct Immediate14 {
    value: i32,
}

impl View for Immediate14 {
    type V = int;

    closed spec fn view(&self) -> int {
        self.value as int
    }
}

impl Immediate14 {
    /// The value is representable in 14 bits.
    #[verifier::type_invariant]
    pub closed spec fn wf(self) -> bool {
        signed_fits(self.value as int, 14)
    }

    /// The values that 14 bits can hold.
    pub open spec fn in_range(value: int) -> bool {
        -8192 <= value <= 8191
    }

    /// The immediate of the given value; a value that 14 bits cannot hold
    /// is refused, not cut.
    pub fn new(value: i32) -> (made: Result<Immediate14, OperandError>)
        ensures
            Self::in_range(value as int) ==> made is Ok && made->Ok_0@ == value
                && made->Ok_0.wf(),
            !Self::in_range(value as int) ==> made == Err::<Immediate14, OperandError>(
                OperandError::ImmediateOutOfRange(value, 14),
            ),
    {
        proof {
            lemma2_to64();
        }
        if fits_signed(value, 14) {
            Ok(Immediate14 { value })
        } else {
            Err(OperandError::ImmediateOutOfRange(value, 14))
        }
    }

    /// The immediate's value.
    pub fn value(&self) -> (value: i32)
        ensures
            value == self@,
            Self::in_range(value as int),
    {
        proof {
            use_type_invariant(self);
            lemma2_to64();
        }
        self.value
    }

    /// The two's-complement pattern of the value in the low 14 bits; the
    /// bits above are zero.
    pub fn to_bits(&self) -> (bits: u32)
        ensures
            bits == twos_complement(self@, 14),
            bits <= 0x3fff,
            bits & mask(14) == bits,
    {
        proof {
            use_type_invariant(self);
            lemma_signed_round_trip(self@, 14);
            lemma_mask_values();
        }
        signed_to_bits(self.value, 14)
    }

    /// The immediate that the low 14 bits of `pattern` stand for, bit 13
    /// being the sign. Every pattern stands for one.
    pub fn from_bits(pattern: u32) -> (made: Immediate14)
        ensures
            made@ == sign_extended(pattern, 14),
            made.wf(),
            Ok::<Immediate14, DecodeError>(made) == <Immediate14 as Codec>::from_raw(pattern),
    {
        Immediate14 { value: bits_to_signed(pattern, 14) }
    }

    /// Two immediates of one value are one immediate.
    pub proof fn lemma_view_injective(a: Immediate14, b: Immediate14)
        requires
            a@ == b@,
        ensures
            a == b,
    {
    }

    /// An immediate holds a value in range.
    pub proof fn lemma_wf_in_range(a: Immediate14)
        ensures
            a.wf() <==> Self::in_range(a@),
    {
        lemma2_to64();
    }

    /// An immediate comes back from its own pattern, and the pattern fits
    /// the field.
    pub proof fn lemma_bits_round_trip(a: Immediate14)
        requires
            a.wf(),
        ensures
            <Immediate14 as Codec>::from_raw(a.raw()) == Ok::<Immediate14, DecodeError>(a),
            a.raw() & mask(14) == a.raw(),
            sign_extended(a.raw(), 14) == a@,
    {
        lemma_signed_round_trip(a@, 14);
    }

    /// Every pattern stands for an immediate: the one whose value is the
    /// sign-extended pattern.
    pub proof fn lemma_from_raw(pattern: u32)
        ensures
            <Immediate14 as Codec>::from_raw(pattern) is Ok,
            <Immediate14 as Codec>::from_raw(pattern)->Ok_0.wf(),
            <Immediate14 as Codec>::from_raw(pattern)->Ok_0@ == sign_extended(pattern, 14),
            <Immediate14 as Codec>::from_raw(pattern)->Ok_0.raw() == pattern & mask(14),
    {
        lemma2_to64();
        lemma_signed_reencode(pattern, 14);
        lemma_masked_bound(pattern, 14);
    }
}

impl Codec for Immediate14 {
    open spec fn raw(&self) -> u32 {
        twos_complement(self@, 14) as u32
    }

    closed spec fn from_raw(raw: u32) -> Result<Self, DecodeError> {
        Ok(Immediate14 { value: sign_extended(raw, 14) as i32 })
    }

    fn to_raw(&self) -> (raw: u32) {
        self.to_bits()
    }

    fn try_from_raw(raw: u32) -> (operand: Result<Self, DecodeError>) {
        Ok(Immediate14::from_bits(raw))
    }
}

/// A signed immediate of 19 bits: a value from -262144 to 262143.
#[derive(Debug, Clone, Copy, PartialEq, Eq, Structural)]
pub struct Immediate19 {
    value: i32,
}

impl View for Immediate19 {
    type V = int;

    closed spec fn view(&self) -> int {
        self.value as int
    }
}

impl Immediate19 {
    /// The value is representable in 19 bits.
    #[verifier::type_invariant]
    pub closed spec fn wf(self) -> bool {
        signed_fits(self.value as int, 19)
    }

    /// The values that 19 bits can hold.
    pub open spec fn in_range(value: int) -> bool {
        -262144 <= value <= 262143
    }

    /// The immediate of the given value; a value that 19 bits cannot hold
    /// is refused, not cut.
    pub fn new(value: i32) -> (made: Result<Immediate19, OperandError>)
        ensures
            Self::in_range(value as int) ==> made is Ok && made->Ok_0@ == value
                && made->Ok_0.wf(),
            !Self::in_range(value as int) ==> made == Err::<Immediate19, OperandError>(
                OperandError::ImmediateOutOfRange(value, 19),
            ),
    {
        proof {
            lemma2_to64();
        }
        if fits_signed(value, 19) {
            Ok(Immediate19 { value })
        } else {
            Err(OperandError::ImmediateOutOfRange(value, 19))
        }
    }

    /// The immediate's value.
    pub fn value(&self) -> (value: i32)
        ensures
            value == self@,
            Self::in_range(value as int),
    {
        proof {
            use_type_invariant(self);
            lemma2_to64();
        }
        self.value
    }

    /// The two's-complement pattern of the value in the low 19 bits; the
    /// bits above are zero.
    pub fn to_bits(&self) -> (bits: u32)
        ensures
            bits == twos_complement(self@, 19),
            bits <= 0x7ffff,
            bits & mask(19) == bits,
    {
        proof {
            use_type_invariant(self);
            lemma_signed_round_trip(self@, 19);
            lemma_mask_values();
        }
        signed_to_bits(self.value, 19)
    }

    /// The immediate that the low 19 bits of `pattern` stand for, bit 18
    /// being the sign. Every pattern stands for one.
    pub fn from_bits(pattern: u32) -> (made: Immediate19)
        ensures
            made@ == sign_extended(pattern, 19),
            made.wf(),
            Ok::<Immediate19, DecodeError>(made) == <Immediate19 as Codec>::from_raw(pattern),
    {
        Immediate19 { value: bits_to_signed(pattern, 19) }
    }

    /// Two immediates of one value are one immediate.
    pub proof fn lemma_view_injective(a: Immediate19, b: Immediate19)
        requires
            a@ == b@,
        ensures
            a == b,
    {
    }

    /// An immediate holds a value in range.
    pub proof fn lemma_wf_in_range(a: Immediate19)
        ensures
            a.wf() <==> Self::in_range(a@),
    {
        lemma2_to64();
    }

    /// An immediate comes back from its own pattern, and the pattern fits
    /// the field.
    pub proof fn lemma_bits_round_trip(a: Immediate19)
        requires
            a.wf(),
        ensures
            <Immediate19 as Codec>::from_raw(a.raw()) == Ok::<Immediate19, DecodeError>(a),
            a.raw() & mask(19) == a.raw(),
            sign_extended(a.raw(), 19) == a@,
    {
        lemma_signed_round_trip(a@, 19);
    }

    /// Every pattern stands for an immediate: the one whose value is the
    /// sign-extended pattern.
    pub proof fn lemma_from_raw(pattern: u32)
        ensures
            <Immediate19 as Codec>::from_raw(pattern) is Ok,
            <Immediate19 as Codec>::from_raw(pattern)->Ok_0.wf(),
            <Immediate19 as Codec>::from_raw(pattern)->Ok_0@ == sign_extended(pattern, 19),
            <Immediate19 as Codec>::from_raw(pattern)->Ok_0.raw() == pattern & mask(19),
    {
        lemma2_to64();
        lemma_signed_reencode(pattern, 19);
        lemma_masked_bound(pattern, 19);
    }
}

impl Codec for Immediate19 {
    open spec fn raw(&self) -> u32 {
        twos_complement(self@, 19) as u32
    }

    closed spec fn from_raw(raw: u32) -> Result<Self, DecodeError> {
        Ok(Immediate19 { value: sign_extended(raw, 19) as i32 })
    }

    fn to_raw(&self) -> (raw: u32) {
        self.to_bits()
    }

    fn try_from_raw(raw: u32) -> (operand: Result<Self, DecodeError>) {
        Ok(Immediate19::from_bits(raw))
    }
}

} // verus!

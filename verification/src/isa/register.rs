//! The registers of the five-bit instruction set.
use vstd::prelude::*;
use crate::codec::Codec;
use crate::codec::DecodeError;

verus! {

/// Number of registers.
pub const REGISTER_COUNT: u32 = 32;

/// Number of bits of a register field.
pub const REGISTER_BITS: u32 = 5;

/// A machine register: the zero register, the pointers, and the temporary, saved and argument registers.
#[derive(Debug, Clone, Copy, PartialEq, Eq, Hash, Structural)]
pub enum Register {
    Zero,
    Ra,
    Sp,
    Gp,
    Tp,
    T0,
    T1,
    T2,
    S0,
    S1,
    A0,
    A1,
    A2,
    A3,
    A4,
    A5,
    A6,
    A7,
    S2,
    S3,
    S4,
    S5,
    S6,
    S7,
    S8,
    S9,
    S10,
    S11,
    T3,
    T4,
    T5,
    T6,
}

impl Register {
    /// The register's number.
    pub open spec fn index(&self) -> u32 {
        match self {
            Register::Zero => 0,
            Register::Ra => 1,
            Register::Sp => 2,
            Register::Gp => 3,
            Register::Tp => 4,
            Register::T0 => 5,
            Register::T1 => 6,
            Register::T2 => 7,
            Register::S0 => 8,
            Register::S1 => 9,
            Register::A0 => 10,
            Register::A1 => 11,
            Register::A2 => 12,
            Register::A3 => 13,
            Register::A4 => 14,
            Register::A5 => 15,
            Register::A6 => 16,
            Register::A7 => 17,
            Register::S2 => 18,
            Register::S3 => 19,
            Register::S4 => 20,
            Register::S5 => 21,
            Register::S6 => 22,
            Register::S7 => 23,
            Register::S8 => 24,
            Register::S9 => 25,
            Register::S10 => 26,
            Register::S11 => 27,
            Register::T3 => 28,
            Register::T4 => 29,
            Register::T5 => 30,
            Register::T6 => 31,
        }
    }

    /// The register with the given number, or the error that names the
    /// number where no register has it.
    #[verifier::opaque]
    pub open spec fn of_index(index: u32) -> Result<Register, DecodeError> {
        if index == 0 {
            Ok(Register::Zero)
        } else if index == 1 {
            Ok(Register::Ra)
        } else if index == 2 {
            Ok(Register::Sp)
        } else if index == 3 {
            Ok(Register::Gp)
        } else if index == 4 {
            Ok(Register::Tp)
        } else if index == 5 {
            Ok(Register::T0)
        } else if index == 6 {
            Ok(Register::T1)
        } else if index == 7 {
            Ok(Register::T2)
        } else if index == 8 {
            Ok(Register::S0)
        } else if index == 9 {
            Ok(Register::S1)
        } else if index == 10 {
            Ok(Register::A0)
        } else if index == 11 {
            Ok(Register::A1)
        } else if index == 12 {
            Ok(Register::A2)
        } else if index == 13 {
            Ok(Register::A3)
        } else if index == 14 {
            Ok(Register::A4)
        } else if index == 15 {
            Ok(Register::A5)
        } else if index == 16 {
            Ok(Register::A6)
        } else if index == 17 {
            Ok(Register::A7)
        } else if index == 18 {
            Ok(Register::S2)
        } else if index == 19 {
            Ok(Register::S3)
        } else if index == 20 {
            Ok(Register::S4)
        } else if index == 21 {
            Ok(Register::S5)
        } else if index == 22 {
            Ok(Register::S6)
        } else if index == 23 {
            Ok(Register::S7)
        } else if index == 24 {
            Ok(Register::S8)
        } else if index == 25 {
            Ok(Register::S9)
        } else if index == 26 {
            Ok(Register::S10)
        } else if index == 27 {
            Ok(Register::S11)
        } else if index == 28 {
            Ok(Register::T3)
        } else if index == 29 {
            Ok(Register::T4)
        } else if index == 30 {
            Ok(Register::T5)
        } else if index == 31 {
            Ok(Register::T6)
        } else {
            Err(DecodeError::InvalidRegister(index))
        }
    }

    /// Computes [`Register::index`]; the number is below the register count.
    pub fn to_index(&self) -> (index: u32)
        ensures
            index == self.index(),
            index < REGISTER_COUNT,
            Register::of_index(index) == Ok::<Register, DecodeError>(*self),
    {
        reveal(Register::of_index);
        match self {
            Register::Zero => 0,
            Register::Ra => 1,
            Register::Sp => 2,
            Register::Gp => 3,
            Register::Tp => 4,
            Register::T0 => 5,
            Register::T1 => 6,
            Register::T2 => 7,
            Register::S0 => 8,
            Register::S1 => 9,
            Register::A0 => 10,
            Register::A1 => 11,
            Register::A2 => 12,
            Register::A3 => 13,
            Register::A4 => 14,
            Register::A5 => 15,
            Register::A6 => 16,
            Register::A7 => 17,
            Register::S2 => 18,
            Register::S3 => 19,
            Register::S4 => 20,
            Register::S5 => 21,
            Register::S6 => 22,
            Register::S7 => 23,
            Register::S8 => 24,
            Register::S9 => 25,
            Register::S10 => 26,
            Register::S11 => 27,
            Register::T3 => 28,
            Register::T4 => 29,
            Register::T5 => 30,
            Register::T6 => 31,
        }
    }

    /// Computes [`Register::of_index`]: a number below the register count
    /// gives the register that has it, any other number is an error.
    pub fn from_index(index: u32) -> (register: Result<Register, DecodeError>)
        ensures
            register == Register::of_index(index),
            index < REGISTER_COUNT <==> register is Ok,
            register is Ok ==> register->Ok_0.index() == index,
            register is Err ==> register == Err::<Register, DecodeError>(
                DecodeError::InvalidRegister(index),
            ),
    {
        reveal(Register::of_index);
        if index == 0 {
            Ok(Register::Zero)
        } else if index == 1 {
            Ok(Register::Ra)
        } else if index == 2 {
            Ok(Register::Sp)
        } else if index == 3 {
            Ok(Register::Gp)
        } else if index == 4 {
            Ok(Register::Tp)
        } else if index == 5 {
            Ok(Register::T0)
        } else if index == 6 {
            Ok(Register::T1)
        } else if index == 7 {
            Ok(Register::T2)
        } else if index == 8 {
            Ok(Register::S0)
        } else if index == 9 {
            Ok(Register::S1)
        } else if index == 10 {
            Ok(Register::A0)
        } else if index == 11 {
            Ok(Register::A1)
        } else if index == 12 {
            Ok(Register::A2)
        } else if index == 13 {
            Ok(Register::A3)
        } else if index == 14 {
            Ok(Register::A4)
        } else if index == 15 {
            Ok(Register::A5)
        } else if index == 16 {
            Ok(Register::A6)
        } else if index == 17 {
            Ok(Register::A7)
        } else if index == 18 {
            Ok(Register::S2)
        } else if index == 19 {
            Ok(Register::S3)
        } else if index == 20 {
            Ok(Register::S4)
        } else if index == 21 {
            Ok(Register::S5)
        } else if index == 22 {
            Ok(Register::S6)
        } else if index == 23 {
            Ok(Register::S7)
        } else if index == 24 {
            Ok(Register::S8)
        } else if index == 25 {
            Ok(Register::S9)
        } else if index == 26 {
            Ok(Register::S10)
        } else if index == 27 {
            Ok(Register::S11)
        } else if index == 28 {
            Ok(Register::T3)
        } else if index == 29 {
            Ok(Register::T4)
        } else if index == 30 {
            Ok(Register::T5)
        } else if index == 31 {
            Ok(Register::T6)
        } else {
            Err(DecodeError::InvalidRegister(index))
        }
    }

    /// A register's number is below the register count, and the register
    /// comes back from it.
    pub proof fn lemma_index_round_trip(register: Register)
        ensures
            register.index() < REGISTER_COUNT,
            Register::of_index(register.index()) == Ok::<Register, DecodeError>(register),
    {
        reveal(Register::of_index);
    }

    /// Every number below the register count is some register's number, and
    /// no other is.
    pub proof fn lemma_of_index(index: u32)
        ensures
            index < REGISTER_COUNT ==> Register::of_index(index) is Ok && Register::of_index(
                index,
            )->Ok_0.index() == index,
            index >= REGISTER_COUNT ==> Register::of_index(index) == Err::<Register, DecodeError>(
                DecodeError::InvalidRegister(index),
            ),
    {
        reveal(Register::of_index);
    }
}

impl Codec for Register {
    open spec fn raw(&self) -> u32 {
        self.index()
    }

    open spec fn from_raw(raw: u32) -> Result<Self, DecodeError> {
        Register::of_index(raw)
    }

    fn to_raw(&self) -> (raw: u32) {
        self.to_index()
    }

    fn try_from_raw(raw: u32) -> (operand: Result<Self, DecodeError>) {
        Register::from_index(raw)
    }
}

} // verus!

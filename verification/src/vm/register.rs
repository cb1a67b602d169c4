//! The registers of the byte-field instruction set.
use vstd::prelude::*;
use crate::codec::Codec;
use crate::codec::DecodeError;

verus! {

/// Number of registers.
pub const REGISTER_COUNT: u32 = 32;

/// Number of bits of a register field.
pub const REGISTER_BITS: u32 = 8;

/// A machine register, named by its number.
#[derive(Debug, Clone, Copy, PartialEq, Eq, Hash, Structural)]
pub enum Register {
    X0,
    X1,
    X2,
    X3,
    X4,
    X5,
    X6,
    X7,
    X8,
    X9,
    X10,
    X11,
    X12,
    X13,
    X14,
    X15,
    X16,
    X17,
    X18,
    X19,
    X20,
    X21,
    X22,
    X23,
    X24,
    X25,
    X26,
    X27,
    X28,
    X29,
    X30,
    X31,
}

impl Register {
    /// The register's number.
    pub open spec fn index(&self) -> u32 {
        match self {
            Register::X0 => 0,
            Register::X1 => 1,
            Register::X2 => 2,
            Register::X3 => 3,
            Register::X4 => 4,
            Register::X5 => 5,
            Register::X6 => 6,
            Register::X7 => 7,
            Register::X8 => 8,
            Register::X9 => 9,
            Register::X10 => 10,
            Register::X11 => 11,
            Register::X12 => 12,
            Register::X13 => 13,
            Register::X14 => 14,
            Register::X15 => 15,
            Register::X16 => 16,
            Register::X17 => 17,
            Register::X18 => 18,
            Register::X19 => 19,
            Register::X20 => 20,
            Register::X21 => 21,
            Register::X22 => 22,
            Register::X23 => 23,
            Register::X24 => 24,
            Register::X25 => 25,
            Register::X26 => 26,
            Register::X27 => 27,
            Register::X28 => 28,
            Register::X29 => 29,
            Register::X30 => 30,
            Register::X31 => 31,
        }
    }

    /// The register with the given number, or the error that names the
    /// number where no register has it.
    #[verifier::opaque]
    pub open spec fn of_index(index: u32) -> Result<Register, DecodeError> {
        if index == 0 {
            Ok(Register::X0)
        } else if index == 1 {
            Ok(Register::X1)
        } else if index == 2 {
            Ok(Register::X2)
        } else if index == 3 {
            Ok(Register::X3)
        } else if index == 4 {
            Ok(Register::X4)
        } else if index == 5 {
            Ok(Register::X5)
        } else if index == 6 {
            Ok(Register::X6)
        } else if index == 7 {
            Ok(Register::X7)
        } else if index == 8 {
            Ok(Register::X8)
        } else if index == 9 {
            Ok(Register::X9)
        } else if index == 10 {
            Ok(Register::X10)
        } else if index == 11 {
            Ok(Register::X11)
        } else if index == 12 {
            Ok(Register::X12)
        } else if index == 13 {
            Ok(Register::X13)
        } else if index == 14 {
            Ok(Register::X14)
        } else if index == 15 {
            Ok(Register::X15)
        } else if index == 16 {
            Ok(Register::X16)
        } else if index == 17 {
            Ok(Register::X17)
        } else if index == 18 {
            Ok(Register::X18)
        } else if index == 19 {
            Ok(Register::X19)
        } else if index == 20 {
            Ok(Register::X20)
        } else if index == 21 {
            Ok(Register::X21)
        } else if index == 22 {
            Ok(Register::X22)
        } else if index == 23 {
            Ok(Register::X23)
        } else if index == 24 {
            Ok(Register::X24)
        } else if index == 25 {
            Ok(Register::X25)
        } else if index == 26 {
            Ok(Register::X26)
        } else if index == 27 {
            Ok(Register::X27)
        } else if index == 28 {
            Ok(Register::X28)
        } else if index == 29 {
            Ok(Register::X29)
        } else if index == 30 {
            Ok(Register::X30)
        } else if index == 31 {
            Ok(Register::X31)
        } else {
            Err(DecodeError::InvalidRegister(index))
        }
    }

    /// Computes [`Register::index`]; the number is below the register count.
    pub fn to_index(&self) -> (index: u32)
        ensures
            index == self.index(),
            index < REGISTER_COUNT,
            Register::of_index(index) == Ok::<Register, DecodeError>(*self),
    {
        reveal(Register::of_index);
        match self {
            Register::X0 => 0,
            Register::X1 => 1,
            Register::X2 => 2,
            Register::X3 => 3,
            Register::X4 => 4,
            Register::X5 => 5,
            Register::X6 => 6,
            Register::X7 => 7,
            Register::X8 => 8,
            Register::X9 => 9,
            Register::X10 => 10,
            Register::X11 => 11,
            Register::X12 => 12,
            Register::X13 => 13,
            Register::X14 => 14,
            Register::X15 => 15,
            Register::X16 => 16,
            Register::X17 => 17,
            Register::X18 => 18,
            Register::X19 => 19,
            Register::X20 => 20,
            Register::X21 => 21,
            Register::X22 => 22,
            Register::X23 => 23,
            Register::X24 => 24,
            Register::X25 => 25,
            Register::X26 => 26,
            Register::X27 => 27,
            Register::X28 => 28,
            Register::X29 => 29,
            Register::X30 => 30,
            Register::X31 => 31,
        }
    }

    /// Computes [`Register::of_index`]: a number below the register count
    /// gives the register that has it, any other number is an error.
    pub fn from_index(index: u32) -> (register: Result<Register, DecodeError>)
        ensures
            register == Register::of_index(index),
            index < REGISTER_COUNT <==> register is Ok,
            register is Ok ==> register->Ok_0.index() == index,
            register is Err ==> register == Err::<Register, DecodeError>(
                DecodeError::InvalidRegister(index),
            ),
    {
        reveal(Register::of_index);
        if index == 0 {
            Ok(Register::X0)
        } else if index == 1 {
            Ok(Register::X1)
        } else if index == 2 {
            Ok(Register::X2)
        } else if index == 3 {
            Ok(Register::X3)
        } else if index == 4 {
            Ok(Register::X4)
        } else if index == 5 {
            Ok(Register::X5)
        } else if index == 6 {
            Ok(Register::X6)
        } else if index == 7 {
            Ok(Register::X7)
        } else if index == 8 {
            Ok(Register::X8)
        } else if index == 9 {
            Ok(Register::X9)
        } else if index == 10 {
            Ok(Register::X10)
        } else if index == 11 {
            Ok(Register::X11)
        } else if index == 12 {
            Ok(Register::X12)
        } else if index == 13 {
            Ok(Register::X13)
        } else if index == 14 {
            Ok(Register::X14)
        } else if index == 15 {
            Ok(Register::X15)
        } else if index == 16 {
            Ok(Register::X16)
        } else if index == 17 {
            Ok(Register::X17)
        } else if index == 18 {
            Ok(Register::X18)
        } else if index == 19 {
            Ok(Register::X19)
        } else if index == 20 {
            Ok(Register::X20)
        } else if index == 21 {
            Ok(Register::X21)
        } else if index == 22 {
            Ok(Register::X22)
        } else if index == 23 {
            Ok(Register::X23)
        } else if index == 24 {
            Ok(Register::X24)
        } else if index == 25 {
            Ok(Register::X25)
        } else if index == 26 {
            Ok(Register::X26)
        } else if index == 27 {
            Ok(Register::X27)
        } else if index == 28 {
            Ok(Register::X28)
        } else if index == 29 {
            Ok(Register::X29)
        } else if index == 30 {
            Ok(Register::X30)
        } else if index == 31 {
            Ok(Register::X31)
        } else {
            Err(DecodeError::InvalidRegister(index))
        }
    }

    /// A register's number is below the register count, and the register
    /// comes back from it.
    pub proof fn lemma_index_round_trip(register: Register)
        ensures
            register.index() < REGISTER_COUNT,
            Register::of_index(register.index()) == Ok::<Register, DecodeError>(register),
    {
        reveal(Register::of_index);
    }

    /// Every number below the register count is some register's number, and
    /// no other is.
    pub proof fn lemma_of_index(index: u32)
        ensures
            index < REGISTER_COUNT ==> Register::of_index(index) is Ok && Register::of_index(
                index,
            )->Ok_0.index() == index,
            index >= REGISTER_COUNT ==> Register::of_index(index) == Err::<Register, DecodeError>(
                DecodeError::InvalidRegister(index),
            ),
    {
        reveal(Register::of_index);
    }
}

impl Codec for Register {
    open spec fn raw(&self) -> u32 {
        self.index()
    }

    open spec fn from_raw(raw: u32) -> Result<Self, DecodeError> {
        Register::of_index(raw)
    }

    fn to_raw(&self) -> (raw: u32) {
        self.to_index()
    }

    fn try_from_raw(raw: u32) -> (operand: Result<Self, DecodeError>) {
        Register::from_index(raw)
    }
}

} // verus!

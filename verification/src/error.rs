//! The error kinds that the pool raises or hands on.

use vstd::prelude::*;

verus! {

/// A rejection raised by the pool's own validation.
#[derive(Debug, Copy, Clone, PartialEq, Eq, Structural)]
pub enum AMMErrors {
    /// The request's tag names no known operation.
    InvalidInstructionMethodID,
    /// The request payload is empty.
    InvalidInstructionData,
    /// The supplied pool-record address is not the derived one.
    DataAccountMismatch,
    /// An asset identity does not fit the pair.
    TokenMintMismatch,
}

impl AMMErrors {
    /// The number under which this error is reported to the host.
    pub open spec fn spec_code(self) -> u32 {
        match self {
            AMMErrors::InvalidInstructionMethodID => 0u32,
            AMMErrors::InvalidInstructionData => 1u32,
            AMMErrors::DataAccountMismatch => 2u32,
            AMMErrors::TokenMintMismatch => 3u32,
        }
    }

    /// The number under which this error is reported to the host.
    pub fn code(&self) -> (c: u32)
        ensures
            c == self.spec_code(),
    {
        match self {
            AMMErrors::InvalidInstructionMethodID => 0u32,
            AMMErrors::InvalidInstructionData => 1u32,
            AMMErrors::DataAccountMismatch => 2u32,
            AMMErrors::TokenMintMismatch => 3u32,
        }
    }

    /// The text that describes this error.
    pub fn message(&self) -> (text: &'static str)
        ensures
            text@ == self.spec_message(),
    {
        match self {
            AMMErrors::InvalidInstructionMethodID => "Invalid Instruction",
            AMMErrors::InvalidInstructionData => "Invalid Instruction",
            AMMErrors::DataAccountMismatch => "Data account mismatch",
            AMMErrors::TokenMintMismatch => "Token mint mismatch",
        }
    }

    /// The text that describes this error.
    pub open spec fn spec_message(self) -> Seq<char> {
        match self {
            AMMErrors::InvalidInstructionMethodID => "Invalid Instruction"@,
            AMMErrors::InvalidInstructionData => "Invalid Instruction"@,
            AMMErrors::DataAccountMismatch => "Data account mismatch"@,
            AMMErrors::TokenMintMismatch => "Token mint mismatch"@,
        }
    }
}

/// Why an operation was aborted, as the host is told.
#[derive(Debug, Copy, Clone, PartialEq, Eq, Structural)]
pub enum PoolError {
    /// One of the pool's own rejections, by its number.
    Custom(u32),
    /// The request lists fewer accounts than the operation needs.
    NotEnoughAccountKeys,
    /// The pool-record account already holds data.
    AccountAlreadyInitialized,
    /// An account's data is malformed.
    InvalidAccountData,
    /// An account's data decodes to a record that was never initialized.
    UninitializedAccount,
    /// The funding rules could not be read.
    InvalidArgument,
    /// No identity could be derived from a seed.
    InvalidSeeds,
    /// The settlement left the numeric domain in which it is computed.
    ArithmeticOverflow,
}

impl From<AMMErrors> for PoolError {
    fn from(e: AMMErrors) -> (r: PoolError) {
        PoolError::Custom(e.code())
    }
}

impl vstd::std_specs::convert::FromSpecImpl<AMMErrors> for PoolError {
    open spec fn obeys_from_spec() -> bool {
        true
    }

    open spec fn from_spec(e: AMMErrors) -> PoolError {
        PoolError::Custom(e.spec_code())
    }
}

/// Different rejections are reported under different numbers.
pub proof fn lemma_codes_are_distinct(a: AMMErrors, b: AMMErrors)
    ensures
        a.spec_code() == b.spec_code() <==> a == b,
{
}

} // verus!

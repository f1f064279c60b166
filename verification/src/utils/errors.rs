//! The failures an instruction can report.

use vstd::prelude::*;

verus! {

/// The two arithmetic failures of the counter.
#[derive(Clone, Copy, Debug, PartialEq, Eq, Structural)]
pub enum CounterError {
    /// An increment would pass the largest representable count.
    Overflow,
    /// A decrement would go below zero.
    Underflow,
}

/// First code that a program's own errors are numbered from.
pub const ERROR_CODE_OFFSET: u32 = 6000;

impl CounterError {
    /// The code of this error as a mathematical value.
    pub open spec fn spec_code(self) -> int {
        match self {
            CounterError::Overflow => 6000,
            CounterError::Underflow => 6001,
        }
    }

    /// The numeric code under which a caller sees this error.
    pub fn code(&self) -> (code: u32)
        ensures
            code == self.spec_code(),
    {
        match self {
            CounterError::Overflow => ERROR_CODE_OFFSET,
            CounterError::Underflow => ERROR_CODE_OFFSET + 1,
        }
    }

    /// The fixed human-readable message of this error.
    pub fn message(&self) -> (text: &'static str)
        ensures
            *self == CounterError::Overflow ==> text@
                == "Counter overflow: cannot increment beyond u64::MAX"@,
            *self == CounterError::Underflow ==> text@
                == "Counter underflow: cannot decrement below zero"@,
    {
        match self {
            CounterError::Overflow => "Counter overflow: cannot increment beyond u64::MAX",
            CounterError::Underflow => "Counter underflow: cannot decrement below zero",
        }
    }
}

/// Everything that can make an instruction fail.
///
/// All variants but `Counter` are structural: they say that the accounts handed
/// to the instruction do not fit it.
#[derive(Clone, Copy, Debug, PartialEq, Eq, Structural)]
pub enum InstructionError {
    /// The caller has not signed the transaction.
    NotSigner,
    /// No address can be derived for the counter under this program.
    DerivationFailed,
    /// The counter account handed in is not at the derived address.
    AddressMismatch,
    /// The counter account exists already.
    AccountAlreadyExists,
    /// The counter account does not exist yet.
    AccountNotFound,
    /// The arithmetic step failed.
    Counter(CounterError),
}

} // verus!

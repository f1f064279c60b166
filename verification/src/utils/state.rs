//! The counter record, the accounts around it, and the arithmetic of one step.

use vstd::prelude::*;
use crate::utils::address::Address;
use crate::utils::constants::ANCHOR_DISCRIMINATOR;
use crate::utils::errors::CounterError;

verus! {

/// The persisted record: one count.
#[derive(Clone, Copy, Debug, PartialEq, Eq, Structural)]
pub struct Counter {
    pub count: u64,
}

/// Number of bytes that the fields of a `Counter` take when stored.
pub const COUNTER_INIT_SPACE: usize = 8;

/// Number of bytes allocated for the counter account: the schema tag, then the record.
pub const COUNTER_ACCOUNT_SPACE: usize = ANCHOR_DISCRIMINATOR + COUNTER_INIT_SPACE;

/// The counter record as an instruction sees it: where it lives, the bump seed
/// that proves the derivation of that address, and what it holds.
#[derive(Clone, Copy, Debug, PartialEq, Eq)]
pub struct CounterAccount {
    pub key: Address,
    pub bump: u8,
    pub data: Counter,
}

/// An identity that invokes an instruction, and whether it has signed the transaction.
#[derive(Clone, Copy, Debug, PartialEq, Eq)]
pub struct Caller {
    pub key: Address,
    pub signed: bool,
}

/// The count one above `count`, or `Overflow` where there is none.
pub open spec fn incremented(count: u64) -> Result<u64, CounterError> {
    if count < u64::MAX {
        Ok((count + 1) as u64)
    } else {
        Err(CounterError::Overflow)
    }
}

/// The count one below `count`, or `Underflow` where there is none.
pub open spec fn decremented(count: u64) -> Result<u64, CounterError> {
    if count > 0 {
        Ok((count - 1) as u64)
    } else {
        Err(CounterError::Underflow)
    }
}

/// A step never wraps: where it succeeds the new count is exactly one above,
/// or one below, the old count as mathematical integers, and it fails only at
/// the end of the range that it would leave.
pub proof fn lemma_step_exact(count: u64)
    ensures
        incremented(count) is Ok <==> count < u64::MAX,
        decremented(count) is Ok <==> count > 0,
        incremented(count) matches Ok(next) ==> next == count + 1,
        decremented(count) matches Ok(next) ==> next == count - 1,
        incremented(count) matches Err(e) ==> e == CounterError::Overflow,
        decremented(count) matches Err(e) ==> e == CounterError::Underflow,
{
}

/// Incrementing and then decrementing gives the count back, unless the count
/// is the largest one, where the increment fails.
pub proof fn lemma_increment_then_decrement(count: u64)
    requires
        count < u64::MAX,
    ensures
        incremented(count) matches Ok(next) && decremented(next) == Ok::<u64, CounterError>(count),
{
}

/// Decrementing and then incrementing gives the count back, unless the count
/// is zero, where the decrement fails.
pub proof fn lemma_decrement_then_increment(count: u64)
    requires
        count > 0,
    ensures
        decremented(count) matches Ok(next) && incremented(next) == Ok::<u64, CounterError>(count),
{
}

} // verus!

//! Decrement: take one from the count, unless that would go below zero.

use vstd::prelude::*;
use crate::utils::errors::CounterError;
use crate::utils::events::CounterUpdated;
use crate::utils::state::{decremented, Caller, Counter, CounterAccount};

verus! {

/// The accounts of a decrement: any signer, and the existing counter account.
#[derive(Clone, Copy, Debug, PartialEq, Eq)]
pub struct DecrementAccounts {
    pub payer: Caller,
    pub counter: CounterAccount,
}

/// Takes one from the count and returns the event to emit. At a count of zero
/// it fails with `Underflow` and changes nothing.
pub fn handler(accounts: &mut DecrementAccounts) -> (result: Result<CounterUpdated, CounterError>)
    ensures
        match decremented(old(accounts).counter.data.count) {
            Ok(count) => *final(accounts) == (DecrementAccounts {
                counter: CounterAccount { data: Counter { count }, ..old(accounts).counter },
                ..*old(accounts)
            }) && result == Ok::<CounterUpdated, CounterError>(
                CounterUpdated {
                    counter: old(accounts).counter.key,
                    caller: old(accounts).payer.key,
                    count,
                },
            ),
            Err(e) => *final(accounts) == *old(accounts) && result == Err::<CounterUpdated, CounterError>(e),
        },
{
    let count: u64 = match accounts.counter.data.count.checked_sub(1) {
        Some(count) => count,
        None => return Err(CounterError::Underflow),
    };
    accounts.counter.data.count = count;
    Ok(CounterUpdated { counter: accounts.counter.key, caller: accounts.payer.key, count })
}

} // verus!

//! Increment: add one to the count, unless that would overflow.

use vstd::prelude::*;
use crate::utils::errors::CounterError;
use crate::utils::events::CounterUpdated;
use crate::utils::state::{incremented, Caller, Counter, CounterAccount};

verus! {

/// The accounts of an increment: any signer, and the existing counter account.
#[derive(Clone, Copy, Debug, PartialEq, Eq)]
pub struct IncrementAccounts {
    pub payer: Caller,
    pub counter: CounterAccount,
}

/// Adds one to the count and returns the event to emit. At the largest count
/// it fails with `Overflow` and changes nothing.
pub fn handler(accounts: &mut IncrementAccounts) -> (result: Result<CounterUpdated, CounterError>)
    ensures
        match incremented(old(accounts).counter.data.count) {
            Ok(count) => *final(accounts) == (IncrementAccounts {
                counter: CounterAccount { data: Counter { count }, ..old(accounts).counter },
                ..*old(accounts)
            }) && result == Ok::<CounterUpdated, CounterError>(
                CounterUpdated {
                    counter: old(accounts).counter.key,
                    caller: old(accounts).payer.key,
                    count,
                },
            ),
            Err(e) => *final(accounts) == *old(accounts) && result == Err::<CounterUpdated, CounterError>(e),
        },
{
    let count: u64 = match accounts.counter.data.count.checked_add(1) {
        Some(count) => count,
        None => return Err(CounterError::Overflow),
    };
    accounts.counter.data.count = count;
    Ok(CounterUpdated { counter: accounts.counter.key, caller: accounts.payer.key, count })
}

} // verus!

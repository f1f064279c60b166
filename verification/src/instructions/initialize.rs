//! Initialize: set the freshly allocated counter to zero.

use vstd::prelude::*;
use crate::utils::errors::CounterError;
use crate::utils::events::CounterInitialized;
use crate::utils::state::{Caller, Counter, CounterAccount};

verus! {

/// The accounts of an initialize: the signer that pays for the allocation, and
/// the counter account that was just allocated at the derived address.
#[derive(Clone, Copy, Debug, PartialEq, Eq)]
pub struct InitializeAccounts {
    pub payer: Caller,
    pub counter: CounterAccount,
}

/// Sets the count to zero, whatever the fresh account held, and returns the
/// event to emit. It never fails.
pub fn handler(accounts: &mut InitializeAccounts) -> (result: Result<CounterInitialized, CounterError>)
    ensures
        *final(accounts) == (InitializeAccounts {
            counter: CounterAccount { data: Counter { count: 0 }, ..old(accounts).counter },
            ..*old(accounts)
        }),
        result == Ok::<CounterInitialized, CounterError>(
            CounterInitialized {
                counter: old(accounts).counter.key,
                caller: old(accounts).payer.key,
            },
        ),
{
    accounts.counter.data.count = 0;
    Ok(CounterInitialized { counter: accounts.counter.key, caller: accounts.payer.key })
}

} // verus!

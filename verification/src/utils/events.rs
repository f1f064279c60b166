//! The notifications that successful instructions leave in the log.

use vstd::prelude::*;
use crate::utils::address::Address;

verus! {

/// Says that the counter account was created.
#[derive(Clone, Copy, Debug, PartialEq, Eq)]
pub struct CounterInitialized {
    /// Address of the counter account.
    pub counter: Address,
    /// Address of the signer that paid for it.
    pub caller: Address,
}

/// Says that the count was changed.
#[derive(Clone, Copy, Debug, PartialEq, Eq)]
pub struct CounterUpdated {
    /// Address of the counter account.
    pub counter: Address,
    /// Address of the signer that asked for the change.
    pub caller: Address,
    /// The count after the change.
    pub count: u64,
}

/// One entry of the event log.
#[derive(Clone, Copy, Debug, PartialEq, Eq)]
pub enum Event {
    Initialized(CounterInitialized),
    Updated(CounterUpdated),
}

} // verus!

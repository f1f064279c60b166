//! The ledger that hosts the program: the one slot in which the counter
//! account may exist, the event log, and the validation of the accounts that a
//! caller names.

use vstd::prelude::*;
use crate::utils::address::{derived_view, Address};
use crate::utils::errors::InstructionError;
use crate::utils::events::Event;
use crate::utils::state::{Caller, Counter, CounterAccount};

verus! {

/// The state that one deployment of the program owns.
#[derive(Clone, Debug, PartialEq, Eq)]
pub struct Ledger {
    /// Identity of the program.
    pub program_id: Address,
    /// The counter record, once it has been created.
    pub counter: Option<Counter>,
    /// The events emitted so far, oldest first.
    pub log: Vec<Event>,
}

/// The mathematical value of a `Ledger`.
pub struct LedgerView {
    pub program_id: Address,
    pub counter: Option<Counter>,
    pub log: Seq<Event>,
}

impl View for Ledger {
    type V = LedgerView;

    open spec fn view(&self) -> LedgerView {
        LedgerView { program_id: self.program_id, counter: self.counter, log: self.log@ }
    }
}

/// Checks that hold for every instruction: the caller has signed, an address
/// can be derived for the counter, and the account named is at that address.
/// Gives the bump seed of the derivation.
pub open spec fn resolved(
    derived: Option<(Seq<u8>, u8)>,
    caller: Caller,
    counter: Address,
) -> Result<u8, InstructionError> {
    if !caller.signed {
        Err(InstructionError::NotSigner)
    } else {
        match derived {
            None => Err(InstructionError::DerivationFailed),
            Some((address, bump)) => if address == counter@ {
                Ok(bump)
            } else {
                Err(InstructionError::AddressMismatch)
            },
        }
    }
}

/// The counter account that an increment or a decrement works on: the checks
/// of `resolved`, and the record must exist.
pub open spec fn existing_account(
    state: LedgerView,
    derived: Option<(Seq<u8>, u8)>,
    caller: Caller,
    counter: Address,
) -> Result<CounterAccount, InstructionError> {
    match resolved(derived, caller, counter) {
        Err(e) => Err(e),
        Ok(bump) => match state.counter {
            None => Err(InstructionError::AccountNotFound),
            Some(data) => Ok(CounterAccount { key: counter, bump, data }),
        },
    }
}

/// The counter account that an initialize works on: the checks of `resolved`,
/// and the record must not exist yet. The fresh account holds zero.
pub open spec fn fresh_account(
    state: LedgerView,
    derived: Option<(Seq<u8>, u8)>,
    caller: Caller,
    counter: Address,
) -> Result<CounterAccount, InstructionError> {
    match resolved(derived, caller, counter) {
        Err(e) => Err(e),
        Ok(bump) => match state.counter {
            Some(_) => Err(InstructionError::AccountAlreadyExists),
            None => Ok(CounterAccount { key: counter, bump, data: Counter { count: 0 } }),
        },
    }
}

/// Runs the checks that hold for every instruction and gives the bump seed.
pub fn resolve(derived: Option<(Address, u8)>, caller: &Caller, counter: &Address) -> (result:
    Result<u8, InstructionError>)
    ensures
        result == resolved(derived_view(derived), *caller, *counter),
{
    if !caller.signed {
        return Err(InstructionError::NotSigner);
    }
    match derived {
        None => Err(InstructionError::DerivationFailed),
        Some((address, bump)) => {
            if address.same(counter) {
                Ok(bump)
            } else {
                Err(InstructionError::AddressMismatch)
            }
        },
    }
}

impl Ledger {
    /// A ledger for the program `program_id` on which nothing has run yet.
    pub fn new(program_id: Address) -> (ledger: Ledger)
        ensures
            ledger@ == (LedgerView { program_id, counter: None, log: Seq::empty() }),
    {
        Ledger { program_id, counter: None, log: Vec::new() }
    }

    /// The current count, or `None` while the counter account does not exist.
    pub fn count(&self) -> (count: Option<u64>)
        ensures
            count == match self.counter {
                Some(data) => Some(data.count),
                None => None,
            },
    {
        match self.counter {
            Some(data) => Some(data.count),
            None => None,
        }
    }

    /// Validates the accounts of an increment or a decrement and loads the
    /// counter account.
    pub fn existing_account(
        &self,
        derived: Option<(Address, u8)>,
        caller: &Caller,
        counter: &Address,
    ) -> (result: Result<CounterAccount, InstructionError>)
        ensures
            result == existing_account(self@, derived_view(derived), *caller, *counter),
    {
        let bump: u8 = resolve(derived, caller, counter)?;
        match self.counter {
            None => Err(InstructionError::AccountNotFound),
            Some(data) => Ok(CounterAccount { key: *counter, bump, data }),
        }
    }

    /// Validates the accounts of an initialize and hands out the fresh, zeroed
    /// counter account. The ledger itself changes only when the instruction
    /// commits.
    pub fn fresh_account(
        &self,
        derived: Option<(Address, u8)>,
        caller: &Caller,
        counter: &Address,
    ) -> (result: Result<CounterAccount, InstructionError>)
        ensures
            result == fresh_account(self@, derived_view(derived), *caller, *counter),
    {
        let bump: u8 = resolve(derived, caller, counter)?;
        match self.counter {
            Some(_) => Err(InstructionError::AccountAlreadyExists),
            None => Ok(CounterAccount { key: *counter, bump, data: Counter { count: 0 } }),
        }
    }

    /// Commits a successful instruction: stores the record and appends the event.
    pub fn commit(&mut self, data: Counter, event: Event)
        ensures
            final(self)@ == (LedgerView {
                counter: Some(data),
                log: old(self)@.log.push(event),
                ..old(self)@
            }),
    {
        self.counter = Some(data);
        self.log.push(event);
    }
}

} // verus!

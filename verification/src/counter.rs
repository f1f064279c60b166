//! The program's three entry points, run against a ledger.
//!
//! Each entry point validates the accounts, runs the instruction's handler and
//! commits the new record together with its event. Where any step fails the
//! ledger is left exactly as it was.

use vstd::prelude::*;
use crate::instructions::decrement::DecrementAccounts;
use crate::instructions::increment::IncrementAccounts;
use crate::instructions::initialize::InitializeAccounts;
use crate::ledger::{existing_account, fresh_account, resolved, Ledger, LedgerView};
use crate::utils::address::{counter_address, counter_address_of, derived_view, Address};
use crate::utils::errors::{CounterError, InstructionError};
use crate::utils::events::{CounterInitialized, CounterUpdated, Event};
use crate::utils::state::{decremented, incremented, Caller, Counter};

verus! {

/// The ledger after a successful initialize, or the error it fails with.
pub open spec fn initialize_step(
    state: LedgerView,
    derived: Option<(Seq<u8>, u8)>,
    caller: Caller,
    counter: Address,
) -> Result<LedgerView, InstructionError> {
    match fresh_account(state, derived, caller, counter) {
        Err(e) => Err(e),
        Ok(_) => Ok(
            LedgerView {
                counter: Some(Counter { count: 0 }),
                log: state.log.push(
                    Event::Initialized(CounterInitialized { counter, caller: caller.key }),
                ),
                ..state
            },
        ),
    }
}

/// The ledger after an update that found its accounts in order, where
/// `outcome` is what the arithmetic step gave.
pub open spec fn updated(
    state: LedgerView,
    outcome: Result<u64, CounterError>,
    caller: Caller,
    counter: Address,
) -> Result<LedgerView, InstructionError> {
    match outcome {
        Err(e) => Err(InstructionError::Counter(e)),
        Ok(count) => Ok(
            LedgerView {
                counter: Some(Counter { count }),
                log: state.log.push(
                    Event::Updated(CounterUpdated { counter, caller: caller.key, count }),
                ),
                ..state
            },
        ),
    }
}

/// The ledger after a successful increment, or the error it fails with.
pub open spec fn increment_step(
    state: LedgerView,
    derived: Option<(Seq<u8>, u8)>,
    caller: Caller,
    counter: Address,
) -> Result<LedgerView, InstructionError> {
    match existing_account(state, derived, caller, counter) {
        Err(e) => Err(e),
        Ok(account) => updated(state, incremented(account.data.count), caller, counter),
    }
}

/// The ledger after a successful decrement, or the error it fails with.
pub open spec fn decrement_step(
    state: LedgerView,
    derived: Option<(Seq<u8>, u8)>,
    caller: Caller,
    counter: Address,
) -> Result<LedgerView, InstructionError> {
    match existing_account(state, derived, caller, counter) {
        Err(e) => Err(e),
        Ok(account) => updated(state, decremented(account.data.count), caller, counter),
    }
}

/// What an entry point owes: on success the ledger is `step`'s, on failure the
/// error is `step`'s and the ledger is untouched.
pub open spec fn committed(
    step: Result<LedgerView, InstructionError>,
    before: Ledger,
    after: Ledger,
    result: Result<(), InstructionError>,
) -> bool {
    match step {
        Ok(state) => result == Ok::<(), InstructionError>(()) && after@ == state,
        Err(e) => result == Err::<(), InstructionError>(e) && after == before,
    }
}

/// Initialize, given what the derivation of the counter's address returned.
pub fn initialize_with(
    ledger: &mut Ledger,
    derived: Option<(Address, u8)>,
    payer: &Caller,
    counter: &Address,
) -> (result: Result<(), InstructionError>)
    ensures
        committed(
            initialize_step(old(ledger)@, derived_view(derived), *payer, *counter),
            *old(ledger),
            *final(ledger),
            result,
        ),
{
    let account = ledger.fresh_account(derived, payer, counter)?;
    let mut accounts = InitializeAccounts { payer: *payer, counter: account };
    match crate::instructions::initialize::handler(&mut accounts) {
        Ok(event) => {
            ledger.commit(accounts.counter.data, Event::Initialized(event));
            Ok(())
        },
        Err(e) => Err(InstructionError::Counter(e)),
    }
}

/// Increment, given what the derivation of the counter's address returned.
pub fn increment_with(
    ledger: &mut Ledger,
    derived: Option<(Address, u8)>,
    payer: &Caller,
    counter: &Address,
) -> (result: Result<(), InstructionError>)
    ensures
        committed(
            increment_step(old(ledger)@, derived_view(derived), *payer, *counter),
            *old(ledger),
            *final(ledger),
            result,
        ),
{
    let account = ledger.existing_account(derived, payer, counter)?;
    let mut accounts = IncrementAccounts { payer: *payer, counter: account };
    match crate::instructions::increment::handler(&mut accounts) {
        Ok(event) => {
            ledger.commit(accounts.counter.data, Event::Updated(event));
            Ok(())
        },
        Err(e) => Err(InstructionError::Counter(e)),
    }
}

/// Decrement, given what the derivation of the counter's address returned.
pub fn decrement_with(
    ledger: &mut Ledger,
    derived: Option<(Address, u8)>,
    payer: &Caller,
    counter: &Address,
) -> (result: Result<(), InstructionError>)
    ensures
        committed(
            decrement_step(old(ledger)@, derived_view(derived), *payer, *counter),
            *old(ledger),
            *final(ledger),
            result,
        ),
{
    let account = ledger.existing_account(derived, payer, counter)?;
    let mut accounts = DecrementAccounts { payer: *payer, counter: account };
    match crate::instructions::decrement::handler(&mut accounts) {
        Ok(event) => {
            ledger.commit(accounts.counter.data, Event::Updated(event));
            Ok(())
        },
        Err(e) => Err(InstructionError::Counter(e)),
    }
}

/// Creates the counter account at `counter` with a count of zero, paid by
/// `payer`, and logs a `CounterInitialized` event.
pub fn initialize(ledger: &mut Ledger, payer: &Caller, counter: &Address) -> (result: Result<
    (),
    InstructionError,
>)
    ensures
        committed(
            initialize_step(
                old(ledger)@,
                counter_address_of(old(ledger).program_id),
                *payer,
                *counter,
            ),
            *old(ledger),
            *final(ledger),
            result,
        ),
{
    let derived = counter_address(&ledger.program_id);
    initialize_with(ledger, derived, payer, counter)
}

/// Adds one to the count of the counter account at `counter` and logs a
/// `CounterUpdated` event; fails with `Overflow` at the largest count.
pub fn increment(ledger: &mut Ledger, payer: &Caller, counter: &Address) -> (result: Result<
    (),
    InstructionError,
>)
    ensures
        committed(
            increment_step(
                old(ledger)@,
                counter_address_of(old(ledger).program_id),
                *payer,
                *counter,
            ),
            *old(ledger),
            *final(ledger),
            result,
        ),
{
    let derived = counter_address(&ledger.program_id);
    increment_with(ledger, derived, payer, counter)
}

/// Takes one from the count of the counter account at `counter` and logs a
/// `CounterUpdated` event; fails with `Underflow` at zero.
pub fn decrement(ledger: &mut Ledger, payer: &Caller, counter: &Address) -> (result: Result<
    (),
    InstructionError,
>)
    ensures
        committed(
            decrement_step(
                old(ledger)@,
                counter_address_of(old(ledger).program_id),
                *payer,
                *counter,
            ),
            *old(ledger),
            *final(ledger),
            result,
        ),
{
    let derived = counter_address(&ledger.program_id);
    decrement_with(ledger, derived, payer, counter)
}

/// Initialize works once: after a successful initialize the count is zero, and
/// a second initialize on that ledger fails, whoever calls it. Where its
/// accounts are in order, it fails because the account exists already.
pub proof fn lemma_initialize_only_once(
    state: LedgerView,
    derived: Option<(Seq<u8>, u8)>,
    first: Caller,
    second: Caller,
    counter: Address,
    again: Address,
)
    requires
        initialize_step(state, derived, first, counter) is Ok,
    ensures
        initialize_step(state, derived, first, counter)->Ok_0.counter == Some(Counter { count: 0 }),
        initialize_step(
            initialize_step(state, derived, first, counter)->Ok_0,
            derived,
            second,
            again,
        ) is Err,
        resolved(derived, second, again) is Ok ==> initialize_step(
            initialize_step(state, derived, first, counter)->Ok_0,
            derived,
            second,
            again,
        ) == Err::<LedgerView, InstructionError>(InstructionError::AccountAlreadyExists),
{
}

/// A successful increment followed by a decrement with accounts in order gives
/// the record back as it was.
pub proof fn lemma_increment_then_decrement_restores(
    state: LedgerView,
    derived: Option<(Seq<u8>, u8)>,
    first: Caller,
    second: Caller,
    counter: Address,
)
    requires
        increment_step(state, derived, first, counter) is Ok,
        resolved(derived, second, counter) is Ok,
    ensures
        decrement_step(
            increment_step(state, derived, first, counter)->Ok_0,
            derived,
            second,
            counter,
        ) matches Ok(after) && after.counter == state.counter,
{
}

/// A successful decrement followed by an increment with accounts in order gives
/// the record back as it was.
pub proof fn lemma_decrement_then_increment_restores(
    state: LedgerView,
    derived: Option<(Seq<u8>, u8)>,
    first: Caller,
    second: Caller,
    counter: Address,
)
    requires
        decrement_step(state, derived, first, counter) is Ok,
        resolved(derived, second, counter) is Ok,
    ensures
        increment_step(
            decrement_step(state, derived, first, counter)->Ok_0,
            derived,
            second,
            counter,
        ) matches Ok(after) && after.counter == state.counter,
{
}

/// An update moves the count by exactly one and never wraps: an increment
/// succeeds on every existing count but the largest and gives the count plus
/// one, a decrement succeeds on every existing count but zero and gives the
/// count minus one.
pub proof fn lemma_update_moves_by_one(
    state: LedgerView,
    derived: Option<(Seq<u8>, u8)>,
    caller: Caller,
    counter: Address,
)
    requires
        existing_account(state, derived, caller, counter) is Ok,
    ensures
        increment_step(state, derived, caller, counter) is Ok <==> state.counter->Some_0.count
            < u64::MAX,
        decrement_step(state, derived, caller, counter) is Ok <==> state.counter->Some_0.count > 0,
        increment_step(state, derived, caller, counter) matches Ok(after) ==> after.counter
            is Some && after.counter->Some_0.count == state.counter->Some_0.count + 1,
        decrement_step(state, derived, caller, counter) matches Ok(after) ==> after.counter
            is Some && after.counter->Some_0.count == state.counter->Some_0.count - 1,
        increment_step(state, derived, caller, counter) matches Err(e) ==> e
            == InstructionError::Counter(CounterError::Overflow),
        decrement_step(state, derived, caller, counter) matches Err(e) ==> e
            == InstructionError::Counter(CounterError::Underflow),
{
}

/// Every successful instruction appends exactly one event to the log and
/// keeps the events before it; the program's identity never changes.
pub proof fn lemma_success_logs_one_event(
    state: LedgerView,
    derived: Option<(Seq<u8>, u8)>,
    caller: Caller,
    counter: Address,
)
    ensures
        initialize_step(state, derived, caller, counter) matches Ok(after) ==> after.log
            == state.log.push(
            Event::Initialized(CounterInitialized { counter, caller: caller.key }),
        ) && after.program_id == state.program_id,
        increment_step(state, derived, caller, counter) matches Ok(after) ==> after.log
            == state.log.push(
            Event::Updated(
                CounterUpdated { counter, caller: caller.key, count: after.counter->Some_0.count },
            ),
        ) && after.program_id == state.program_id,
        decrement_step(state, derived, caller, counter) matches Ok(after) ==> after.log
            == state.log.push(
            Event::Updated(
                CounterUpdated { counter, caller: caller.key, count: after.counter->Some_0.count },
            ),
        ) && after.program_id == state.program_id,
{
}

} // verus!

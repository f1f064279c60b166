//! Whole runs of the program: what a ledger holds after any sequence of
//! invocations, each of which either commits or leaves the ledger as it was.

use vstd::prelude::*;
use crate::counter::{
    committed, decrement_step, decrement_with, increment_step, increment_with, initialize_step,
    initialize_with,
};
use crate::ledger::{Ledger, LedgerView};
use crate::utils::address::{derived_view, Address};
use crate::utils::errors::InstructionError;
use crate::utils::state::Caller;

verus! {

/// The three instructions of the program.
#[derive(Clone, Copy, Debug, PartialEq, Eq, Structural)]
pub enum Instruction {
    Initialize,
    Increment,
    Decrement,
}

/// One call of the program: the instruction and the accounts it names.
#[derive(Clone, Copy, Debug, PartialEq, Eq)]
pub struct Invocation {
    pub instruction: Instruction,
    pub payer: Caller,
    pub counter: Address,
}

/// The ledger after a successful invocation, or the error it fails with.
pub open spec fn outcome(
    state: LedgerView,
    derived: Option<(Seq<u8>, u8)>,
    call: Invocation,
) -> Result<LedgerView, InstructionError> {
    match call.instruction {
        Instruction::Initialize => initialize_step(state, derived, call.payer, call.counter),
        Instruction::Increment => increment_step(state, derived, call.payer, call.counter),
        Instruction::Decrement => decrement_step(state, derived, call.payer, call.counter),
    }
}

/// The ledger after an invocation, whether it committed or failed.
pub open spec fn after(
    state: LedgerView,
    derived: Option<(Seq<u8>, u8)>,
    call: Invocation,
) -> LedgerView {
    match outcome(state, derived, call) {
        Ok(next) => next,
        Err(_) => state,
    }
}

/// The ledger after the invocations `calls`, run in order from `state`.
pub open spec fn replay(
    state: LedgerView,
    derived: Option<(Seq<u8>, u8)>,
    calls: Seq<Invocation>,
) -> LedgerView
    decreases calls.len(),
{
    if calls.len() == 0 {
        state
    } else {
        after(replay(state, derived, calls.drop_last()), derived, calls.last())
    }
}

/// What one invocation adds to the count: one for an increment that commits,
/// minus one for a decrement that commits, nothing otherwise.
pub open spec fn change(
    state: LedgerView,
    derived: Option<(Seq<u8>, u8)>,
    call: Invocation,
) -> int {
    if outcome(state, derived, call) is Err {
        0
    } else {
        match call.instruction {
            Instruction::Initialize => 0,
            Instruction::Increment => 1,
            Instruction::Decrement => -1,
        }
    }
}

/// The sum of the changes of the invocations `calls`, run in order from `state`.
pub open spec fn net_change(
    state: LedgerView,
    derived: Option<(Seq<u8>, u8)>,
    calls: Seq<Invocation>,
) -> int
    decreases calls.len(),
{
    if calls.len() == 0 {
        0
    } else {
        net_change(state, derived, calls.drop_last()) + change(
            replay(state, derived, calls.drop_last()),
            derived,
            calls.last(),
        )
    }
}

/// The number of invocations among `calls`, run in order from `state`, that commit.
pub open spec fn commits(
    state: LedgerView,
    derived: Option<(Seq<u8>, u8)>,
    calls: Seq<Invocation>,
) -> nat
    decreases calls.len(),
{
    if calls.len() == 0 {
        0
    } else {
        let before = replay(state, derived, calls.drop_last());
        let one: nat = if outcome(before, derived, calls.last()) is Ok {
            1
        } else {
            0
        };
        commits(state, derived, calls.drop_last()) + one
    }
}

/// The count that a ledger shows: zero while the counter does not exist.
pub open spec fn shown(state: LedgerView) -> int {
    match state.counter {
        Some(data) => data.count as int,
        None => 0,
    }
}

/// Runs one invocation against the ledger, given what the derivation of the
/// counter's address returned.
pub fn invoke(ledger: &mut Ledger, derived: Option<(Address, u8)>, call: &Invocation) -> (result:
    Result<(), InstructionError>)
    ensures
        committed(
            outcome(old(ledger)@, derived_view(derived), *call),
            *old(ledger),
            *final(ledger),
            result,
        ),
        final(ledger)@ == after(old(ledger)@, derived_view(derived), *call),
{
    match call.instruction {
        Instruction::Initialize => initialize_with(ledger, derived, &call.payer, &call.counter),
        Instruction::Increment => increment_with(ledger, derived, &call.payer, &call.counter),
        Instruction::Decrement => decrement_with(ledger, derived, &call.payer, &call.counter),
    }
}

/// In every state that a run reaches, the count is the count at the start
/// plus the increments that committed minus the decrements that committed, as
/// mathematical integers: it never wraps and never leaves the range of an
/// unsigned 64-bit integer. A counter that exists stays in existence, the
/// log grows by one event for each invocation that commits and keeps all
/// earlier events, and the program's identity stays.
pub proof fn lemma_run_counts_exactly(
    state: LedgerView,
    derived: Option<(Seq<u8>, u8)>,
    calls: Seq<Invocation>,
)
    ensures
        shown(replay(state, derived, calls)) == shown(state) + net_change(state, derived, calls),
        0 <= shown(state) + net_change(state, derived, calls) <= u64::MAX,
        state.counter is Some ==> replay(state, derived, calls).counter is Some,
        replay(state, derived, calls).log.len() == state.log.len() + commits(
            state,
            derived,
            calls,
        ),
        replay(state, derived, calls).log.subrange(0, state.log.len() as int) == state.log,
        replay(state, derived, calls).program_id == state.program_id,
    decreases calls.len(),
{
    if calls.len() == 0 {
        assert(state.log.subrange(0, state.log.len() as int) =~= state.log);
    } else {
        lemma_run_counts_exactly(state, derived, calls.drop_last());
        let before = replay(state, derived, calls.drop_last());
        let end = replay(state, derived, calls);
        assert(end == after(before, derived, calls.last()));
        assert(end.log.subrange(0, state.log.len() as int) =~= before.log.subrange(
            0,
            state.log.len() as int,
        ));
    }
}

/// Once an initialize has committed in a run, every later initialize of that
/// run fails.
pub proof fn lemma_run_initializes_once(
    state: LedgerView,
    derived: Option<(Seq<u8>, u8)>,
    calls: Seq<Invocation>,
    i: int,
    j: int,
)
    requires
        0 <= i < j < calls.len(),
        calls[i].instruction == Instruction::Initialize,
        outcome(replay(state, derived, calls.take(i)), derived, calls[i]) is Ok,
        calls[j].instruction == Instruction::Initialize,
    ensures
        outcome(replay(state, derived, calls.take(j)), derived, calls[j]) is Err,
{
    let middle = calls.take(j).skip(i + 1);
    let created = replay(state, derived, calls.take(i + 1));
    assert(calls.take(i + 1).drop_last() =~= calls.take(i));
    assert(calls.take(i + 1).last() == calls[i]);
    assert(created.counter is Some);
    lemma_replay_splits(state, derived, calls.take(i + 1), middle);
    assert(calls.take(i + 1) + middle =~= calls.take(j));
    lemma_run_counts_exactly(created, derived, middle);
}

/// Running `first` and then `second` is running the two in one sequence.
pub proof fn lemma_replay_splits(
    state: LedgerView,
    derived: Option<(Seq<u8>, u8)>,
    first: Seq<Invocation>,
    second: Seq<Invocation>,
)
    ensures
        replay(state, derived, first + second) == replay(
            replay(state, derived, first),
            derived,
            second,
        ),
    decreases second.len(),
{
    if second.len() == 0 {
        assert(first + second =~= first);
    } else {
        lemma_replay_splits(state, derived, first, second.drop_last());
        assert((first + second).drop_last() =~= first + second.drop_last());
        assert((first + second).last() == second.last());
    }
}

} // verus!

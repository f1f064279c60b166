use counter::history::{invoke, Instruction, Invocation};
use counter::ledger::Ledger;
use counter::utils::address::{counter_address, Address};
use counter::utils::constants::program_id;
use counter::utils::errors::{CounterError, InstructionError};
use counter::utils::events::{CounterInitialized, CounterUpdated, Event};
use counter::utils::state::{Caller, Counter};

fn call(instruction: Instruction, tag: u8, counter: Address) -> Invocation {
    Invocation {
        instruction,
        payer: Caller { key: Address::new([tag; 32]), signed: true },
        counter,
    }
}

#[test]
fn invoke_runs_the_named_instruction() {
    let mut ledger = Ledger::new(program_id());
    let derived = counter_address(&ledger.program_id);
    let key = derived.unwrap().0;
    assert_eq!(invoke(&mut ledger, derived, &call(Instruction::Initialize, 1, key)), Ok(()));
    assert_eq!(ledger.count(), Some(0));
    assert_eq!(invoke(&mut ledger, derived, &call(Instruction::Increment, 2, key)), Ok(()));
    assert_eq!(ledger.count(), Some(1));
    assert_eq!(invoke(&mut ledger, derived, &call(Instruction::Decrement, 3, key)), Ok(()));
    assert_eq!(ledger.count(), Some(0));
    assert_eq!(
        ledger.log,
        vec![
            Event::Initialized(CounterInitialized { counter: key, caller: Address::new([1; 32]) }),
            Event::Updated(CounterUpdated {
                counter: key,
                caller: Address::new([2; 32]),
                count: 1
            }),
            Event::Updated(CounterUpdated {
                counter: key,
                caller: Address::new([3; 32]),
                count: 0
            }),
        ]
    );
}

#[test]
fn run_counts_commits_only() {
    let mut ledger = Ledger::new(program_id());
    let derived = counter_address(&ledger.program_id);
    let key = derived.unwrap().0;
    let steps = [
        (Instruction::Increment, Err(InstructionError::AccountNotFound)),
        (Instruction::Initialize, Ok(())),
        (Instruction::Decrement, Err(InstructionError::Counter(CounterError::Underflow))),
        (Instruction::Increment, Ok(())),
        (Instruction::Increment, Ok(())),
        (Instruction::Initialize, Err(InstructionError::AccountAlreadyExists)),
        (Instruction::Decrement, Ok(())),
        (Instruction::Increment, Ok(())),
    ];
    let mut commits = 0;
    let mut net: i64 = 0;
    for (instruction, expected) in steps {
        let before = ledger.clone();
        let result = invoke(&mut ledger, derived, &call(instruction, 9, key));
        assert_eq!(result, expected);
        if result.is_ok() {
            commits += 1;
            net += match instruction {
                Instruction::Initialize => 0,
                Instruction::Increment => 1,
                Instruction::Decrement => -1,
            };
            assert_eq!(ledger.log[..before.log.len()].to_vec(), before.log);
        } else {
            assert_eq!(ledger, before);
        }
        assert_eq!(ledger.log.len(), commits);
    }
    assert_eq!(net, 2);
    assert_eq!(ledger.count(), Some(2));
    assert_eq!(commits, 5);
}

#[test]
fn failed_instruction_leaves_the_ledger_as_it_was() {
    let mut ledger = Ledger::new(program_id());
    let derived = counter_address(&ledger.program_id);
    let key = derived.unwrap().0;
    ledger.counter = Some(Counter { count: u64::MAX });
    let before = ledger.clone();
    assert_eq!(
        invoke(&mut ledger, derived, &call(Instruction::Increment, 1, key)),
        Err(InstructionError::Counter(CounterError::Overflow))
    );
    assert_eq!(ledger, before);
    assert_eq!(
        invoke(&mut ledger, derived, &call(Instruction::Initialize, 1, key)),
        Err(InstructionError::AccountAlreadyExists)
    );
    assert_eq!(ledger, before);
    assert_eq!(
        invoke(&mut ledger, None, &call(Instruction::Decrement, 1, key)),
        Err(InstructionError::DerivationFailed)
    );
    assert_eq!(ledger, before);
}

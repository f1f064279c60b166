use std::str::FromStr;

use anchor_lang::prelude::Pubkey;
use counter::instructions::{DecrementAccounts, IncrementAccounts, InitializeAccounts};
use counter::ledger::{resolve, Ledger};
use counter::utils::address::{counter_address, Address};
use counter::utils::constants::{counter_seed_bytes, program_id, ANCHOR_DISCRIMINATOR};
use counter::utils::errors::{CounterError, InstructionError, ERROR_CODE_OFFSET};
use counter::utils::events::{CounterInitialized, CounterUpdated};
use counter::utils::state::{
    Caller, Counter, CounterAccount, COUNTER_ACCOUNT_SPACE, COUNTER_INIT_SPACE,
};

fn account(count: u64) -> CounterAccount {
    CounterAccount { key: Address::new([5; 32]), bump: 254, data: Counter { count } }
}

fn payer() -> Caller {
    Caller { key: Address::new([6; 32]), signed: true }
}

#[test]
fn program_id_is_the_published_one() {
    let expected = Pubkey::from_str("AtoUtAszTsCzvdm54bKsc28PpYnNaA2pg7zYkyXPtiCw").unwrap();
    assert_eq!(program_id().bytes, expected.to_bytes());
}

#[test]
fn seed_is_the_word_counter() {
    assert_eq!(&counter_seed_bytes()[..], &b"counter"[..]);
}

#[test]
fn account_space_is_tag_plus_one_integer() {
    assert_eq!(ANCHOR_DISCRIMINATOR, 8);
    assert_eq!(COUNTER_INIT_SPACE, 8);
    assert_eq!(COUNTER_ACCOUNT_SPACE, 16);
}

#[test]
fn counter_address_is_the_platform_derivation() {
    let id = program_id();
    let (key, bump) = counter_address(&id).expect("the counter has an address");
    let outside_id = Pubkey::new_from_array(id.bytes);
    let (expected, expected_bump) = Pubkey::find_program_address(&[&b"counter"[..]], &outside_id);
    assert_eq!(key.bytes, expected.to_bytes());
    assert_eq!(bump, expected_bump);
    let rebuilt =
        Pubkey::create_program_address(&[&b"counter"[..], &[bump][..]], &outside_id).unwrap();
    assert_eq!(key.bytes, rebuilt.to_bytes());
    assert!(!expected.is_on_curve());
}

#[test]
fn counter_address_is_not_the_program_id() {
    let id = program_id();
    let (key, _) = counter_address(&id).unwrap();
    assert_ne!(key, id);
}

#[test]
fn counter_address_is_recomputed_identically() {
    let id = program_id();
    assert_eq!(counter_address(&id), counter_address(&id));
}

#[test]
fn counter_address_depends_on_the_program() {
    let first = counter_address(&Address::new([1; 32])).unwrap();
    let second = counter_address(&Address::new([2; 32])).unwrap();
    assert_ne!(first.0, second.0);
}

#[test]
fn same_compares_all_bytes() {
    let a = Address::new([3; 32]);
    let mut bytes = [3u8; 32];
    assert!(a.same(&Address::new(bytes)));
    bytes[31] = 4;
    assert!(!a.same(&Address::new(bytes)));
    bytes[31] = 3;
    bytes[0] = 0;
    assert!(!a.same(&Address::new(bytes)));
}

#[test]
fn initialize_handler_zeroes_the_count() {
    let mut accounts = InitializeAccounts { payer: payer(), counter: account(77) };
    let event = counter::instructions::initialize::handler(&mut accounts);
    assert_eq!(
        event,
        Ok(CounterInitialized { counter: Address::new([5; 32]), caller: Address::new([6; 32]) })
    );
    assert_eq!(accounts, InitializeAccounts { payer: payer(), counter: account(0) });
}

#[test]
fn increment_handler_adds_one() {
    let mut accounts = IncrementAccounts { payer: payer(), counter: account(9) };
    let event = counter::instructions::increment::handler(&mut accounts);
    assert_eq!(
        event,
        Ok(CounterUpdated {
            counter: Address::new([5; 32]),
            caller: Address::new([6; 32]),
            count: 10
        })
    );
    assert_eq!(accounts, IncrementAccounts { payer: payer(), counter: account(10) });
}

#[test]
fn increment_handler_overflows_at_the_top() {
    let mut accounts = IncrementAccounts { payer: payer(), counter: account(u64::MAX) };
    let event = counter::instructions::increment::handler(&mut accounts);
    assert_eq!(event, Err(CounterError::Overflow));
    assert_eq!(accounts, IncrementAccounts { payer: payer(), counter: account(u64::MAX) });
}

#[test]
fn decrement_handler_takes_one() {
    let mut accounts = DecrementAccounts { payer: payer(), counter: account(9) };
    let event = counter::instructions::decrement::handler(&mut accounts);
    assert_eq!(
        event,
        Ok(CounterUpdated {
            counter: Address::new([5; 32]),
            caller: Address::new([6; 32]),
            count: 8
        })
    );
    assert_eq!(accounts, DecrementAccounts { payer: payer(), counter: account(8) });
}

#[test]
fn decrement_handler_underflows_at_zero() {
    let mut accounts = DecrementAccounts { payer: payer(), counter: account(0) };
    let event = counter::instructions::decrement::handler(&mut accounts);
    assert_eq!(event, Err(CounterError::Underflow));
    assert_eq!(accounts, DecrementAccounts { payer: payer(), counter: account(0) });
}

#[test]
fn resolve_checks_signer_then_derivation_then_address() {
    let key = Address::new([5; 32]);
    let other = Address::new([8; 32]);
    let unsigned = Caller { key: Address::new([6; 32]), signed: false };
    assert_eq!(resolve(None, &unsigned, &key), Err(InstructionError::NotSigner));
    assert_eq!(resolve(None, &payer(), &key), Err(InstructionError::DerivationFailed));
    assert_eq!(resolve(Some((other, 250)), &payer(), &key), Err(InstructionError::AddressMismatch));
    assert_eq!(resolve(Some((key, 250)), &payer(), &key), Ok(250));
}

#[test]
fn accounts_are_loaded_with_key_and_bump() {
    let key = Address::new([5; 32]);
    let mut ledger = Ledger::new(Address::new([1; 32]));
    assert_eq!(
        ledger.fresh_account(Some((key, 254)), &payer(), &key),
        Ok(CounterAccount { key, bump: 254, data: Counter { count: 0 } })
    );
    assert_eq!(
        ledger.existing_account(Some((key, 254)), &payer(), &key),
        Err(InstructionError::AccountNotFound)
    );
    ledger.counter = Some(Counter { count: 12 });
    assert_eq!(
        ledger.existing_account(Some((key, 254)), &payer(), &key),
        Ok(CounterAccount { key, bump: 254, data: Counter { count: 12 } })
    );
    assert_eq!(
        ledger.fresh_account(Some((key, 254)), &payer(), &key),
        Err(InstructionError::AccountAlreadyExists)
    );
}

#[test]
fn errors_carry_fixed_messages_and_codes() {
    assert_eq!(
        CounterError::Overflow.message(),
        "Counter overflow: cannot increment beyond u64::MAX"
    );
    assert_eq!(
        CounterError::Underflow.message(),
        "Counter underflow: cannot decrement below zero"
    );
    assert_eq!(ERROR_CODE_OFFSET, 6000);
    assert_eq!(CounterError::Overflow.code(), 6000);
    assert_eq!(CounterError::Underflow.code(), 6001);
}

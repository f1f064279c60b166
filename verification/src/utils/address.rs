//! Addresses and the derivation of the counter's address.

use vstd::prelude::*;
use anchor_lang::prelude::Pubkey;
use crate::utils::constants::{counter_seed, counter_seed_bytes};

verus! {

/// The 32 bytes that name an account or a program.
#[derive(Clone, Copy, Debug, PartialEq, Eq)]
pub struct Address {
    pub bytes: [u8; 32],
}

impl View for Address {
    type V = Seq<u8>;

    open spec fn view(&self) -> Seq<u8> {
        self.bytes@
    }
}

impl Address {
    /// Wraps 32 bytes as an address.
    pub fn new(bytes: [u8; 32]) -> (address: Address)
        ensures
            address.bytes == bytes,
    {
        Address { bytes }
    }

    /// Tells whether two addresses hold the same bytes.
    pub fn same(&self, other: &Address) -> (equal: bool)
        ensures
            equal == (self@ == other@),
            equal == (*self == *other),
    {
        let mut i: usize = 0;
        while i < 32
            invariant
                i <= 32,
                forall|j: int| 0 <= j < i ==> self.bytes[j] == other.bytes[j],
            decreases 32 - i,
        {
            if self.bytes[i] != other.bytes[i] {
                return false;
            }
            i += 1;
        }
        assert(self.bytes =~= other.bytes);
        true
    }
}

/// The address and bump seed that the platform derives from one seed and a
/// program's identity, or `None` where no bump seed gives an address.
pub uninterp spec fn program_address(seed: Seq<u8>, program_id: Seq<u8>) -> Option<(Seq<u8>, u8)>;

/// Calls `Pubkey::try_find_program_address` of `anchor_lang` with the single
/// seed `seed` under `program_id`. The contract only names what that search
/// returns: the derived address with its bump seed, or `None`.
#[verifier::external_body]
fn find_program_address(seed: &[u8], program_id: &[u8; 32]) -> (found: Option<([u8; 32], u8)>)
    ensures
        match found {
            Some((key, bump)) => program_address(seed@, program_id@) == Some((key@, bump)),
            None => program_address(seed@, program_id@).is_none(),
        },
{
    let id = Pubkey::new_from_array(*program_id);
    Pubkey::try_find_program_address(&[seed], &id).map(|(key, bump)| (key.to_bytes(), bump))
}

/// What the derivation of the counter's address under `program_id` gives:
/// the address and its bump seed, if there is one.
pub open spec fn counter_address_of(program_id: Address) -> Option<(Seq<u8>, u8)> {
    program_address(counter_seed(), program_id@)
}

/// The view of a derived address with its bump seed.
pub open spec fn derived_view(derived: Option<(Address, u8)>) -> Option<(Seq<u8>, u8)> {
    match derived {
        Some((address, bump)) => Some((address@, bump)),
        None => None,
    }
}

/// Derives the address of the counter account under `program_id`, with its bump
/// seed. `None` means that no bump seed gives a valid address.
pub fn counter_address(program_id: &Address) -> (derived: Option<(Address, u8)>)
    ensures
        derived_view(derived) == counter_address_of(*program_id),
{
    let seed = counter_seed_bytes();
    match find_program_address(seed.as_slice(), &program_id.bytes) {
        Some((bytes, bump)) => Some((Address { bytes }, bump)),
        None => None,
    }
}

} // verus!

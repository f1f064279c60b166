//! Fixed constants of the program.

use vstd::prelude::*;
use crate::utils::address::Address;

verus! {

/// Number of bytes of the schema tag that precedes every stored record.
pub const ANCHOR_DISCRIMINATOR: usize = 8;

/// The seed from which the counter's address is derived: the ASCII bytes of `counter`.
pub open spec fn counter_seed() -> Seq<u8> {
    seq![99u8, 111u8, 117u8, 110u8, 116u8, 101u8, 114u8]
}

/// Returns the seed from which the counter's address is derived.
pub fn counter_seed_bytes() -> (seed: [u8; 7])
    ensures
        seed@ == counter_seed(),
{
    let seed: [u8; 7] = [99u8, 111u8, 117u8, 110u8, 116u8, 101u8, 114u8];
    assert(seed@ =~= counter_seed());
    seed
}

/// The identity under which the program is deployed, as 32 bytes.
pub open spec fn program_id_bytes() -> Seq<u8> {
    seq![
        146u8, 254u8, 92u8, 9u8, 248u8, 162u8, 138u8, 234u8, 60u8, 87u8, 64u8, 49u8, 89u8, 44u8,
        219u8, 215u8, 154u8, 73u8, 0u8, 193u8, 193u8, 241u8, 153u8, 234u8, 119u8, 121u8, 121u8,
        75u8, 213u8, 191u8, 6u8, 16u8,
    ]
}

/// Returns the identity under which the program is deployed.
pub fn program_id() -> (id: Address)
    ensures
        id@ == program_id_bytes(),
{
    let bytes: [u8; 32] = [
        146u8, 254u8, 92u8, 9u8, 248u8, 162u8, 138u8, 234u8, 60u8, 87u8, 64u8, 49u8, 89u8, 44u8,
        219u8, 215u8, 154u8, 73u8, 0u8, 193u8, 193u8, 241u8, 153u8, 234u8, 119u8, 121u8, 121u8,
        75u8, 213u8, 191u8, 6u8, 16u8,
    ];
    assert(bytes@ =~= program_id_bytes());
    Address { bytes }
}

} // verus!

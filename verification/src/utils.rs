//! Address derivation: the program-derived addresses a chamber and its
//! records live under.

use crate::address::Address;
use vstd::prelude::*;
use vstd::slice::slice_to_vec;

verus! {

/// The ASCII bytes of "chamber", the chamber record's seed prefix.
pub const CHAMBER_PREFIX: [u8; 7] = [99u8, 104u8, 97u8, 109u8, 98u8, 101u8, 114u8];

/// The ASCII bytes of "chamber_authority", the signing authority's seed
/// prefix.
pub const CHAMBER_AUTHORITY_PREFIX: [u8; 17] = [
    99u8,
    104u8,
    97u8,
    109u8,
    98u8,
    101u8,
    114u8,
    95u8,
    97u8,
    117u8,
    116u8,
    104u8,
    111u8,
    114u8,
    105u8,
    116u8,
    121u8,
];

/// The ASCII bytes of "user_account", the user record's seed prefix.
pub const USER_ACCOUNT_PREFIX: [u8; 12] = [
    117u8,
    115u8,
    101u8,
    114u8,
    95u8,
    97u8,
    99u8,
    99u8,
    111u8,
    117u8,
    110u8,
    116u8,
];

/// The derived address and bump seed that a seed list and owning program
/// resolve to, where any does: a fixed function of its arguments.
pub uninterp spec fn spec_program_address_of(seeds: Seq<Seq<u8>>, program_id: Seq<u8>) -> Option<
    (Seq<u8>, u8),
>;

/// Relies on Pubkey::try_find_program_address of solana-program (through
/// anchor-lang): the derived address and bump of a seed list under a
/// program, a deterministic function of both, or `None` where no bump
/// yields a valid address.
#[verifier::external_body]
fn try_find_program_address(seeds: &Vec<Vec<u8>>, program_id: &Address) -> (r: Option<
    (Address, u8),
>)
    ensures
        r matches Some(p) ==> spec_program_address_of(
            seeds@.map_values(|s: Vec<u8>| s@),
            program_id.bytes@,
        ) == Some((p.0.bytes@, p.1)),
        r is None ==> spec_program_address_of(
            seeds@.map_values(|s: Vec<u8>| s@),
            program_id.bytes@,
        ) is None,
{
    let seed_slices: std::vec::Vec<&[u8]> = seeds.iter().map(|s| s.as_slice()).collect();
    let program = anchor_lang::prelude::Pubkey::new_from_array(program_id.bytes);
    anchor_lang::prelude::Pubkey::try_find_program_address(&seed_slices, &program).map(
        |(key, bump)| (Address { bytes: key.to_bytes() }, bump),
    )
}

/// The seed list a chamber record is derived from: the chamber prefix, the
/// farm, the two mints, and the instance nonce.
pub open spec fn spec_chamber_seeds(
    farm: Address,
    base_mint: Address,
    quote_mint: Address,
    nonce: u8,
) -> Seq<Seq<u8>> {
    seq![CHAMBER_PREFIX@, farm.bytes@, base_mint.bytes@, quote_mint.bytes@, seq![nonce]]
}

/// The seed list a chamber's signing authority is derived from.
pub open spec fn spec_chamber_authority_seeds(chamber: Address) -> Seq<Seq<u8>> {
    seq![CHAMBER_AUTHORITY_PREFIX@, chamber.bytes@]
}

/// The seed list a user record is derived from.
pub open spec fn spec_user_account_seeds(chamber: Address, user: Address) -> Seq<Seq<u8>> {
    seq![USER_ACCOUNT_PREFIX@, chamber.bytes@, user.bytes@]
}

/// Derive the address a chamber record lives under, from the farm, the two
/// mints and the instance nonce, under the given program.
pub fn derive_chamber_address(
    farm: &Address,
    base_mint: &Address,
    quote_mint: &Address,
    nonce: u8,
    program_id: &Address,
) -> (r: Option<(Address, u8)>)
    ensures
        match spec_program_address_of(
            spec_chamber_seeds(*farm, *base_mint, *quote_mint, nonce),
            program_id.bytes@,
        ) {
            Some(p) => r matches Some(q) && q.0.bytes@ == p.0 && q.1 == p.1,
            None => r is None,
        },
{
    let mut seeds: Vec<Vec<u8>> = Vec::new();
    seeds.push(slice_to_vec(&CHAMBER_PREFIX));
    seeds.push(slice_to_vec(&farm.bytes));
    seeds.push(slice_to_vec(&base_mint.bytes));
    seeds.push(slice_to_vec(&quote_mint.bytes));
    let mut nonce_bytes: Vec<u8> = Vec::new();
    nonce_bytes.push(nonce);
    seeds.push(nonce_bytes);
    proof {
        assert(seeds@.map_values(|s: Vec<u8>| s@) =~= spec_chamber_seeds(
            *farm,
            *base_mint,
            *quote_mint,
            nonce,
        ));
    }
    try_find_program_address(&seeds, program_id)
}

/// Derive a chamber's signing-authority address, from the chamber's own
/// address under the given program.
pub fn derive_chamber_authority_address(chamber: &Address, program_id: &Address) -> (r: Option<
    (Address, u8),
>)
    ensures
        match spec_program_address_of(spec_chamber_authority_seeds(*chamber), program_id.bytes@) {
            Some(p) => r matches Some(q) && q.0.bytes@ == p.0 && q.1 == p.1,
            None => r is None,
        },
{
    let mut seeds: Vec<Vec<u8>> = Vec::new();
    seeds.push(slice_to_vec(&CHAMBER_AUTHORITY_PREFIX));
    seeds.push(slice_to_vec(&chamber.bytes));
    proof {
        assert(seeds@.map_values(|s: Vec<u8>| s@) =~= spec_chamber_authority_seeds(*chamber));
    }
    try_find_program_address(&seeds, program_id)
}

/// Derive the address a user's record lives under, from the chamber and the
/// user under the given program.
pub fn derive_user_account_address(chamber: &Address, user: &Address, program_id: &Address) -> (r:
    Option<(Address, u8)>)
    ensures
        match spec_program_address_of(spec_user_account_seeds(*chamber, *user), program_id.bytes@) {
            Some(p) => r matches Some(q) && q.0.bytes@ == p.0 && q.1 == p.1,
            None => r is None,
        },
{
    let mut seeds: Vec<Vec<u8>> = Vec::new();
    seeds.push(slice_to_vec(&USER_ACCOUNT_PREFIX));
    seeds.push(slice_to_vec(&chamber.bytes));
    seeds.push(slice_to_vec(&user.bytes));
    proof {
        assert(seeds@.map_values(|s: Vec<u8>| s@) =~= spec_user_account_seeds(*chamber, *user));
    }
    try_find_program_address(&seeds, program_id)
}

} // verus!

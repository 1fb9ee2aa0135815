use crate::address::Address;
use vstd::prelude::*;

verus! {

/// Addressing and authority configuration of a chamber.
#[derive(Clone, Copy, Debug)]
pub struct ChamberConfig {
    /// Derived signing authority that signs every external call on the
    /// vault's behalf.
    pub authority: Address,
    pub owner: Address,
    pub fee_manager: Address,
    pub shares_mint: Address,
    /// Bump seed under which `authority` was derived.
    pub authority_bump: u8,
    /// Instance nonce: permits several chambers per asset pair and farm.
    pub nonce: u8,
}

impl ChamberConfig {
    pub fn new(
        authority: &Address,
        owner: &Address,
        fee_manager: &Address,
        shares_mint: &Address,
        authority_bump: u8,
        nonce: u8,
    ) -> (r: ChamberConfig)
        ensures
            r == (ChamberConfig {
                authority: *authority,
                owner: *owner,
                fee_manager: *fee_manager,
                shares_mint: *shares_mint,
                authority_bump,
                nonce,
            }),
    {
        ChamberConfig {
            authority: *authority,
            owner: *owner,
            fee_manager: *fee_manager,
            shares_mint: *shares_mint,
            authority_bump,
            nonce,
        }
    }
}

} // verus!

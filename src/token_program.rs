use vstd::prelude::*;

use crate::pubkey::Pubkey;

verus! {

/// A call of the token program that sets up `mint` with the given decimals
/// and authorities.
#[derive(Clone, Copy, Debug)]
pub struct InitializeMint {
    pub mint: Pubkey,
    pub decimals: u8,
    pub mint_authority: Pubkey,
    pub freeze_authority: Option<Pubkey>,
}

/// A call of the token program that mints `amount` units of `mint` into the
/// token account `to`, signed by `authority`.
#[derive(Clone, Copy, Debug)]
pub struct MintTo {
    pub mint: Pubkey,
    pub to: Pubkey,
    pub authority: Pubkey,
    pub amount: u64,
}

} // verus!

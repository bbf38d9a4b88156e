use vstd::prelude::*;

use crate::pubkey::Pubkey;

verus! {

/// Announces a new token and the parameters it was created with.
#[derive(Debug)]
pub struct TokenCreated {
    pub mint: Pubkey,
    pub name: String,
    pub symbol: String,
    pub uri: String,
    pub decimals: u8,
    pub initial_supply: u64,
    pub creator: Pubkey,
}

/// Announces new metadata for a mint; the metadata itself is not stored.
#[derive(Debug)]
pub struct TokenMetadataUpdated {
    pub mint: Pubkey,
    pub name: String,
    pub symbol: String,
    pub uri: String,
    pub updater: Pubkey,
}

} // verus!

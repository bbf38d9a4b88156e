use vstd::prelude::*;

use crate::pubkey::Pubkey;

verus! {

/// The factory's persistent record: who owns it and how many tokens it has created.
#[derive(Clone, Copy, Debug)]
pub struct TokenFactory {
    pub authority: Pubkey,
    pub token_count: u64,
}

/// The accounts of `initialize_token_factory`: the slot that is to hold the
/// factory record (`None` while it does not exist) and the signing authority.
#[derive(Clone, Copy, Debug)]
pub struct InitializeTokenFactory {
    pub token_factory: Option<TokenFactory>,
    pub authority: Pubkey,
}

/// The accounts of `create_token`: the factory record, the address of the new
/// mint, the creator's associated token account for it, and the signing creator.
#[derive(Clone, Copy, Debug)]
pub struct CreateToken {
    pub token_factory: TokenFactory,
    pub mint: Pubkey,
    pub token_account: Pubkey,
    pub authority: Pubkey,
}

/// The accounts of `update_token_metadata`: the mint's address, the mint
/// authority recorded in it (`None` when it has none), and the signer.
#[derive(Clone, Copy, Debug)]
pub struct UpdateTokenMetadata {
    pub mint: Pubkey,
    pub mint_authority: Option<Pubkey>,
    pub authority: Pubkey,
}

} // verus!

use vstd::prelude::*;

use crate::error::ErrorCode;
use crate::program::{
    after_creation, initialize_outcome, may_update_metadata, token_params_error, MAX_DECIMALS,
};
use crate::pubkey::Pubkey;
use crate::state::{CreateToken, InitializeTokenFactory};

verus! {

/// A token with a non-empty name and symbol, at most nine decimals and a
/// positive supply passes every check of `create_token`, and the factory
/// then counts exactly one more token.
pub proof fn lemma_valid_params_create_one_token(
    ctx: CreateToken,
    name: Seq<char>,
    symbol: Seq<char>,
    decimals: u8,
    initial_supply: u64,
)
    requires
        name.len() > 0,
        symbol.len() > 0,
        decimals <= MAX_DECIMALS,
        initial_supply > 0,
        ctx.token_factory.token_count < u64::MAX,
    ensures
        token_params_error(name, symbol, decimals, initial_supply) == None::<ErrorCode>,
        after_creation(ctx).token_factory.token_count == ctx.token_factory.token_count + 1,
        after_creation(ctx).token_factory.authority == ctx.token_factory.authority,
{
}

/// An empty name is refused as an invalid name, whatever the other parameters.
pub proof fn lemma_empty_name_rejected(symbol: Seq<char>, decimals: u8, initial_supply: u64)
    ensures
        token_params_error(Seq::empty(), symbol, decimals, initial_supply) == Some(
            ErrorCode::InvalidName,
        ),
{
}

/// Ten decimals are refused as invalid decimals, once the name and the symbol
/// (checked before them) are non-empty.
pub proof fn lemma_ten_decimals_rejected(name: Seq<char>, symbol: Seq<char>, initial_supply: u64)
    requires
        name.len() > 0,
        symbol.len() > 0,
    ensures
        token_params_error(name, symbol, 10, initial_supply) == Some(ErrorCode::InvalidDecimals),
{
}

/// A supply of zero is refused as an invalid supply, once the name, the symbol
/// and the decimals (checked before it) pass.
pub proof fn lemma_zero_supply_rejected(name: Seq<char>, symbol: Seq<char>, decimals: u8)
    requires
        name.len() > 0,
        symbol.len() > 0,
        decimals <= MAX_DECIMALS,
    ensures
        token_params_error(name, symbol, decimals, 0) == Some(ErrorCode::InvalidSupply),
{
}

/// A signer other than the mint's recorded authority may not update its
/// metadata, and neither may anyone when the mint records no authority.
pub proof fn lemma_only_mint_authority_updates(mint_authority: Option<Pubkey>, signer: Pubkey)
    requires
        match mint_authority {
            Some(a) => a@ != signer@,
            None => true,
        },
    ensures
        !may_update_metadata(mint_authority, signer),
{
}

/// Initializing the factory a second time is refused as an existing record,
/// and leaves the record that the first call created as it was.
pub proof fn lemma_initialize_twice_rejected(ctx: InitializeTokenFactory)
    requires
        ctx.token_factory is None,
    ensures
        initialize_outcome(ctx).1 == Ok::<(), ErrorCode>(()),
        initialize_outcome(initialize_outcome(ctx).0).1 == Err::<(), ErrorCode>(
            ErrorCode::AccountAlreadyInitialized,
        ),
        initialize_outcome(initialize_outcome(ctx).0).0 == initialize_outcome(ctx).0,
{
}

} // verus!

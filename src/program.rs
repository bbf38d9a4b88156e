use vstd::prelude::*;

use crate::error::ErrorCode;
use crate::event::{TokenCreated, TokenMetadataUpdated};
use crate::pubkey::Pubkey;
use crate::state::{CreateToken, InitializeTokenFactory, TokenFactory, UpdateTokenMetadata};
use crate::token_program::{InitializeMint, MintTo};

verus! {

/// The largest number of decimals a mint may have.
pub const MAX_DECIMALS: u8 = 9;

/// What a successful `create_token` hands to the runtime: the two token
/// program calls to make, in this order, and the event to emit after them.
#[derive(Debug)]
pub struct TokenCreation {
    pub initialize_mint: InitializeMint,
    pub mint_to: MintTo,
    pub event: TokenCreated,
}

/// The first check of `create_token` that the parameters fail, or `None`
/// when all of them hold. The checks run in this order: name, symbol,
/// decimals, supply.
pub open spec fn token_params_error(
    name: Seq<char>,
    symbol: Seq<char>,
    decimals: u8,
    initial_supply: u64,
) -> Option<ErrorCode> {
    if name.len() == 0 {
        Some(ErrorCode::InvalidName)
    } else if symbol.len() == 0 {
        Some(ErrorCode::InvalidSymbol)
    } else if decimals > MAX_DECIMALS {
        Some(ErrorCode::InvalidDecimals)
    } else if initial_supply == 0 {
        Some(ErrorCode::InvalidSupply)
    } else {
        None
    }
}

/// The factory slot and result after `initialize_token_factory` on `ctx`.
pub open spec fn initialize_outcome(ctx: InitializeTokenFactory) -> (
    InitializeTokenFactory,
    Result<(), ErrorCode>,
) {
    match ctx.token_factory {
        Some(_) => (ctx, Err(ErrorCode::AccountAlreadyInitialized)),
        None => (
            InitializeTokenFactory {
                token_factory: Some(TokenFactory { authority: ctx.authority, token_count: 0 }),
                authority: ctx.authority,
            },
            Ok(()),
        ),
    }
}

/// `c` is what `create_token` on `ctx` hands out for the given parameters:
/// the mint is set up with the creator as mint and freeze authority, the whole
/// supply goes to the creator's token account, and the event repeats it all.
pub open spec fn is_creation_of(
    c: TokenCreation,
    ctx: CreateToken,
    name: Seq<char>,
    symbol: Seq<char>,
    uri: Seq<char>,
    decimals: u8,
    initial_supply: u64,
) -> bool {
    &&& c.initialize_mint == (InitializeMint {
        mint: ctx.mint,
        decimals,
        mint_authority: ctx.authority,
        freeze_authority: Some(ctx.authority),
    })
    &&& c.mint_to == (MintTo {
        mint: ctx.mint,
        to: ctx.token_account,
        authority: ctx.authority,
        amount: initial_supply,
    })
    &&& c.event.mint == ctx.mint
    &&& c.event.name@ == name
    &&& c.event.symbol@ == symbol
    &&& c.event.uri@ == uri
    &&& c.event.decimals == decimals
    &&& c.event.initial_supply == initial_supply
    &&& c.event.creator == ctx.authority
}

/// The accounts of `create_token` after it succeeded on `ctx`: one more token
/// on the factory's count, all else as it was.
pub open spec fn after_creation(ctx: CreateToken) -> CreateToken
    recommends
        ctx.token_factory.token_count < u64::MAX,
{
    CreateToken {
        token_factory: TokenFactory {
            authority: ctx.token_factory.authority,
            token_count: (ctx.token_factory.token_count + 1) as u64,
        },
        ..ctx
    }
}

/// Whether `signer` may update the metadata of a mint whose recorded mint
/// authority is `mint_authority`.
pub open spec fn may_update_metadata(mint_authority: Option<Pubkey>, signer: Pubkey) -> bool {
    match mint_authority {
        Some(a) => a@ == signer@,
        None => false,
    }
}

/// Creates the factory record, owned by the signer, with a count of zero.
/// A record that exists already is left alone and the call is refused.
pub fn initialize_token_factory(ctx: &mut InitializeTokenFactory) -> (r: Result<(), ErrorCode>)
    ensures
        (*final(ctx), r) == initialize_outcome(*old(ctx)),
{
    if ctx.token_factory.is_some() {
        return Err(ErrorCode::AccountAlreadyInitialized);
    }
    ctx.token_factory = Some(TokenFactory { authority: ctx.authority, token_count: 0 });
    Ok(())
}

/// Checks the parameters of a new token in order (name, symbol, decimals,
/// supply) and reports the first that fails.
pub fn validate_token_params(
    name: &str,
    symbol: &str,
    decimals: u8,
    initial_supply: u64,
) -> (r: Result<(), ErrorCode>)
    ensures
        r == match token_params_error(name@, symbol@, decimals, initial_supply) {
            Some(e) => Err(e),
            None => Ok(()),
        },
{
    if name.is_empty() {
        return Err(ErrorCode::InvalidName);
    }
    if symbol.is_empty() {
        return Err(ErrorCode::InvalidSymbol);
    }
    if decimals > MAX_DECIMALS {
        return Err(ErrorCode::InvalidDecimals);
    }
    if initial_supply == 0 {
        return Err(ErrorCode::InvalidSupply);
    }
    Ok(())
}

/// Creates a token: checks the parameters, counts the token on the factory
/// record, and returns the token program calls that set up the mint and issue
/// the initial supply to the creator, with the event that announces it. On a
/// failed check nothing changes. The runtime runs the whole instruction as one
/// unit, so should a token program call fail, the count is rolled back too.
pub fn create_token(
    ctx: &mut CreateToken,
    name: String,
    symbol: String,
    uri: String,
    decimals: u8,
    initial_supply: u64,
) -> (r: Result<TokenCreation, ErrorCode>)
    requires
        old(ctx).token_factory.token_count < u64::MAX,
    ensures
        match token_params_error(name@, symbol@, decimals, initial_supply) {
            Some(e) => r == Err::<TokenCreation, ErrorCode>(e) && *final(ctx) == *old(ctx),
            None => match r {
                Ok(c) => {
                    &&& *final(ctx) == after_creation(*old(ctx))
                    &&& is_creation_of(c, *old(ctx), name@, symbol@, uri@, decimals, initial_supply)
                },
                Err(_) => false,
            },
        },
{
    match validate_token_params(name.as_str(), symbol.as_str(), decimals, initial_supply) {
        Err(e) => {
            return Err(e);
        },
        Ok(()) => {},
    }
    let initialize_mint = InitializeMint {
        mint: ctx.mint,
        decimals,
        mint_authority: ctx.authority,
        freeze_authority: Some(ctx.authority),
    };
    let mint_to = MintTo {
        mint: ctx.mint,
        to: ctx.token_account,
        authority: ctx.authority,
        amount: initial_supply,
    };
    ctx.token_factory.token_count = ctx.token_factory.token_count + 1;
    let event = TokenCreated {
        mint: ctx.mint,
        name,
        symbol,
        uri,
        decimals,
        initial_supply,
        creator: ctx.authority,
    };
    Ok(TokenCreation { initialize_mint, mint_to, event })
}

/// Announces new metadata for a mint. Only the mint's recorded authority may
/// do so; a mint with no authority accepts no update. Nothing is stored.
pub fn update_token_metadata(
    ctx: &UpdateTokenMetadata,
    name: String,
    symbol: String,
    uri: String,
) -> (r: Result<TokenMetadataUpdated, ErrorCode>)
    ensures
        !may_update_metadata(ctx.mint_authority, ctx.authority) ==> r == Err::<
            TokenMetadataUpdated,
            ErrorCode,
        >(ErrorCode::Unauthorized),
        may_update_metadata(ctx.mint_authority, ctx.authority) ==> match r {
            Ok(ev) => {
                &&& ev.mint == ctx.mint
                &&& ev.name@ == name@
                &&& ev.symbol@ == symbol@
                &&& ev.uri@ == uri@
                &&& ev.updater == ctx.authority
            },
            Err(_) => false,
        },
{
    let authorized = match &ctx.mint_authority {
        Some(a) => a.same_as(&ctx.authority),
        None => false,
    };
    if !authorized {
        return Err(ErrorCode::Unauthorized);
    }
    Ok(TokenMetadataUpdated { mint: ctx.mint, name, symbol, uri, updater: ctx.authority })
}

} // verus!

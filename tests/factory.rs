use hypertoken::error::ErrorCode;
use hypertoken::program::{
    create_token, initialize_token_factory, update_token_metadata, validate_token_params,
    TokenCreation, MAX_DECIMALS,
};
use hypertoken::pubkey::Pubkey;
use hypertoken::state::{CreateToken, InitializeTokenFactory, TokenFactory, UpdateTokenMetadata};

fn key(b: u8) -> Pubkey {
    Pubkey::new_from_array([b; 32])
}

fn fresh_factory(authority: Pubkey) -> TokenFactory {
    let mut init = InitializeTokenFactory { token_factory: None, authority };
    initialize_token_factory(&mut init).unwrap();
    init.token_factory.unwrap()
}

fn create_ctx(factory: TokenFactory) -> CreateToken {
    CreateToken { token_factory: factory, mint: key(2), token_account: key(3), authority: factory.authority }
}

fn create(
    ctx: &mut CreateToken,
    name: &str,
    symbol: &str,
    uri: &str,
    decimals: u8,
    supply: u64,
) -> Result<TokenCreation, ErrorCode> {
    create_token(ctx, name.to_string(), symbol.to_string(), uri.to_string(), decimals, supply)
}

#[test]
fn initialize_sets_authority_and_zero_count() {
    let f = fresh_factory(key(1));
    assert_eq!(f.authority, key(1));
    assert_eq!(f.token_count, 0);
}

#[test]
fn initialize_twice_is_rejected() {
    let mut init = InitializeTokenFactory { token_factory: None, authority: key(1) };
    assert_eq!(initialize_token_factory(&mut init), Ok(()));
    assert_eq!(initialize_token_factory(&mut init), Err(ErrorCode::AccountAlreadyInitialized));
    let f = init.token_factory.unwrap();
    assert_eq!(f.authority, key(1));
    assert_eq!(f.token_count, 0);
}

#[test]
fn create_first_token_scenario() {
    let mut ctx = create_ctx(fresh_factory(key(1)));
    let c = create(&mut ctx, "Foo", "FOO", "uri", 6, 1000).unwrap();
    assert_eq!(ctx.token_factory.token_count, 1);
    assert_eq!(c.event.decimals, 6);
    assert_eq!(c.event.initial_supply, 1000);
    assert_eq!(c.event.name, "Foo");
    assert_eq!(c.event.symbol, "FOO");
    assert_eq!(c.event.uri, "uri");
    assert_eq!(c.event.mint, key(2));
    assert_eq!(c.event.creator, key(1));
    assert_eq!(c.initialize_mint.mint, key(2));
    assert_eq!(c.initialize_mint.decimals, 6);
    assert_eq!(c.initialize_mint.mint_authority, key(1));
    assert_eq!(c.initialize_mint.freeze_authority, Some(key(1)));
    assert_eq!(c.mint_to.mint, key(2));
    assert_eq!(c.mint_to.to, key(3));
    assert_eq!(c.mint_to.authority, key(1));
    assert_eq!(c.mint_to.amount, 1000);
}

#[test]
fn create_second_token_scenario() {
    let mut ctx = create_ctx(fresh_factory(key(1)));
    create(&mut ctx, "Foo", "FOO", "uri", 6, 1000).unwrap();
    let c = create(&mut ctx, "Bar", "BAR", "", 9, 1).unwrap();
    assert_eq!(ctx.token_factory.token_count, 2);
    assert_eq!(c.event.decimals, 9);
    assert_eq!(c.event.initial_supply, 1);
    assert_eq!(ctx.token_factory.authority, key(1));
}

#[test]
fn valid_params_count_one_more() {
    let mut f = fresh_factory(key(7));
    f.token_count = 41;
    let mut ctx = create_ctx(f);
    assert!(create(&mut ctx, "a", "b", "", 0, u64::MAX).is_ok());
    assert_eq!(ctx.token_factory.token_count, 42);
}

#[test]
fn empty_name_is_invalid_whatever_else() {
    let mut ctx = create_ctx(fresh_factory(key(1)));
    assert_eq!(create(&mut ctx, "", "FOO", "uri", 6, 1000).err(), Some(ErrorCode::InvalidName));
    assert_eq!(create(&mut ctx, "", "", "uri", 10, 0).err(), Some(ErrorCode::InvalidName));
    assert_eq!(ctx.token_factory.token_count, 0);
}

#[test]
fn empty_symbol_is_invalid() {
    let mut ctx = create_ctx(fresh_factory(key(1)));
    assert_eq!(create(&mut ctx, "Foo", "", "uri", 6, 1000).err(), Some(ErrorCode::InvalidSymbol));
    assert_eq!(create(&mut ctx, "Foo", "", "uri", 10, 0).err(), Some(ErrorCode::InvalidSymbol));
    assert_eq!(ctx.token_factory.token_count, 0);
}

#[test]
fn ten_decimals_are_invalid() {
    let mut ctx = create_ctx(fresh_factory(key(1)));
    assert_eq!(create(&mut ctx, "Foo", "FOO", "uri", 10, 1000).err(), Some(ErrorCode::InvalidDecimals));
    assert_eq!(create(&mut ctx, "Foo", "FOO", "uri", 255, 0).err(), Some(ErrorCode::InvalidDecimals));
    assert_eq!(ctx.token_factory.token_count, 0);
}

#[test]
fn nine_decimals_are_the_largest() {
    assert_eq!(MAX_DECIMALS, 9);
    assert_eq!(validate_token_params("Foo", "FOO", 9, 1), Ok(()));
    assert_eq!(validate_token_params("Foo", "FOO", 10, 1), Err(ErrorCode::InvalidDecimals));
}

#[test]
fn zero_supply_is_invalid() {
    let mut ctx = create_ctx(fresh_factory(key(1)));
    assert_eq!(create(&mut ctx, "Foo", "FOO", "uri", 6, 0).err(), Some(ErrorCode::InvalidSupply));
    assert_eq!(ctx.token_factory.token_count, 0);
}

#[test]
fn update_by_mint_authority_emits_event() {
    let ctx = UpdateTokenMetadata { mint: key(2), mint_authority: Some(key(1)), authority: key(1) };
    let ev = update_token_metadata(&ctx, "New".to_string(), "NEW".to_string(), "u2".to_string()).unwrap();
    assert_eq!(ev.mint, key(2));
    assert_eq!(ev.name, "New");
    assert_eq!(ev.symbol, "NEW");
    assert_eq!(ev.uri, "u2");
    assert_eq!(ev.updater, key(1));
}

#[test]
fn update_by_other_signer_is_unauthorized() {
    let ctx = UpdateTokenMetadata { mint: key(2), mint_authority: Some(key(1)), authority: key(9) };
    let r = update_token_metadata(&ctx, "New".to_string(), "NEW".to_string(), "u2".to_string());
    assert_eq!(r.err(), Some(ErrorCode::Unauthorized));
}

#[test]
fn update_differing_in_last_byte_is_unauthorized() {
    let mut other = [1u8; 32];
    other[31] = 0;
    let ctx = UpdateTokenMetadata {
        mint: key(2),
        mint_authority: Some(key(1)),
        authority: Pubkey::new_from_array(other),
    };
    let r = update_token_metadata(&ctx, "a".to_string(), "b".to_string(), "c".to_string());
    assert_eq!(r.err(), Some(ErrorCode::Unauthorized));
}

#[test]
fn update_without_mint_authority_is_unauthorized() {
    let ctx = UpdateTokenMetadata { mint: key(2), mint_authority: None, authority: key(1) };
    let r = update_token_metadata(&ctx, "a".to_string(), "b".to_string(), "c".to_string());
    assert_eq!(r.err(), Some(ErrorCode::Unauthorized));
}

#[test]
fn pubkey_bytes_round_trip_and_compare() {
    let mut b = [0u8; 32];
    b[0] = 5;
    let k = Pubkey::new_from_array(b);
    assert_eq!(k.to_bytes(), b);
    assert!(k.same_as(&Pubkey::new_from_array(b)));
    assert!(!k.same_as(&key(0)));
}

#[test]
fn error_messages() {
    assert_eq!(ErrorCode::InvalidName.message(), "Invalid token name");
    assert_eq!(ErrorCode::InvalidSymbol.message(), "Invalid token symbol");
    assert_eq!(ErrorCode::InvalidDecimals.message(), "Invalid decimals (must be <= 9)");
    assert_eq!(ErrorCode::InvalidSupply.message(), "Invalid initial supply");
    assert_eq!(ErrorCode::Unauthorized.message(), "Unauthorized");
    assert_eq!(ErrorCode::AccountAlreadyInitialized.message(), "The account is already initialized");
}

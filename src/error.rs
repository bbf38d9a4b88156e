use vstd::prelude::*;

verus! {

/// Why an instruction of the factory was refused.
#[derive(Clone, Copy, Debug, PartialEq, Eq, Structural)]
pub enum ErrorCode {
    /// The token name is empty.
    InvalidName,
    /// The token symbol is empty.
    InvalidSymbol,
    /// More decimals than a mint can hold.
    InvalidDecimals,
    /// An initial supply of zero.
    InvalidSupply,
    /// The signer is not the mint's recorded authority.
    Unauthorized,
    /// The factory record to be created exists already.
    AccountAlreadyInitialized,
}

impl ErrorCode {
    /// The message shown to the caller for this error.
    pub fn message(&self) -> (r: &'static str)
        ensures
            r@ == error_message(*self),
    {
        match self {
            ErrorCode::InvalidName => "Invalid token name",
            ErrorCode::InvalidSymbol => "Invalid token symbol",
            ErrorCode::InvalidDecimals => "Invalid decimals (must be <= 9)",
            ErrorCode::InvalidSupply => "Invalid initial supply",
            ErrorCode::Unauthorized => "Unauthorized",
            ErrorCode::AccountAlreadyInitialized => "The account is already initialized",
        }
    }
}

/// The message of each error.
pub open spec fn error_message(e: ErrorCode) -> Seq<char> {
    match e {
        ErrorCode::InvalidName => "Invalid token name"@,
        ErrorCode::InvalidSymbol => "Invalid token symbol"@,
        ErrorCode::InvalidDecimals => "Invalid decimals (must be <= 9)"@,
        ErrorCode::InvalidSupply => "Invalid initial supply"@,
        ErrorCode::Unauthorized => "Unauthorized"@,
        ErrorCode::AccountAlreadyInitialized => "The account is already initialized"@,
    }
}

} // verus!

//! A token factory: a per-authority record that counts the tokens created
//! through it, the checks on a new token's parameters, the token program calls
//! that set up its mint and issue its initial supply, and the authority check
//! on metadata updates. Every function is verified against its contract.

pub mod error;
pub mod event;
pub mod laws;
pub mod program;
pub mod pubkey;
pub mod state;
pub mod token_program;

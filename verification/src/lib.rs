//! An escrow-mediated marketplace for non-fungible tokens: time-boxed English
//! auctions and fixed-term, collateralized rentals, settled against a fungible
//! ledger and an ownership registry.
//!
//! - [`primitives`]: identifiers, origins and the error type that every call returns.
//! - [`traits`]: what the marketplace asks of a ledger and of a registry.
//! - [`ft`]: a ledger of balances, allowances and total supply.
//! - [`nft`]: a registry of token classes and tokens.
//! - [`marketplace`]: the auction and rental engine. Its `model` says what each
//!   operation makes of a state; its `laws` are consequences proved of that model.
//!
//! Every operation either takes effect as a whole or is refused and changes
//! nothing. The time is an argument of the operations that depend on it.

pub mod ft;
pub mod marketplace;
pub mod nft;
pub mod primitives;
pub mod traits;

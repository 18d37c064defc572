//! Identifiers, origins and the error type shared by every pallet.

use vstd::prelude::*;

verus! {

/// Identifies an account.
pub type AccountId = u64;

/// Identifies a token class.
pub type ClassId = u64;

/// Identifies a token within its class.
pub type TokenId = u64;

/// An arithmetic fault met while updating a counter.
#[derive(Clone, Copy, Debug, PartialEq, Eq, Structural)]
pub enum ArithmeticError {
    Underflow,
    Overflow,
}

/// Why a dispatched call was rejected.
#[derive(Clone, Copy, Debug, PartialEq, Eq, Structural)]
pub enum DispatchError {
    /// The origin was not of the kind the call asks for.
    BadOrigin,
    /// A counter left its range.
    Arithmetic(ArithmeticError),
    /// The fungible ledger refused.
    Ft(crate::ft::Error),
    /// The token registry refused.
    Nft(crate::nft::Error),
    /// The marketplace refused.
    Marketplace(crate::marketplace::Error),
}

/// What a dispatched call without a value of its own returns.
pub type DispatchResult = Result<(), DispatchError>;

/// Who dispatched a call.
#[derive(Clone, Copy, Debug, PartialEq, Eq, Structural)]
pub enum Origin {
    /// The system itself.
    Root,
    /// A transaction signed by the given account.
    Signed(AccountId),
    /// A call that nobody signed.
    Unsigned,
}

impl Origin {
    /// The origin of a transaction signed by `who`.
    pub fn signed(who: AccountId) -> (o: Origin)
        ensures
            o == Origin::Signed(who),
    {
        Origin::Signed(who)
    }

    /// The origin of the system itself.
    pub fn root() -> (o: Origin)
        ensures
            o == Origin::Root,
    {
        Origin::Root
    }

    /// The origin of a call that nobody signed.
    pub fn unsigned() -> (o: Origin)
        ensures
            o == Origin::Unsigned,
    {
        Origin::Unsigned
    }
}

/// The signer of `origin`, where it has one.
pub open spec fn signer_of(origin: Origin) -> Result<AccountId, DispatchError> {
    match origin {
        Origin::Signed(who) => Ok(who),
        _ => Err(DispatchError::BadOrigin),
    }
}

/// Returns the account that signed `origin`, and `BadOrigin` for every other origin.
pub fn ensure_signed(origin: Origin) -> (r: Result<AccountId, DispatchError>)
    ensures
        r == signer_of(origin),
{
    match origin {
        Origin::Signed(who) => Ok(who),
        _ => Err(DispatchError::BadOrigin),
    }
}

} // verus!

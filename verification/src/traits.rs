//! The two capabilities the marketplace consumes: moving value and moving custody.

use vstd::prelude::*;
use crate::primitives::{AccountId, ClassId, DispatchError, DispatchResult, TokenId};

verus! {

/// The balances after `amount` moves from `src` to `dst`, or the reason why it cannot.
///
/// The source is debited first and the destination credited second, so a transfer
/// to oneself succeeds whenever the balance covers the amount.
pub open spec fn ledger_transfer(
    balances: Map<AccountId, u64>,
    src: AccountId,
    dst: AccountId,
    amount: u64,
) -> Result<Map<AccountId, u64>, DispatchError>
    recommends
        balances.contains_key(src),
        balances.contains_key(dst),
{
    if balances[src] < amount {
        Err(DispatchError::Ft(crate::ft::Error::InsufficientBalance))
    } else {
        let debited = balances.insert(src, (balances[src] - amount) as u64);
        if debited[dst] + amount > u64::MAX {
            Err(DispatchError::Ft(crate::ft::Error::Overflow))
        } else {
            Ok(debited.insert(dst, (debited[dst] + amount) as u64))
        }
    }
}

/// The owners after the token `asset` moves from `src` to `dst`, or the reason why it cannot.
pub open spec fn registry_transfer(
    owners: Map<(ClassId, TokenId), AccountId>,
    src: AccountId,
    dst: AccountId,
    asset: (ClassId, TokenId),
) -> Result<Map<(ClassId, TokenId), AccountId>, DispatchError> {
    if !owners.contains_key(asset) {
        Err(DispatchError::Nft(crate::nft::Error::TokenNotFound))
    } else if owners[asset] != src {
        Err(DispatchError::Nft(crate::nft::Error::NoPermission))
    } else {
        Ok(owners.insert(asset, dst))
    }
}

/// A ledger of fungible value.
///
/// An implementation owes the marketplace an atomic transfer: it moves the amount
/// exactly when the source covers it and the destination can take it, reports
/// which of the two failed otherwise, and then leaves itself as it was.
pub trait FTTransfer: Sized {
    /// What each account holds.
    spec fn balances(&self) -> Map<AccountId, u64>;

    /// Every account has a balance, be it zero.
    proof fn balances_total(&self)
        ensures
            self.balances().dom() == Set::<AccountId>::full(),
    ;

    /// Moves `amount` from `src` to `dst`, or fails and changes nothing.
    fn transfer(&mut self, src: &AccountId, dst: &AccountId, amount: u64) -> (r: DispatchResult)
        ensures
            match ledger_transfer(old(self).balances(), *src, *dst, amount) {
                Ok(after) => r is Ok && final(self).balances() == after,
                Err(e) => r == Err::<(), DispatchError>(e) && *final(self) == *old(self),
            },
    ;
}

/// A registry of token ownership.
///
/// An implementation owes the marketplace an atomic change of custody: it hands
/// the token over exactly when the token exists and the source owns it, reports
/// which of the two failed otherwise, and then leaves itself as it was.
pub trait NFTForMarketplace: Sized {
    /// The owner of each token that exists.
    spec fn owners(&self) -> Map<(ClassId, TokenId), AccountId>;

    /// Moves the token from `src` to `dst`, or fails and changes nothing.
    fn transfer(&mut self, src: &AccountId, dst: &AccountId, class_id: ClassId, token_id: TokenId) -> (r: DispatchResult)
        ensures
            match registry_transfer(old(self).owners(), *src, *dst, (class_id, token_id)) {
                Ok(after) => r is Ok && final(self).owners() == after,
                Err(e) => r == Err::<(), DispatchError>(e) && *final(self) == *old(self),
            },
    ;

    /// Whether `owner` owns the token.
    fn is_owner_of(&self, owner: &AccountId, class_id: ClassId, token_id: TokenId) -> (b: bool)
        ensures
            b == (self.owners().contains_key((class_id, token_id)) && self.owners()[(class_id, token_id)] == *owner),
    ;
}

} // verus!

//! A fungible ledger: balances, allowances and the total supply.

use vstd::prelude::*;
use std::collections::BTreeMap;
use crate::primitives::{ensure_signed, signer_of, AccountId, DispatchError, DispatchResult, Origin};
use crate::traits::{ledger_transfer, FTTransfer};

verus! {

/// Why the ledger refused.
#[derive(Clone, Copy, Debug, PartialEq, Eq, Structural)]
pub enum Error {
    /// A balance or the supply would leave its range.
    Overflow,
    /// The source holds less than the amount.
    InsufficientBalance,
    /// The spender may move less than the amount.
    InsufficientAllowance,
}

/// What a successful call reports.
#[derive(Clone, Copy, Debug, PartialEq, Eq, Structural)]
pub enum Event {
    /// An amount moved from the first account to the second.
    Transferred(AccountId, AccountId, u64),
    /// The first account lets the second spend up to the amount.
    Approved(AccountId, AccountId, u64),
}

/// The ledger as a whole. An account, or a pair of accounts, without an entry
/// stands at zero, so the two maps are total.
#[verifier::ext_equal]
pub struct Ledger {
    /// What each account holds.
    pub balances: Map<AccountId, u64>,
    /// What each spender may still move out of each owner's balance, by `(owner, spender)`.
    pub allowances: Map<(AccountId, AccountId), u64>,
    /// The sum that minting has issued and burning has not yet removed.
    pub total_supply: u64,
}

impl Ledger {
    /// The ledger on which nobody holds anything.
    pub open spec fn empty() -> Ledger {
        Ledger {
            balances: Map::total(|who: AccountId| 0u64),
            allowances: Map::total(|pair: (AccountId, AccountId)| 0u64),
            total_supply: 0,
        }
    }

    /// The ledger after each of `entries` is minted in order, or the reason why the
    /// first of them that cannot be minted fails.
    pub open spec fn mint_all(self, entries: Seq<(AccountId, u64)>) -> Result<Ledger, DispatchError>
        decreases entries.len(),
    {
        if entries.len() == 0 {
            Ok(self)
        } else {
            match self.mint_all(entries.drop_last()) {
                Ok(minted) => minted.mint(entries.last().0, entries.last().1),
                Err(e) => Err(e),
            }
        }
    }

    /// The ledger after `amount` is added to what `who` holds.
    pub open spec fn add_balance(self, who: AccountId, amount: u64) -> Result<Ledger, DispatchError> {
        if self.balances[who] + amount > u64::MAX {
            Err(DispatchError::Ft(Error::Overflow))
        } else {
            Ok(Ledger { balances: self.balances.insert(who, (self.balances[who] + amount) as u64), ..self })
        }
    }

    /// The ledger after `amount` is taken from what `who` holds.
    pub open spec fn sub_balance(self, who: AccountId, amount: u64) -> Result<Ledger, DispatchError> {
        if self.balances[who] < amount {
            Err(DispatchError::Ft(Error::InsufficientBalance))
        } else {
            Ok(Ledger { balances: self.balances.insert(who, (self.balances[who] - amount) as u64), ..self })
        }
    }

    /// The ledger after the supply grows by `amount`.
    pub open spec fn add_supply(self, amount: u64) -> Result<Ledger, DispatchError> {
        if self.total_supply + amount > u64::MAX {
            Err(DispatchError::Ft(Error::Overflow))
        } else {
            Ok(Ledger { total_supply: (self.total_supply + amount) as u64, ..self })
        }
    }

    /// The ledger after the supply shrinks by `amount`.
    pub open spec fn sub_supply(self, amount: u64) -> Result<Ledger, DispatchError> {
        if self.total_supply < amount {
            Err(DispatchError::Ft(Error::InsufficientBalance))
        } else {
            Ok(Ledger { total_supply: (self.total_supply - amount) as u64, ..self })
        }
    }

    /// The ledger after `amount` is issued to `who`: the supply grows, then the balance.
    pub open spec fn mint(self, who: AccountId, amount: u64) -> Result<Ledger, DispatchError> {
        match self.add_supply(amount) {
            Ok(issued) => issued.add_balance(who, amount),
            Err(e) => Err(e),
        }
    }

    /// The ledger after `amount` is removed from `who`: the supply shrinks, then the balance.
    pub open spec fn burn(self, who: AccountId, amount: u64) -> Result<Ledger, DispatchError> {
        match self.sub_supply(amount) {
            Ok(removed) => removed.sub_balance(who, amount),
            Err(e) => Err(e),
        }
    }

    /// The ledger after `spender` uses up `amount` of what `owner` lets it move.
    pub open spec fn sub_allowance(self, owner: AccountId, spender: AccountId, amount: u64) -> Result<
        Ledger,
        DispatchError,
    > {
        if self.allowances[(owner, spender)] < amount {
            Err(DispatchError::Ft(Error::InsufficientAllowance))
        } else {
            Ok(
                Ledger {
                    allowances: self.allowances.insert(
                        (owner, spender),
                        (self.allowances[(owner, spender)] - amount) as u64,
                    ),
                    ..self
                },
            )
        }
    }

    /// The ledger after `amount` moves from `src` to `dst`.
    pub open spec fn transfer(self, src: AccountId, dst: AccountId, amount: u64) -> Result<Ledger, DispatchError> {
        match ledger_transfer(self.balances, src, dst, amount) {
            Ok(balances) => Ok(Ledger { balances, ..self }),
            Err(e) => Err(e),
        }
    }

    /// The ledger after `owner` lets `spender` move up to `amount`.
    pub open spec fn approve(self, owner: AccountId, spender: AccountId, amount: u64) -> Ledger {
        Ledger { allowances: self.allowances.insert((owner, spender), amount), ..self }
    }

    /// The ledger after `spender` moves `amount` from `from` to `to` on the
    /// strength of an allowance, which shrinks by the amount.
    pub open spec fn transfer_from(
        self,
        spender: AccountId,
        from: AccountId,
        to: AccountId,
        amount: u64,
    ) -> Result<Ledger, DispatchError> {
        match self.sub_allowance(from, spender, amount) {
            Ok(allowed) => allowed.transfer(from, to, amount),
            Err(e) => Err(e),
        }
    }
}

/// Whether a call that should make `outcome` of a ledger left `after` and returned
/// `r`: on success the new ledger, on failure the reason.
pub open spec fn applied<T>(outcome: Result<Ledger, DispatchError>, after: Ledger, r: Result<T, DispatchError>) -> bool {
    match outcome {
        Ok(ledger) => r is Ok && after =~= ledger,
        Err(e) => r == Err::<T, DispatchError>(e),
    }
}

/// The ledger's storage.
pub struct Pallet {
    pub balances: BTreeMap<AccountId, u64>,
    pub total_supply: u64,
    pub allowances: BTreeMap<(AccountId, AccountId), u64>,
}

impl View for Pallet {
    type V = Ledger;

    open spec fn view(&self) -> Ledger {
        Ledger {
            balances: Map::total(
                |who: AccountId| if self.balances@.contains_key(who) { self.balances@[who] } else { 0 },
            ),
            allowances: Map::total(
                |pair: (AccountId, AccountId)| if self.allowances@.contains_key(pair) { self.allowances@[pair] } else { 0 },
            ),
            total_supply: self.total_supply,
        }
    }
}

impl Pallet {
    /// A ledger on which nobody holds anything.
    pub fn new() -> (pallet: Self)
        ensures
            pallet@ == Ledger::empty(),
    {
        Pallet { balances: BTreeMap::new(), total_supply: 0, allowances: BTreeMap::new() }
    }

    /// What `who` holds.
    pub fn balance(&self, who: &AccountId) -> (amount: u64)
        ensures
            amount == self@.balances[*who],
    {
        match self.balances.get(who) {
            Some(amount) => *amount,
            None => 0,
        }
    }

    /// The total supply.
    pub fn total_supply(&self) -> (amount: u64)
        ensures
            amount == self@.total_supply,
    {
        self.total_supply
    }

    /// What `spender` may still move out of `owner`'s balance.
    pub fn allowance(&self, owner: &AccountId, spender: &AccountId) -> (amount: u64)
        ensures
            amount == self@.allowances[(*owner, *spender)],
    {
        match self.allowances.get(&(*owner, *spender)) {
            Some(amount) => *amount,
            None => 0,
        }
    }

    /// Moves `amount` from the signer of `origin` to `to`.
    pub fn transfer(&mut self, origin: Origin, to: AccountId, amount: u64) -> (r: Result<Event, DispatchError>)
        ensures
            match signer_of(origin) {
                Ok(from) => {
                    &&& applied(old(self)@.transfer(from, to, amount), final(self)@, r)
                    &&& r is Ok ==> r == Ok::<Event, DispatchError>(Event::Transferred(from, to, amount))
                },
                Err(e) => r == Err::<Event, DispatchError>(e),
            },
            r is Err ==> *final(self) == *old(self),
    {
        let from = match ensure_signed(origin) {
            Ok(who) => who,
            Err(e) => {
                return Err(e);
            },
        };
        match self.move_balance(&from, &to, amount) {
            Ok(()) => Ok(Event::Transferred(from, to, amount)),
            Err(e) => Err(e),
        }
    }

    /// Lets `spender` move up to `amount` out of the balance of the signer of `origin`.
    pub fn approve(&mut self, origin: Origin, spender: AccountId, amount: u64) -> (r: Result<Event, DispatchError>)
        ensures
            match signer_of(origin) {
                Ok(owner) => {
                    &&& final(self)@ == old(self)@.approve(owner, spender, amount)
                    &&& r == Ok::<Event, DispatchError>(Event::Approved(owner, spender, amount))
                },
                Err(e) => r == Err::<Event, DispatchError>(e),
            },
            r is Err ==> *final(self) == *old(self),
    {
        let owner = match ensure_signed(origin) {
            Ok(who) => who,
            Err(e) => {
                return Err(e);
            },
        };
        self.allowances.insert((owner, spender), amount);
        Ok(Event::Approved(owner, spender, amount))
    }

    /// Moves `amount` from `from` to `to` on the strength of what `from` lets the
    /// signer of `origin` move.
    pub fn transfer_from(&mut self, origin: Origin, from: AccountId, to: AccountId, amount: u64) -> (r: Result<
        Event,
        DispatchError,
    >)
        ensures
            match signer_of(origin) {
                Ok(spender) => {
                    &&& applied(old(self)@.transfer_from(spender, from, to, amount), final(self)@, r)
                    &&& r is Ok ==> r == Ok::<Event, DispatchError>(Event::Transferred(from, to, amount))
                },
                Err(e) => r == Err::<Event, DispatchError>(e),
            },
            r is Err ==> *final(self) == *old(self),
    {
        let signer = match ensure_signed(origin) {
            Ok(who) => who,
            Err(e) => {
                return Err(e);
            },
        };
        let rest: u64 = match self.allowance(&from, &signer).checked_sub(amount) {
            Some(rest) => rest,
            None => {
                return Err(DispatchError::Ft(Error::InsufficientAllowance));
            },
        };
        match self.move_balance(&from, &to, amount) {
            Err(e) => {
                return Err(e);
            },
            Ok(()) => {},
        }
        self.allowances.insert((from, signer), rest);
        Ok(Event::Transferred(from, to, amount))
    }

    /// Adds `amount` to what `who` holds.
    pub fn add_balance(&mut self, who: &AccountId, amount: u64) -> (r: DispatchResult)
        ensures
            applied(old(self)@.add_balance(*who, amount), final(self)@, r),
            r is Err ==> *final(self) == *old(self),
    {
        match self.balance(who).checked_add(amount) {
            Some(sum) => {
                self.balances.insert(*who, sum);
                Ok(())
            },
            None => Err(DispatchError::Ft(Error::Overflow)),
        }
    }

    /// Takes `amount` from what `who` holds.
    pub fn sub_balance(&mut self, who: &AccountId, amount: u64) -> (r: DispatchResult)
        ensures
            applied(old(self)@.sub_balance(*who, amount), final(self)@, r),
            r is Err ==> *final(self) == *old(self),
    {
        match self.balance(who).checked_sub(amount) {
            Some(rest) => {
                self.balances.insert(*who, rest);
                Ok(())
            },
            None => Err(DispatchError::Ft(Error::InsufficientBalance)),
        }
    }

    /// Grows the supply by `amount`.
    pub fn add_supply(&mut self, amount: u64) -> (r: DispatchResult)
        ensures
            applied(old(self)@.add_supply(amount), final(self)@, r),
            r is Err ==> *final(self) == *old(self),
    {
        match self.total_supply.checked_add(amount) {
            Some(sum) => {
                self.total_supply = sum;
                Ok(())
            },
            None => Err(DispatchError::Ft(Error::Overflow)),
        }
    }

    /// Shrinks the supply by `amount`.
    pub fn sub_supply(&mut self, amount: u64) -> (r: DispatchResult)
        ensures
            applied(old(self)@.sub_supply(amount), final(self)@, r),
            r is Err ==> *final(self) == *old(self),
    {
        match self.total_supply.checked_sub(amount) {
            Some(rest) => {
                self.total_supply = rest;
                Ok(())
            },
            None => Err(DispatchError::Ft(Error::InsufficientBalance)),
        }
    }

    /// Issues `amount` to `who`: the supply and the balance grow together or not at all.
    pub fn mint(&mut self, who: &AccountId, amount: u64) -> (r: DispatchResult)
        ensures
            applied(old(self)@.mint(*who, amount), final(self)@, r),
            r is Err ==> *final(self) == *old(self),
    {
        let supply: u64 = match self.total_supply.checked_add(amount) {
            Some(sum) => sum,
            None => {
                return Err(DispatchError::Ft(Error::Overflow));
            },
        };
        match self.add_balance(who, amount) {
            Err(e) => {
                return Err(e);
            },
            Ok(()) => {},
        }
        self.total_supply = supply;
        Ok(())
    }

    /// Removes `amount` from `who`: the supply and the balance shrink together or not at all.
    pub fn burn(&mut self, who: &AccountId, amount: u64) -> (r: DispatchResult)
        ensures
            applied(old(self)@.burn(*who, amount), final(self)@, r),
            r is Err ==> *final(self) == *old(self),
    {
        let supply: u64 = match self.total_supply.checked_sub(amount) {
            Some(rest) => rest,
            None => {
                return Err(DispatchError::Ft(Error::InsufficientBalance));
            },
        };
        match self.sub_balance(who, amount) {
            Err(e) => {
                return Err(e);
            },
            Ok(()) => {},
        }
        self.total_supply = supply;
        Ok(())
    }

    /// Uses up `amount` of what `owner` lets `spender` move.
    pub fn sub_allowance(&mut self, owner: &AccountId, spender: &AccountId, amount: u64) -> (r: DispatchResult)
        ensures
            applied(old(self)@.sub_allowance(*owner, *spender, amount), final(self)@, r),
            r is Err ==> *final(self) == *old(self),
    {
        match self.allowance(owner, spender).checked_sub(amount) {
            Some(rest) => {
                self.allowances.insert((*owner, *spender), rest);
                Ok(())
            },
            None => Err(DispatchError::Ft(Error::InsufficientAllowance)),
        }
    }

    /// Debits `src` and credits `dst`, once it is known that both can be done.
    fn move_balance(&mut self, src: &AccountId, dst: &AccountId, amount: u64) -> (r: DispatchResult)
        ensures
            applied(old(self)@.transfer(*src, *dst, amount), final(self)@, r),
            r is Err ==> *final(self) == *old(self),
    {
        let rest: u64 = match self.balance(src).checked_sub(amount) {
            Some(rest) => rest,
            None => {
                return Err(DispatchError::Ft(Error::InsufficientBalance));
            },
        };
        let held: u64 = if *src == *dst {
            rest
        } else {
            self.balance(dst)
        };
        let sum: u64 = match held.checked_add(amount) {
            Some(sum) => sum,
            None => {
                return Err(DispatchError::Ft(Error::Overflow));
            },
        };
        self.balances.insert(*src, rest);
        self.balances.insert(*dst, sum);
        Ok(())
    }
}

/// The balances that a ledger starts with.
pub struct GenesisConfig {
    pub balances: Vec<(AccountId, u64)>,
}

impl Default for GenesisConfig {
    fn default() -> (genesis: Self)
        ensures
            genesis.balances@ == Seq::<(AccountId, u64)>::empty(),
    {
        GenesisConfig { balances: Vec::new() }
    }
}

impl GenesisConfig {
    /// Mints each balance in order on an empty ledger, and stops at the first that
    /// cannot be minted.
    pub fn try_build(&self) -> (r: Result<Pallet, DispatchError>)
        ensures
            match Ledger::empty().mint_all(self.balances@) {
                Ok(ledger) => r is Ok && r->Ok_0@ == ledger,
                Err(e) => r is Err && r->Err_0 == e,
            },
    {
        let mut pallet = Pallet::new();
        let mut i: usize = 0;
        while i < self.balances.len()
            invariant
                i <= self.balances.len(),
                Ledger::empty().mint_all(self.balances@.take(i as int)) == Ok::<Ledger, DispatchError>(pallet@),
            decreases self.balances.len() - i,
        {
            let (who, amount) = self.balances[i];
            proof {
                assert(self.balances@.take(i + 1).drop_last() =~= self.balances@.take(i as int));
            }
            match pallet.mint(&who, amount) {
                Ok(()) => {},
                Err(e) => {
                    proof {
                        lemma_mint_all_fails_for_good(Ledger::empty(), self.balances@, i + 1);
                    }
                    return Err(e);
                },
            }
            i = i + 1;
        }
        proof {
            assert(self.balances@.take(i as int) =~= self.balances@);
        }
        Ok(pallet)
    }

    /// The ledger that holds exactly the balances of this configuration.
    pub fn build(&self) -> (pallet: Pallet)
        requires
            Ledger::empty().mint_all(self.balances@) is Ok,
        ensures
            Ledger::empty().mint_all(self.balances@) == Ok::<Ledger, DispatchError>(pallet@),
    {
        match self.try_build() {
            Ok(pallet) => pallet,
            Err(_) => unreached(),
        }
    }
}

/// Once minting a prefix of `entries` has failed, minting all of them fails for the same reason.
proof fn lemma_mint_all_fails_for_good(ledger: Ledger, entries: Seq<(AccountId, u64)>, n: int)
    requires
        0 <= n <= entries.len(),
        ledger.mint_all(entries.take(n)) is Err,
    ensures
        ledger.mint_all(entries) == ledger.mint_all(entries.take(n)),
    decreases entries.len(),
{
    if n == entries.len() {
        assert(entries.take(n) =~= entries);
    } else {
        assert(entries.drop_last().take(n) =~= entries.take(n));
        lemma_mint_all_fails_for_good(ledger, entries.drop_last(), n);
    }
}

impl FTTransfer for Pallet {
    open spec fn balances(&self) -> Map<AccountId, u64> {
        self@.balances
    }

    proof fn balances_total(&self) {
    }

    fn transfer(&mut self, src: &AccountId, dst: &AccountId, amount: u64) -> (r: DispatchResult) {
        self.move_balance(src, dst, amount)
    }
}

} // verus!

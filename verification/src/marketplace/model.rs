//! The marketplace as a transition system: its state, and what each operation
//! makes of a state.

use vstd::prelude::*;
use crate::marketplace::{Config, Error, Event, RentItem, SellItem};
use crate::primitives::{AccountId, ClassId, DispatchError, TokenId};
use crate::traits::{ledger_transfer, registry_transfer};

verus! {

/// Everything the marketplace reads or changes.
#[verifier::ext_equal]
pub struct State {
    /// What each account holds on the ledger.
    pub balances: Map<AccountId, u64>,
    /// Who owns each token of the registry.
    pub owners: Map<(ClassId, TokenId), AccountId>,
    /// The running auctions.
    pub sell_items: Map<(ClassId, TokenId), SellItem>,
    /// The rent offers, taken or not.
    pub rent_items: Map<(ClassId, TokenId), RentItem>,
}

/// The state an operation leaves and what it returns.
#[verifier::ext_equal]
pub struct Outcome {
    pub state: State,
    pub result: Result<Event, DispatchError>,
}

/// An operation that an account asks of the marketplace.
#[derive(Clone, Copy, Debug, PartialEq, Eq, Structural)]
pub enum Call {
    OpenBid { class_id: ClassId, token_id: TokenId, base_price: u64, delay_duration: u64, bid_duration: u64 },
    CancelBid { class_id: ClassId, token_id: TokenId },
    Bid { class_id: ClassId, token_id: TokenId, bid_price: u64 },
    ClaimNft { class_id: ClassId, token_id: TokenId },
    OfferRent { class_id: ClassId, token_id: TokenId, duration: u64, collateral: u64, price: u64 },
    Rent { class_id: ClassId, token_id: TokenId },
    CancelRent { class_id: ClassId, token_id: TokenId },
    RepayRent { class_id: ClassId, token_id: TokenId },
    LiquidateRent { class_id: ClassId, token_id: TokenId },
}

/// The outcome of an operation that the marketplace refuses: nothing changes.
pub open spec fn refused(s: State, e: Error) -> Outcome {
    Outcome { state: s, result: Err(DispatchError::Marketplace(e)) }
}

/// The outcome of an operation that the ledger or the registry refuses: nothing changes.
pub open spec fn failed(s: State, e: DispatchError) -> Outcome {
    Outcome { state: s, result: Err(e) }
}

impl State {
    /// What the operation `call` does when `who` asks for it at `now`.
    pub open spec fn dispatch(self, config: Config, who: AccountId, call: Call, now: u64) -> Outcome {
        match call {
            Call::OpenBid { class_id, token_id, base_price, delay_duration, bid_duration } => self.open(
                config,
                who,
                class_id,
                token_id,
                base_price,
                delay_duration,
                bid_duration,
                now,
            ),
            Call::CancelBid { class_id, token_id } => self.cancel(config, who, class_id, token_id),
            Call::Bid { class_id, token_id, bid_price } => self.bid(config, who, class_id, token_id, bid_price, now),
            Call::ClaimNft { class_id, token_id } => self.claim(config, who, class_id, token_id, now),
            Call::OfferRent { class_id, token_id, duration, collateral, price } => self.offer(
                config,
                who,
                class_id,
                token_id,
                duration,
                collateral,
                price,
            ),
            Call::Rent { class_id, token_id } => self.rent(config, who, class_id, token_id, now),
            Call::CancelRent { class_id, token_id } => self.cancel_rent(config, who, class_id, token_id),
            Call::RepayRent { class_id, token_id } => self.repay(config, who, class_id, token_id, now),
            Call::LiquidateRent { class_id, token_id } => self.liquidate(config, who, class_id, token_id, now),
        }
    }

    /// What opening an auction does: the token goes into escrow and the listing
    /// starts at the base price with the seller as its own leader.
    pub open spec fn open(
        self,
        config: Config,
        seller: AccountId,
        class_id: ClassId,
        token_id: TokenId,
        base_price: u64,
        delay_duration: u64,
        bid_duration: u64,
        now: u64,
    ) -> Outcome {
        let asset = (class_id, token_id);
        if !(config.min_base_price <= base_price <= config.max_base_price) {
            refused(self, Error::InvalidBasePrice)
        } else if !config.valid_bid_time(now, delay_duration, bid_duration) {
            refused(self, Error::InvalidBidTime)
        } else if !(self.owners.contains_key(asset) && self.owners[asset] == seller) {
            refused(self, Error::OnlyOwnerCanSellNFT)
        } else {
            let item = SellItem {
                seller,
                current_price: base_price,
                current_winner: seller,
                start_time: (now + delay_duration) as u64,
                end_time: (now + delay_duration + bid_duration) as u64,
            };
            Outcome {
                state: State {
                    owners: self.owners.insert(asset, config.custodian()),
                    sell_items: self.sell_items.insert(asset, item),
                    ..self
                },
                result: Ok(Event::Opened(seller, class_id, token_id, base_price)),
            }
        }
    }

    /// What cancelling an auction does: while nobody has bid, the seller takes the
    /// token back and the listing goes.
    pub open spec fn cancel(self, config: Config, seller: AccountId, class_id: ClassId, token_id: TokenId) -> Outcome {
        let asset = (class_id, token_id);
        if !self.sell_items.contains_key(asset) {
            refused(self, Error::SellItemNotExist)
        } else if seller != self.sell_items[asset].seller {
            refused(self, Error::OnlyOwnerCanCancel)
        } else if seller != self.sell_items[asset].current_winner {
            refused(self, Error::CannotCancel)
        } else {
            match registry_transfer(self.owners, config.custodian(), seller, asset) {
                Err(e) => failed(self, e),
                Ok(owners) => Outcome {
                    state: State { owners, sell_items: self.sell_items.remove(asset), ..self },
                    result: Ok(Event::Canceled(seller, class_id, token_id)),
                },
            }
        }
    }

    /// What a bid does: the bidder pays the seller the raise and, unless the bidder
    /// already leads, refunds the previous leader the previous price; then the
    /// bidder leads at the new price.
    pub open spec fn bid(
        self,
        config: Config,
        bidder: AccountId,
        class_id: ClassId,
        token_id: TokenId,
        bid_price: u64,
        now: u64,
    ) -> Outcome {
        let asset = (class_id, token_id);
        if !self.sell_items.contains_key(asset) {
            refused(self, Error::SellItemNotExist)
        } else {
            let item = self.sell_items[asset];
            if bidder == item.seller {
                refused(self, Error::OwnerCannotBid)
            } else if !(item.start_time <= now <= item.end_time) {
                refused(self, Error::NotInBidDuration)
            } else if !(bid_price > item.current_price) {
                refused(self, Error::TooLowBidPrice)
            } else {
                match ledger_transfer(self.balances, bidder, item.seller, (bid_price - item.current_price) as u64) {
                    Err(e) => failed(self, e),
                    Ok(raised) => {
                        let refunded = if bidder != item.current_winner {
                            ledger_transfer(raised, bidder, item.current_winner, item.current_price)
                        } else {
                            Ok(raised)
                        };
                        match refunded {
                            Err(e) => failed(self, e),
                            Ok(balances) => Outcome {
                                state: State {
                                    balances,
                                    sell_items: self.sell_items.insert(
                                        asset,
                                        SellItem { current_winner: bidder, current_price: bid_price, ..item },
                                    ),
                                    ..self
                                },
                                result: Ok(Event::Bid(bidder, class_id, token_id, bid_price)),
                            },
                        }
                    },
                }
            }
        }
    }

    /// What claiming does: once the auction is over, its leader takes the token out
    /// of escrow and the listing goes. No value moves.
    pub open spec fn claim(
        self,
        config: Config,
        winner: AccountId,
        class_id: ClassId,
        token_id: TokenId,
        now: u64,
    ) -> Outcome {
        let asset = (class_id, token_id);
        if !self.sell_items.contains_key(asset) {
            refused(self, Error::SellItemNotExist)
        } else if winner != self.sell_items[asset].current_winner {
            refused(self, Error::OnlyWinnerCanClaim)
        } else if !(now > self.sell_items[asset].end_time) {
            refused(self, Error::SellIsNotEnded)
        } else {
            match registry_transfer(self.owners, config.custodian(), winner, asset) {
                Err(e) => failed(self, e),
                Ok(owners) => Outcome {
                    state: State { owners, sell_items: self.sell_items.remove(asset), ..self },
                    result: Ok(Event::Closed(winner, class_id, token_id)),
                },
            }
        }
    }

    /// What offering a token for rent does: the token goes into escrow and the
    /// listing starts unrented.
    pub open spec fn offer(
        self,
        config: Config,
        leaser: AccountId,
        class_id: ClassId,
        token_id: TokenId,
        duration: u64,
        collateral: u64,
        price: u64,
    ) -> Outcome {
        let asset = (class_id, token_id);
        if !(config.min_rent_price <= price <= config.max_rent_price) {
            refused(self, Error::InvalidRentPrice)
        } else if !(config.min_rent_duration <= duration <= config.max_rent_duration) {
            refused(self, Error::InvalidRentDuration)
        } else if !(config.min_collateral <= collateral <= config.max_collateral) {
            refused(self, Error::InvalidRentCollateral)
        } else if !(self.owners.contains_key(asset) && self.owners[asset] == leaser) {
            refused(self, Error::OnlyOwnerCanOffer)
        } else {
            let item = RentItem {
                leaser,
                renter: leaser,
                collateral,
                price,
                start_time: 0,
                duration,
                is_renting: false,
            };
            Outcome {
                state: State {
                    owners: self.owners.insert(asset, config.custodian()),
                    rent_items: self.rent_items.insert(asset, item),
                    ..self
                },
                result: Ok(Event::Offered(leaser, class_id, token_id)),
            }
        }
    }

    /// What withdrawing a rent offer does: while nobody rents, the leaser takes the
    /// token back and the listing goes.
    pub open spec fn cancel_rent(
        self,
        config: Config,
        leaser: AccountId,
        class_id: ClassId,
        token_id: TokenId,
    ) -> Outcome {
        let asset = (class_id, token_id);
        if !self.rent_items.contains_key(asset) {
            refused(self, Error::RentItemNotExist)
        } else if self.rent_items[asset].is_renting {
            refused(self, Error::ItemIsRenting)
        } else if self.rent_items[asset].leaser != leaser {
            refused(self, Error::OnlyOwnerCanCancelRent)
        } else {
            match registry_transfer(self.owners, config.custodian(), leaser, asset) {
                Err(e) => failed(self, e),
                Ok(owners) => Outcome {
                    state: State { owners, rent_items: self.rent_items.remove(asset), ..self },
                    result: Ok(Event::RentCanceled(leaser, class_id, token_id)),
                },
            }
        }
    }

    /// What renting does: the renter puts the collateral into escrow, pays the
    /// leaser the price and receives the token; the rental starts at `now`.
    pub open spec fn rent(
        self,
        config: Config,
        renter: AccountId,
        class_id: ClassId,
        token_id: TokenId,
        now: u64,
    ) -> Outcome {
        let asset = (class_id, token_id);
        if !self.rent_items.contains_key(asset) {
            refused(self, Error::RentItemNotExist)
        } else {
            let item = self.rent_items[asset];
            if item.is_renting {
                refused(self, Error::ItemIsRenting)
            } else if item.leaser == renter {
                refused(self, Error::RenterMustNotBeLeaser)
            } else {
                match ledger_transfer(self.balances, renter, config.custodian(), item.collateral) {
                    Err(e) => failed(self, e),
                    Ok(secured) => match ledger_transfer(secured, renter, item.leaser, item.price) {
                        Err(e) => failed(self, e),
                        Ok(balances) => match registry_transfer(self.owners, config.custodian(), renter, asset) {
                            Err(e) => failed(self, e),
                            Ok(owners) => Outcome {
                                state: State {
                                    balances,
                                    owners,
                                    rent_items: self.rent_items.insert(
                                        asset,
                                        RentItem { renter, start_time: now, is_renting: true, ..item },
                                    ),
                                    ..self
                                },
                                result: Ok(Event::Rented(renter, class_id, token_id)),
                            },
                        },
                    },
                }
            }
        }
    }

    /// What repaying does: before the rental runs out, the renter hands the token to
    /// the leaser and takes the collateral back; the listing goes.
    pub open spec fn repay(
        self,
        config: Config,
        renter: AccountId,
        class_id: ClassId,
        token_id: TokenId,
        now: u64,
    ) -> Outcome {
        let asset = (class_id, token_id);
        if !self.rent_items.contains_key(asset) {
            refused(self, Error::RentItemNotExist)
        } else {
            let item = self.rent_items[asset];
            if !item.is_renting {
                refused(self, Error::ItemIsNotRenting)
            } else if item.renter != renter {
                refused(self, Error::OnlyRenterCanRepay)
            } else if item.expired(now) {
                refused(self, Error::RentIsExpired)
            } else {
                match registry_transfer(self.owners, renter, item.leaser, asset) {
                    Err(e) => failed(self, e),
                    Ok(owners) => match ledger_transfer(self.balances, config.custodian(), renter, item.collateral) {
                        Err(e) => failed(self, e),
                        Ok(balances) => Outcome {
                            state: State {
                                balances,
                                owners,
                                rent_items: self.rent_items.remove(asset),
                                ..self
                            },
                            result: Ok(Event::Repaid(renter, class_id, token_id)),
                        },
                    },
                }
            }
        }
    }

    /// What liquidating does: once the rental has run out, the leaser takes the
    /// collateral and the listing goes. The token stays with the renter.
    pub open spec fn liquidate(
        self,
        config: Config,
        leaser: AccountId,
        class_id: ClassId,
        token_id: TokenId,
        now: u64,
    ) -> Outcome {
        let asset = (class_id, token_id);
        if !self.rent_items.contains_key(asset) {
            refused(self, Error::RentItemNotExist)
        } else {
            let item = self.rent_items[asset];
            if !item.is_renting {
                refused(self, Error::ItemIsNotRenting)
            } else if item.leaser != leaser {
                refused(self, Error::OnlyLeaserCanLiquidate)
            } else if !item.expired(now) {
                refused(self, Error::RentIsNotExpired)
            } else {
                match ledger_transfer(self.balances, config.custodian(), leaser, item.collateral) {
                    Err(e) => failed(self, e),
                    Ok(balances) => Outcome {
                        state: State { balances, rent_items: self.rent_items.remove(asset), ..self },
                        result: Ok(Event::Liquidated(leaser, class_id, token_id, item.renter)),
                    },
                }
            }
        }
    }
}

} // verus!

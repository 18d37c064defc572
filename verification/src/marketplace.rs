//! The marketplace engine: time-boxed English auctions and fixed-term,
//! collateralized rentals of single tokens.

pub mod laws;
pub mod model;

use vstd::prelude::*;
use std::collections::BTreeMap;
use frame_support::PalletId;
use sp_runtime::traits::AccountIdConversion;
use crate::marketplace::model::{failed, Call, Outcome, State};
use crate::primitives::{ensure_signed, signer_of, AccountId, ClassId, DispatchError, Origin, TokenId};
use crate::traits::{FTTransfer, NFTForMarketplace};

verus! {

/// A token put up for auction.
#[derive(Clone, Copy, Debug, PartialEq, Eq, Structural)]
pub struct SellItem {
    pub seller: AccountId,
    pub current_price: u64,
    pub current_winner: AccountId,
    pub start_time: u64,
    pub end_time: u64,
}

/// A token offered for rent.
#[derive(Clone, Copy, Debug, PartialEq, Eq, Structural)]
pub struct RentItem {
    pub leaser: AccountId,
    pub renter: AccountId,
    pub collateral: u64,
    pub price: u64,
    pub start_time: u64,
    pub duration: u64,
    pub is_renting: bool,
}

/// The bounds that listings are held to, and the identifier the escrow account derives from.
#[derive(Clone, Copy, Debug)]
pub struct Config {
    pub max_bid_duration: u64,
    pub min_bid_duration: u64,
    pub min_base_price: u64,
    pub max_base_price: u64,
    pub min_rent_price: u64,
    pub max_rent_price: u64,
    pub min_collateral: u64,
    pub max_collateral: u64,
    pub min_rent_duration: u64,
    pub max_rent_duration: u64,
    pub pallet_id: [u8; 8],
}

/// What a successful operation reports.
#[derive(Clone, Copy, Debug, PartialEq, Eq, Structural)]
pub enum Event {
    Opened(AccountId, ClassId, TokenId, u64),
    Bid(AccountId, ClassId, TokenId, u64),
    Canceled(AccountId, ClassId, TokenId),
    Closed(AccountId, ClassId, TokenId),
    Offered(AccountId, ClassId, TokenId),
    RentCanceled(AccountId, ClassId, TokenId),
    Rented(AccountId, ClassId, TokenId),
    Repaid(AccountId, ClassId, TokenId),
    Liquidated(AccountId, ClassId, TokenId, AccountId),
}

/// Why the marketplace refused.
#[derive(Clone, Copy, Debug, PartialEq, Eq, Structural)]
pub enum Error {
    InvalidBidTime,
    InvalidBasePrice,
    SellItemNotExist,
    OnlyOwnerCanSellNFT,
    OnlyOwnerCanCancel,
    CannotCancel,
    OwnerCannotBid,
    NotInBidDuration,
    TooLowBidPrice,
    OnlyWinnerCanClaim,
    SellIsNotEnded,
    InvalidRentPrice,
    InvalidRentDuration,
    InvalidRentCollateral,
    OnlyOwnerCanOffer,
    RentItemNotExist,
    ItemIsRenting,
    ItemIsNotRenting,
    RenterMustNotBeLeaser,
    OnlyRenterCanRepay,
    RentIsExpired,
    OnlyLeaserCanLiquidate,
    RentIsNotExpired,
    OnlyOwnerCanCancelRent,
}

/// The account derived from a pallet identifier: the number whose eight bytes, lowest
/// first, are the letters `modl` and then the first four bytes of the identifier.
pub open spec fn account_of(id: [u8; 8]) -> AccountId {
    (0x6d + 0x6f * 0x100 + 0x64 * 0x1_0000 + 0x6c * 0x100_0000 + id[0] * 0x1_0000_0000 + id[1]
        * 0x100_0000_0000 + id[2] * 0x1_0000_0000_0000 + id[3] * 0x100_0000_0000_0000) as u64
}

/// Calls `AccountIdConversion::into_account_truncating` of `sp_runtime` on a
/// `frame_support::PalletId` made of `id`. Not verified.
///
/// The conversion encodes the type tag `modl` followed by the identifier and decodes
/// an account from the front of those bytes, which never fails. For a 64-bit account
/// that is the tag and the first four bytes of the identifier, read lowest byte first.
#[verifier::external_body]
fn into_account_truncating(id: &[u8; 8]) -> (account: AccountId)
    ensures
        account == account_of(*id),
{
    PalletId(*id).into_account_truncating()
}

impl Config {
    /// The escrow account, which holds tokens and collateral in transit.
    pub open spec fn custodian(self) -> AccountId {
        account_of(self.pallet_id)
    }

    /// Whether an auction opened at `now` with these durations has a valid window:
    /// its end fits the clock, and its length is positive and within bounds.
    pub open spec fn valid_bid_time(self, now: u64, delay_duration: u64, bid_duration: u64) -> bool {
        &&& now + delay_duration + bid_duration <= u64::MAX
        &&& 0 < bid_duration
        &&& self.min_bid_duration <= bid_duration <= self.max_bid_duration
    }
}

impl RentItem {
    /// Whether the rental has run out at `now`.
    pub open spec fn expired(self, now: u64) -> bool {
        self.start_time + self.duration < now
    }

    /// Whether the rental has run out at `now`.
    pub fn is_expired(&self, now: u64) -> (b: bool)
        ensures
            b == self.expired(now),
    {
        match self.start_time.checked_add(self.duration) {
            Some(deadline) => deadline < now,
            None => false,
        }
    }
}

/// The marketplace, with the ledger and the registry it settles against.
pub struct Pallet<F: FTTransfer, N: NFTForMarketplace> {
    pub config: Config,
    pub ft: F,
    pub nft: N,
    pub sell_items: BTreeMap<(ClassId, TokenId), SellItem>,
    pub rent_items: BTreeMap<(ClassId, TokenId), RentItem>,
}

impl<F: FTTransfer, N: NFTForMarketplace> View for Pallet<F, N> {
    type V = State;

    open spec fn view(&self) -> State {
        State {
            balances: self.ft.balances(),
            owners: self.nft.owners(),
            sell_items: self.sell_items@,
            rent_items: self.rent_items@,
        }
    }
}

impl<F: FTTransfer, N: NFTForMarketplace> Pallet<F, N> {
    /// A marketplace without listings.
    pub fn new(config: Config, ft: F, nft: N) -> (pallet: Self)
        ensures
            pallet.config == config,
            pallet.ft == ft,
            pallet.nft == nft,
            pallet.sell_items@ == Map::<(ClassId, TokenId), SellItem>::empty(),
            pallet.rent_items@ == Map::<(ClassId, TokenId), RentItem>::empty(),
    {
        Pallet { config, ft, nft, sell_items: BTreeMap::new(), rent_items: BTreeMap::new() }
    }

    /// The auction of the token, if one runs.
    pub fn sell_item(&self, class_id: ClassId, token_id: TokenId) -> (item: Option<SellItem>)
        ensures
            item == (if self@.sell_items.contains_key((class_id, token_id)) {
                Some(self@.sell_items[(class_id, token_id)])
            } else {
                None
            }),
    {
        match self.sell_items.get(&(class_id, token_id)) {
            Some(item) => Some(*item),
            None => None,
        }
    }

    /// The rent offer of the token, if there is one.
    pub fn rent_item(&self, class_id: ClassId, token_id: TokenId) -> (item: Option<RentItem>)
        ensures
            item == (if self@.rent_items.contains_key((class_id, token_id)) {
                Some(self@.rent_items[(class_id, token_id)])
            } else {
                None
            }),
    {
        match self.rent_items.get(&(class_id, token_id)) {
            Some(item) => Some(*item),
            None => None,
        }
    }

    /// Runs `call` on behalf of the signer of `origin`.
    pub fn dispatch(&mut self, origin: Origin, call: Call, now: u64) -> (r: Result<Event, DispatchError>)
        ensures
            final(self).config == old(self).config,
            r matches Err(e) && !(e is Ft) && !(e is Nft) ==> *final(self) == *old(self),
            match signer_of(origin) {
                Ok(who) => (Outcome { state: final(self)@, result: r }) == old(self)@.dispatch(
                    old(self).config,
                    who,
                    call,
                    now,
                ),
                Err(e) => (Outcome { state: final(self)@, result: r }) == failed(old(self)@, e),
            },
    {
        match call {
            Call::OpenBid { class_id, token_id, base_price, delay_duration, bid_duration } => self.open_bid(
                origin,
                class_id,
                token_id,
                base_price,
                delay_duration,
                bid_duration,
                now,
            ),
            Call::CancelBid { class_id, token_id } => self.cancel_bid(origin, class_id, token_id),
            Call::Bid { class_id, token_id, bid_price } => self.bid(origin, class_id, token_id, bid_price, now),
            Call::ClaimNft { class_id, token_id } => self.claim_nft(origin, class_id, token_id, now),
            Call::OfferRent { class_id, token_id, duration, collateral, price } => self.offer_rent(
                origin,
                class_id,
                token_id,
                duration,
                collateral,
                price,
            ),
            Call::Rent { class_id, token_id } => self.rent(origin, class_id, token_id, now),
            Call::CancelRent { class_id, token_id } => self.cancel_rent(origin, class_id, token_id),
            Call::RepayRent { class_id, token_id } => self.repay_rent(origin, class_id, token_id, now),
            Call::LiquidateRent { class_id, token_id } => self.liquidate_rent(origin, class_id, token_id, now),
        }
    }

    /// Opens an auction on behalf of the signer of `origin`.
    pub fn open_bid(
        &mut self,
        origin: Origin,
        class_id: ClassId,
        token_id: TokenId,
        base_price: u64,
        delay_duration: u64,
        bid_duration: u64,
        now: u64,
    ) -> (r: Result<Event, DispatchError>)
        ensures
            final(self).config == old(self).config,
            r is Err ==> *final(self) == *old(self),
            match signer_of(origin) {
                Ok(seller) => (Outcome { state: final(self)@, result: r }) == old(self)@.open(
                    old(self).config,
                    seller,
                    class_id,
                    token_id,
                    base_price,
                    delay_duration,
                    bid_duration,
                    now,
                ),
                Err(e) => (Outcome { state: final(self)@, result: r }) == failed(old(self)@, e),
            },
    {
        let seller = match ensure_signed(origin) {
            Ok(who) => who,
            Err(e) => {
                return Err(e);
            },
        };
        self.do_open(&seller, class_id, token_id, base_price, delay_duration, bid_duration, now)
    }

    /// Cancels an auction on behalf of the signer of `origin`.
    pub fn cancel_bid(&mut self, origin: Origin, class_id: ClassId, token_id: TokenId) -> (r: Result<
        Event,
        DispatchError,
    >)
        ensures
            final(self).config == old(self).config,
            r is Err ==> *final(self) == *old(self),
            match signer_of(origin) {
                Ok(seller) => (Outcome { state: final(self)@, result: r }) == old(self)@.cancel(
                    old(self).config,
                    seller,
                    class_id,
                    token_id,
                ),
                Err(e) => (Outcome { state: final(self)@, result: r }) == failed(old(self)@, e),
            },
    {
        let seller = match ensure_signed(origin) {
            Ok(who) => who,
            Err(e) => {
                return Err(e);
            },
        };
        self.do_cancel(&seller, class_id, token_id)
    }

    /// Bids on behalf of the signer of `origin`.
    pub fn bid(
        &mut self,
        origin: Origin,
        class_id: ClassId,
        token_id: TokenId,
        bid_price: u64,
        now: u64,
    ) -> (r: Result<Event, DispatchError>)
        ensures
            final(self).config == old(self).config,
            r matches Err(e) && !(e is Ft) && !(e is Nft) ==> *final(self) == *old(self),
            match signer_of(origin) {
                Ok(bidder) => (Outcome { state: final(self)@, result: r }) == old(self)@.bid(
                    old(self).config,
                    bidder,
                    class_id,
                    token_id,
                    bid_price,
                    now,
                ),
                Err(e) => (Outcome { state: final(self)@, result: r }) == failed(old(self)@, e),
            },
    {
        let bidder = match ensure_signed(origin) {
            Ok(who) => who,
            Err(e) => {
                return Err(e);
            },
        };
        self.do_bid(&bidder, class_id, token_id, bid_price, now)
    }

    /// Claims the token of a finished auction on behalf of the signer of `origin`.
    pub fn claim_nft(&mut self, origin: Origin, class_id: ClassId, token_id: TokenId, now: u64) -> (r:
        Result<Event, DispatchError>)
        ensures
            final(self).config == old(self).config,
            r is Err ==> *final(self) == *old(self),
            match signer_of(origin) {
                Ok(winner) => (Outcome { state: final(self)@, result: r }) == old(self)@.claim(
                    old(self).config,
                    winner,
                    class_id,
                    token_id,
                    now,
                ),
                Err(e) => (Outcome { state: final(self)@, result: r }) == failed(old(self)@, e),
            },
    {
        let winner = match ensure_signed(origin) {
            Ok(who) => who,
            Err(e) => {
                return Err(e);
            },
        };
        self.do_claim(&winner, class_id, token_id, now)
    }

    /// Offers a token for rent on behalf of the signer of `origin`.
    pub fn offer_rent(
        &mut self,
        origin: Origin,
        class_id: ClassId,
        token_id: TokenId,
        duration: u64,
        collateral: u64,
        price: u64,
    ) -> (r: Result<Event, DispatchError>)
        ensures
            final(self).config == old(self).config,
            r is Err ==> *final(self) == *old(self),
            match signer_of(origin) {
                Ok(leaser) => (Outcome { state: final(self)@, result: r }) == old(self)@.offer(
                    old(self).config,
                    leaser,
                    class_id,
                    token_id,
                    duration,
                    collateral,
                    price,
                ),
                Err(e) => (Outcome { state: final(self)@, result: r }) == failed(old(self)@, e),
            },
    {
        let leaser = match ensure_signed(origin) {
            Ok(who) => who,
            Err(e) => {
                return Err(e);
            },
        };
        self.do_offer(&leaser, class_id, token_id, duration, collateral, price)
    }

    /// Takes a rent offer on behalf of the signer of `origin`.
    pub fn rent(&mut self, origin: Origin, class_id: ClassId, token_id: TokenId, now: u64) -> (r: Result<
        Event,
        DispatchError,
    >)
        ensures
            final(self).config == old(self).config,
            r matches Err(e) && !(e is Ft) && !(e is Nft) ==> *final(self) == *old(self),
            match signer_of(origin) {
                Ok(renter) => (Outcome { state: final(self)@, result: r }) == old(self)@.rent(
                    old(self).config,
                    renter,
                    class_id,
                    token_id,
                    now,
                ),
                Err(e) => (Outcome { state: final(self)@, result: r }) == failed(old(self)@, e),
            },
    {
        let renter = match ensure_signed(origin) {
            Ok(who) => who,
            Err(e) => {
                return Err(e);
            },
        };
        self.do_rent(&renter, class_id, token_id, now)
    }

    /// Withdraws a rent offer on behalf of the signer of `origin`.
    pub fn cancel_rent(&mut self, origin: Origin, class_id: ClassId, token_id: TokenId) -> (r: Result<
        Event,
        DispatchError,
    >)
        ensures
            final(self).config == old(self).config,
            r is Err ==> *final(self) == *old(self),
            match signer_of(origin) {
                Ok(leaser) => (Outcome { state: final(self)@, result: r }) == old(self)@.cancel_rent(
                    old(self).config,
                    leaser,
                    class_id,
                    token_id,
                ),
                Err(e) => (Outcome { state: final(self)@, result: r }) == failed(old(self)@, e),
            },
    {
        let leaser = match ensure_signed(origin) {
            Ok(who) => who,
            Err(e) => {
                return Err(e);
            },
        };
        self.do_cancel_rent(&leaser, class_id, token_id)
    }

    /// Ends a rental in time on behalf of the signer of `origin`.
    pub fn repay_rent(&mut self, origin: Origin, class_id: ClassId, token_id: TokenId, now: u64) -> (r:
        Result<Event, DispatchError>)
        ensures
            final(self).config == old(self).config,
            r matches Err(e) && !(e is Ft) && !(e is Nft) ==> *final(self) == *old(self),
            match signer_of(origin) {
                Ok(renter) => (Outcome { state: final(self)@, result: r }) == old(self)@.repay(
                    old(self).config,
                    renter,
                    class_id,
                    token_id,
                    now,
                ),
                Err(e) => (Outcome { state: final(self)@, result: r }) == failed(old(self)@, e),
            },
    {
        let renter = match ensure_signed(origin) {
            Ok(who) => who,
            Err(e) => {
                return Err(e);
            },
        };
        self.do_repay(&renter, class_id, token_id, now)
    }

    /// Ends a rental that has run out on behalf of the signer of `origin`.
    pub fn liquidate_rent(&mut self, origin: Origin, class_id: ClassId, token_id: TokenId, now: u64) -> (r:
        Result<Event, DispatchError>)
        ensures
            final(self).config == old(self).config,
            r is Err ==> *final(self) == *old(self),
            match signer_of(origin) {
                Ok(leaser) => (Outcome { state: final(self)@, result: r }) == old(self)@.liquidate(
                    old(self).config,
                    leaser,
                    class_id,
                    token_id,
                    now,
                ),
                Err(e) => (Outcome { state: final(self)@, result: r }) == failed(old(self)@, e),
            },
    {
        let leaser = match ensure_signed(origin) {
            Ok(who) => who,
            Err(e) => {
                return Err(e);
            },
        };
        self.do_liquidate(&leaser, class_id, token_id, now)
    }

    /// The escrow account.
    pub fn pallet_account_id(&self) -> (account: AccountId)
        ensures
            account == self.config.custodian(),
    {
        into_account_truncating(&self.config.pallet_id)
    }

    /// Opens an auction of the caller's token and moves the token into escrow.
    pub fn do_open(
        &mut self,
        seller: &AccountId,
        class_id: ClassId,
        token_id: TokenId,
        base_price: u64,
        delay_duration: u64,
        bid_duration: u64,
        now: u64,
    ) -> (r: Result<Event, DispatchError>)
        ensures
            final(self).config == old(self).config,
            r is Err ==> *final(self) == *old(self),
            (Outcome { state: final(self)@, result: r }) == old(self)@.open(
                old(self).config,
                *seller,
                class_id,
                token_id,
                base_price,
                delay_duration,
                bid_duration,
                now,
            ),
    {
        if !(base_price >= self.config.min_base_price && base_price <= self.config.max_base_price) {
            return Err(DispatchError::Marketplace(Error::InvalidBasePrice));
        }
        let start_time: u64 = match now.checked_add(delay_duration) {
            Some(t) => t,
            None => {
                return Err(DispatchError::Marketplace(Error::InvalidBidTime));
            },
        };
        let end_time: u64 = match start_time.checked_add(bid_duration) {
            Some(t) => t,
            None => {
                return Err(DispatchError::Marketplace(Error::InvalidBidTime));
            },
        };
        if !(start_time < end_time && bid_duration >= self.config.min_bid_duration && bid_duration
            <= self.config.max_bid_duration) {
            return Err(DispatchError::Marketplace(Error::InvalidBidTime));
        }
        if !self.nft.is_owner_of(seller, class_id, token_id) {
            return Err(DispatchError::Marketplace(Error::OnlyOwnerCanSellNFT));
        }
        let custodian = self.pallet_account_id();
        match self.nft.transfer(seller, &custodian, class_id, token_id) {
            Err(e) => {
                return Err(e);
            },
            Ok(()) => {},
        }
        let sell_item = SellItem {
            seller: *seller,
            current_price: base_price,
            current_winner: *seller,
            start_time,
            end_time,
        };
        self.sell_items.insert((class_id, token_id), sell_item);
        Ok(Event::Opened(*seller, class_id, token_id, base_price))
    }

    /// Cancels an auction on which nobody has bid and returns the token to the seller.
    pub fn do_cancel(&mut self, seller: &AccountId, class_id: ClassId, token_id: TokenId) -> (r: Result<
        Event,
        DispatchError,
    >)
        ensures
            final(self).config == old(self).config,
            r is Err ==> *final(self) == *old(self),
            (Outcome { state: final(self)@, result: r }) == old(self)@.cancel(
                old(self).config,
                *seller,
                class_id,
                token_id,
            ),
    {
        let item: SellItem = match self.sell_items.get(&(class_id, token_id)) {
            Some(item) => *item,
            None => {
                return Err(DispatchError::Marketplace(Error::SellItemNotExist));
            },
        };
        if *seller != item.seller {
            return Err(DispatchError::Marketplace(Error::OnlyOwnerCanCancel));
        }
        if *seller != item.current_winner {
            return Err(DispatchError::Marketplace(Error::CannotCancel));
        }
        let custodian = self.pallet_account_id();
        match self.nft.transfer(&custodian, seller, class_id, token_id) {
            Err(e) => {
                return Err(e);
            },
            Ok(()) => {},
        }
        self.sell_items.remove(&(class_id, token_id));
        Ok(Event::Canceled(*seller, class_id, token_id))
    }

    /// Places a bid on a running auction and settles it at once. Where the refund
    /// to the previous leader fails, the payment to the seller is taken back.
    pub fn do_bid(
        &mut self,
        bidder: &AccountId,
        class_id: ClassId,
        token_id: TokenId,
        bid_price: u64,
        now: u64,
    ) -> (r: Result<Event, DispatchError>)
        ensures
            final(self).config == old(self).config,
            r matches Err(e) && !(e is Ft) && !(e is Nft) ==> *final(self) == *old(self),
            (Outcome { state: final(self)@, result: r }) == old(self)@.bid(
                old(self).config,
                *bidder,
                class_id,
                token_id,
                bid_price,
                now,
            ),
    {
        let item: SellItem = match self.sell_items.get(&(class_id, token_id)) {
            Some(item) => *item,
            None => {
                return Err(DispatchError::Marketplace(Error::SellItemNotExist));
            },
        };
        if *bidder == item.seller {
            return Err(DispatchError::Marketplace(Error::OwnerCannotBid));
        }
        if !(item.start_time <= now && item.end_time >= now) {
            return Err(DispatchError::Marketplace(Error::NotInBidDuration));
        }
        if !(bid_price > item.current_price) {
            return Err(DispatchError::Marketplace(Error::TooLowBidPrice));
        }
        let raise: u64 = bid_price - item.current_price;
        proof {
            self.ft.balances_total();
        }
        match self.ft.transfer(bidder, &item.seller, raise) {
            Err(e) => {
                return Err(e);
            },
            Ok(()) => {},
        }
        if *bidder != item.current_winner {
            match self.ft.transfer(bidder, &item.current_winner, item.current_price) {
                Err(e) => {
                    // The seller holds the raise and the bidder held it a moment ago.
                    let _undone = self.ft.transfer(&item.seller, bidder, raise);
                    assert(_undone is Ok);
                    return Err(e);
                },
                Ok(()) => {},
            }
        }
        self.sell_items.insert(
            (class_id, token_id),
            SellItem { current_winner: *bidder, current_price: bid_price, ..item },
        );
        Ok(Event::Bid(*bidder, class_id, token_id, bid_price))
    }

    /// Hands the token of a finished auction to its winner.
    pub fn do_claim(&mut self, winner: &AccountId, class_id: ClassId, token_id: TokenId, now: u64) -> (r:
        Result<Event, DispatchError>)
        ensures
            final(self).config == old(self).config,
            r is Err ==> *final(self) == *old(self),
            (Outcome { state: final(self)@, result: r }) == old(self)@.claim(
                old(self).config,
                *winner,
                class_id,
                token_id,
                now,
            ),
    {
        let item: SellItem = match self.sell_items.get(&(class_id, token_id)) {
            Some(item) => *item,
            None => {
                return Err(DispatchError::Marketplace(Error::SellItemNotExist));
            },
        };
        if *winner != item.current_winner {
            return Err(DispatchError::Marketplace(Error::OnlyWinnerCanClaim));
        }
        if !(now > item.end_time) {
            return Err(DispatchError::Marketplace(Error::SellIsNotEnded));
        }
        let custodian = self.pallet_account_id();
        match self.nft.transfer(&custodian, winner, class_id, token_id) {
            Err(e) => {
                return Err(e);
            },
            Ok(()) => {},
        }
        self.sell_items.remove(&(class_id, token_id));
        Ok(Event::Closed(*winner, class_id, token_id))
    }

    /// Offers the caller's token for rent and moves the token into escrow.
    pub fn do_offer(
        &mut self,
        leaser: &AccountId,
        class_id: ClassId,
        token_id: TokenId,
        duration: u64,
        collateral: u64,
        price: u64,
    ) -> (r: Result<Event, DispatchError>)
        ensures
            final(self).config == old(self).config,
            r is Err ==> *final(self) == *old(self),
            (Outcome { state: final(self)@, result: r }) == old(self)@.offer(
                old(self).config,
                *leaser,
                class_id,
                token_id,
                duration,
                collateral,
                price,
            ),
    {
        if !(price >= self.config.min_rent_price && price <= self.config.max_rent_price) {
            return Err(DispatchError::Marketplace(Error::InvalidRentPrice));
        }
        if !(duration >= self.config.min_rent_duration && duration <= self.config.max_rent_duration) {
            return Err(DispatchError::Marketplace(Error::InvalidRentDuration));
        }
        if !(collateral >= self.config.min_collateral && collateral <= self.config.max_collateral) {
            return Err(DispatchError::Marketplace(Error::InvalidRentCollateral));
        }
        if !self.nft.is_owner_of(leaser, class_id, token_id) {
            return Err(DispatchError::Marketplace(Error::OnlyOwnerCanOffer));
        }
        let custodian = self.pallet_account_id();
        match self.nft.transfer(leaser, &custodian, class_id, token_id) {
            Err(e) => {
                return Err(e);
            },
            Ok(()) => {},
        }
        let rent_item = RentItem {
            leaser: *leaser,
            renter: *leaser,
            collateral,
            price,
            start_time: 0,
            duration,
            is_renting: false,
        };
        self.rent_items.insert((class_id, token_id), rent_item);
        Ok(Event::Offered(*leaser, class_id, token_id))
    }

    /// Withdraws a rent offer that nobody has taken and returns the token to the leaser.
    pub fn do_cancel_rent(&mut self, leaser: &AccountId, class_id: ClassId, token_id: TokenId) -> (r:
        Result<Event, DispatchError>)
        ensures
            final(self).config == old(self).config,
            r is Err ==> *final(self) == *old(self),
            (Outcome { state: final(self)@, result: r }) == old(self)@.cancel_rent(
                old(self).config,
                *leaser,
                class_id,
                token_id,
            ),
    {
        let item: RentItem = match self.rent_items.get(&(class_id, token_id)) {
            Some(item) => *item,
            None => {
                return Err(DispatchError::Marketplace(Error::RentItemNotExist));
            },
        };
        if item.is_renting {
            return Err(DispatchError::Marketplace(Error::ItemIsRenting));
        }
        if item.leaser != *leaser {
            return Err(DispatchError::Marketplace(Error::OnlyOwnerCanCancelRent));
        }
        let custodian = self.pallet_account_id();
        match self.nft.transfer(&custodian, leaser, class_id, token_id) {
            Err(e) => {
                return Err(e);
            },
            Ok(()) => {},
        }
        self.rent_items.remove(&(class_id, token_id));
        Ok(Event::RentCanceled(*leaser, class_id, token_id))
    }

    /// Takes a rent offer. Where a later step fails, the payments already made are
    /// taken back in reverse order.
    pub fn do_rent(&mut self, renter: &AccountId, class_id: ClassId, token_id: TokenId, now: u64) -> (r:
        Result<Event, DispatchError>)
        ensures
            final(self).config == old(self).config,
            r matches Err(e) && !(e is Ft) && !(e is Nft) ==> *final(self) == *old(self),
            (Outcome { state: final(self)@, result: r }) == old(self)@.rent(
                old(self).config,
                *renter,
                class_id,
                token_id,
                now,
            ),
    {
        let item: RentItem = match self.rent_items.get(&(class_id, token_id)) {
            Some(item) => *item,
            None => {
                return Err(DispatchError::Marketplace(Error::RentItemNotExist));
            },
        };
        if item.is_renting {
            return Err(DispatchError::Marketplace(Error::ItemIsRenting));
        }
        if item.leaser == *renter {
            return Err(DispatchError::Marketplace(Error::RenterMustNotBeLeaser));
        }
        let custodian = self.pallet_account_id();
        proof {
            self.ft.balances_total();
        }
        match self.ft.transfer(renter, &custodian, item.collateral) {
            Err(e) => {
                return Err(e);
            },
            Ok(()) => {},
        }
        match self.ft.transfer(renter, &item.leaser, item.price) {
            Err(e) => {
                // The escrow holds the collateral and the renter held it a moment ago.
                let _undone = self.ft.transfer(&custodian, renter, item.collateral);
                assert(_undone is Ok);
                return Err(e);
            },
            Ok(()) => {},
        }
        match self.nft.transfer(&custodian, renter, class_id, token_id) {
            Err(e) => {
                // Both payments can go back the way they came, the later one first.
                let _undone = self.ft.transfer(&item.leaser, renter, item.price);
                assert(_undone is Ok);
                let _undone = self.ft.transfer(&custodian, renter, item.collateral);
                assert(_undone is Ok);
                return Err(e);
            },
            Ok(()) => {},
        }
        self.rent_items.insert(
            (class_id, token_id),
            RentItem { renter: *renter, start_time: now, is_renting: true, ..item },
        );
        Ok(Event::Rented(*renter, class_id, token_id))
    }

    /// Ends a rental in time. Where the collateral cannot be paid back, the token
    /// returns to the renter.
    pub fn do_repay(&mut self, renter: &AccountId, class_id: ClassId, token_id: TokenId, now: u64) -> (r:
        Result<Event, DispatchError>)
        ensures
            final(self).config == old(self).config,
            r matches Err(e) && !(e is Ft) && !(e is Nft) ==> *final(self) == *old(self),
            (Outcome { state: final(self)@, result: r }) == old(self)@.repay(
                old(self).config,
                *renter,
                class_id,
                token_id,
                now,
            ),
    {
        let item: RentItem = match self.rent_items.get(&(class_id, token_id)) {
            Some(item) => *item,
            None => {
                return Err(DispatchError::Marketplace(Error::RentItemNotExist));
            },
        };
        if !item.is_renting {
            return Err(DispatchError::Marketplace(Error::ItemIsNotRenting));
        }
        if item.renter != *renter {
            return Err(DispatchError::Marketplace(Error::OnlyRenterCanRepay));
        }
        if item.is_expired(now) {
            return Err(DispatchError::Marketplace(Error::RentIsExpired));
        }
        match self.nft.transfer(renter, &item.leaser, class_id, token_id) {
            Err(e) => {
                return Err(e);
            },
            Ok(()) => {},
        }
        let custodian = self.pallet_account_id();
        match self.ft.transfer(&custodian, renter, item.collateral) {
            Err(e) => {
                // The leaser owns the token now and can hand it back.
                let _undone = self.nft.transfer(&item.leaser, renter, class_id, token_id);
                assert(_undone is Ok);
                return Err(e);
            },
            Ok(()) => {},
        }
        self.rent_items.remove(&(class_id, token_id));
        Ok(Event::Repaid(*renter, class_id, token_id))
    }

    /// Ends a rental that has run out: the leaser keeps the collateral, the renter the token.
    pub fn do_liquidate(&mut self, leaser: &AccountId, class_id: ClassId, token_id: TokenId, now: u64) -> (r:
        Result<Event, DispatchError>)
        ensures
            final(self).config == old(self).config,
            r is Err ==> *final(self) == *old(self),
            (Outcome { state: final(self)@, result: r }) == old(self)@.liquidate(
                old(self).config,
                *leaser,
                class_id,
                token_id,
                now,
            ),
    {
        let item: RentItem = match self.rent_items.get(&(class_id, token_id)) {
            Some(item) => *item,
            None => {
                return Err(DispatchError::Marketplace(Error::RentItemNotExist));
            },
        };
        if !item.is_renting {
            return Err(DispatchError::Marketplace(Error::ItemIsNotRenting));
        }
        if item.leaser != *leaser {
            return Err(DispatchError::Marketplace(Error::OnlyLeaserCanLiquidate));
        }
        if !item.is_expired(now) {
            return Err(DispatchError::Marketplace(Error::RentIsNotExpired));
        }
        let custodian = self.pallet_account_id();
        match self.ft.transfer(&custodian, leaser, item.collateral) {
            Err(e) => {
                return Err(e);
            },
            Ok(()) => {},
        }
        self.rent_items.remove(&(class_id, token_id));
        Ok(Event::Liquidated(*leaser, class_id, token_id, item.renter))
    }
}

} // verus!

//! What follows from the marketplace's transitions: how runs of bids settle, how
//! listings round-trip, and where the boundaries of prices and time windows lie.

use vstd::prelude::*;
use crate::marketplace::model::{refused, Call, State};
use crate::marketplace::{Config, Error, Event, RentItem, SellItem};
use crate::primitives::{AccountId, ClassId, DispatchError, TokenId};
use crate::traits::{ledger_transfer, registry_transfer};

verus! {

/// One bid of a run of bids on one auction.
pub struct BidCall {
    pub bidder: AccountId,
    pub bid_price: u64,
    pub now: u64,
}

/// The state that the bids `calls` leave when placed in order on the auction of one token.
pub open spec fn after_bids(
    s: State,
    config: Config,
    class_id: ClassId,
    token_id: TokenId,
    calls: Seq<BidCall>,
) -> State
    decreases calls.len(),
{
    if calls.len() == 0 {
        s
    } else {
        let call = calls.last();
        after_bids(s, config, class_id, token_id, calls.drop_last()).bid(
            config,
            call.bidder,
            class_id,
            token_id,
            call.bid_price,
            call.now,
        ).state
    }
}

/// Whether each of the bids `calls`, placed in order, is accepted.
pub open spec fn bids_accepted(
    s: State,
    config: Config,
    class_id: ClassId,
    token_id: TokenId,
    calls: Seq<BidCall>,
) -> bool
    decreases calls.len(),
{
    calls.len() == 0 || {
        let call = calls.last();
        &&& bids_accepted(s, config, class_id, token_id, calls.drop_last())
        &&& after_bids(s, config, class_id, token_id, calls.drop_last()).bid(
            config,
            call.bidder,
            class_id,
            token_id,
            call.bid_price,
            call.now,
        ).result is Ok
    }
}

/// Whether `cur` is `s` after bids on the auction of `asset` that have all been
/// settled: the seller has received the current price, the leader has paid it, and
/// nobody else has gained or lost.
pub open spec fn settled(s: State, cur: State, asset: (ClassId, TokenId)) -> bool {
    let seller = s.sell_items[asset].seller;
    let item = cur.sell_items[asset];
    &&& cur.balances.dom() == Set::<AccountId>::full()
    &&& cur.sell_items.contains_key(asset)
    &&& item.seller == seller
    &&& item.start_time == s.sell_items[asset].start_time
    &&& item.end_time == s.sell_items[asset].end_time
    &&& cur.owners == s.owners
    &&& cur.rent_items == s.rent_items
    &&& cur.sell_items.remove(asset) == s.sell_items.remove(asset)
    &&& if item.current_winner == seller {
        &&& cur.balances == s.balances
        &&& item.current_price == s.sell_items[asset].current_price
    } else {
        &&& cur.balances[seller] == s.balances[seller] + item.current_price
        &&& cur.balances[item.current_winner] + item.current_price == s.balances[item.current_winner]
        &&& forall|who: AccountId|
            who != seller && who != item.current_winner ==> cur.balances[who] == s.balances[who]
    }
}

/// An accepted bid raises the price strictly, makes the bidder the leader, and
/// leaves the rest of the listing as it was.
pub proof fn lemma_bid_raises_price(
    s: State,
    config: Config,
    bidder: AccountId,
    class_id: ClassId,
    token_id: TokenId,
    bid_price: u64,
    now: u64,
)
    requires
        s.bid(config, bidder, class_id, token_id, bid_price, now).result is Ok,
    ensures
        ({
            let asset = (class_id, token_id);
            let before = s.sell_items[asset];
            let after = s.bid(config, bidder, class_id, token_id, bid_price, now).state.sell_items[asset];
            &&& s.sell_items.contains_key(asset)
            &&& s.bid(config, bidder, class_id, token_id, bid_price, now).state.sell_items.contains_key(asset)
            &&& before.current_price < after.current_price
            &&& after.current_price == bid_price
            &&& after.current_winner == bidder
            &&& after.current_winner != after.seller
            &&& after.seller == before.seller
            &&& after.start_time == before.start_time
            &&& after.end_time == before.end_time
        }),
{
}

/// An accepted bid on an auction whose earlier bids are settled leaves them settled.
pub proof fn lemma_bid_keeps_settled(
    s: State,
    cur: State,
    config: Config,
    bidder: AccountId,
    class_id: ClassId,
    token_id: TokenId,
    bid_price: u64,
    now: u64,
)
    requires
        s.balances.dom() == Set::<AccountId>::full(),
        settled(s, cur, (class_id, token_id)),
        cur.bid(config, bidder, class_id, token_id, bid_price, now).result is Ok,
    ensures
        settled(s, cur.bid(config, bidder, class_id, token_id, bid_price, now).state, (class_id, token_id)),
{
    let asset = (class_id, token_id);
    let next = cur.bid(config, bidder, class_id, token_id, bid_price, now).state;
    assert(next.sell_items.remove(asset) =~= cur.sell_items.remove(asset));
    assert(next.balances.dom() =~= Set::<AccountId>::full());
}

/// However a run of accepted bids on a fresh auction goes, at its end the seller
/// has received exactly the current price, the leader has paid exactly the current
/// price, and every other account holds what it held before the first bid.
pub proof fn lemma_bids_settle(
    s: State,
    config: Config,
    class_id: ClassId,
    token_id: TokenId,
    calls: Seq<BidCall>,
)
    requires
        s.balances.dom() == Set::<AccountId>::full(),
        s.sell_items.contains_key((class_id, token_id)),
        s.sell_items[(class_id, token_id)].current_winner == s.sell_items[(class_id, token_id)].seller,
        bids_accepted(s, config, class_id, token_id, calls),
    ensures
        settled(s, after_bids(s, config, class_id, token_id, calls), (class_id, token_id)),
        calls.len() > 0 ==> ({
            let end = after_bids(s, config, class_id, token_id, calls);
            let item = end.sell_items[(class_id, token_id)];
            &&& item.current_winner == calls.last().bidder
            &&& item.current_price == calls.last().bid_price
            &&& item.current_winner != item.seller
            &&& end.balances[item.seller] == s.balances[item.seller] + item.current_price
            &&& end.balances[item.current_winner] + item.current_price == s.balances[item.current_winner]
            &&& forall|who: AccountId|
                who != item.seller && who != item.current_winner ==> end.balances[who] == s.balances[who]
        }),
    decreases calls.len(),
{
    if calls.len() > 0 {
        let call = calls.last();
        let cur = after_bids(s, config, class_id, token_id, calls.drop_last());
        lemma_bids_settle(s, config, class_id, token_id, calls.drop_last());
        lemma_bid_keeps_settled(s, cur, config, call.bidder, class_id, token_id, call.bid_price, call.now);
        lemma_bid_raises_price(cur, config, call.bidder, class_id, token_id, call.bid_price, call.now);
    }
}

/// Along a run of accepted bids the price rises strictly: after any longer prefix
/// of the run it is higher than after any shorter one.
pub proof fn lemma_bids_raise_price(
    s: State,
    config: Config,
    class_id: ClassId,
    token_id: TokenId,
    calls: Seq<BidCall>,
    shorter: int,
    longer: int,
)
    requires
        bids_accepted(s, config, class_id, token_id, calls),
        0 <= shorter < longer <= calls.len(),
    ensures
        bids_accepted(s, config, class_id, token_id, calls.take(shorter)),
        bids_accepted(s, config, class_id, token_id, calls.take(longer)),
        after_bids(s, config, class_id, token_id, calls.take(shorter)).sell_items[(class_id, token_id)].current_price
            < after_bids(s, config, class_id, token_id, calls.take(longer)).sell_items[(
            class_id,
            token_id,
        )].current_price,
    decreases calls.len(),
{
    let init = calls.drop_last();
    let call = calls.last();
    let cur = after_bids(s, config, class_id, token_id, init);
    lemma_bid_raises_price(cur, config, call.bidder, class_id, token_id, call.bid_price, call.now);
    assert(calls.take(calls.len() as int) =~= calls);
    if longer < calls.len() {
        assert(init.take(shorter) =~= calls.take(shorter));
        assert(init.take(longer) =~= calls.take(longer));
        lemma_bids_raise_price(s, config, class_id, token_id, init, shorter, longer);
    } else if shorter < calls.len() - 1 {
        assert(init.take(shorter) =~= calls.take(shorter));
        assert(init.take(init.len() as int) =~= init);
        lemma_bids_raise_price(s, config, class_id, token_id, init, shorter, calls.len() - 1);
    }
}

/// Opening an auction and cancelling it before any bid gives the token back to the
/// seller and leaves no listing for it; nothing else has changed.
pub proof fn lemma_open_then_cancel(
    s: State,
    config: Config,
    seller: AccountId,
    class_id: ClassId,
    token_id: TokenId,
    base_price: u64,
    delay_duration: u64,
    bid_duration: u64,
    now: u64,
)
    requires
        s.open(config, seller, class_id, token_id, base_price, delay_duration, bid_duration, now).result is Ok,
    ensures
        ({
            let opened = s.open(
                config,
                seller,
                class_id,
                token_id,
                base_price,
                delay_duration,
                bid_duration,
                now,
            ).state;
            let cancelled = opened.cancel(config, seller, class_id, token_id);
            &&& cancelled.result == Ok::<Event, DispatchError>(
                Event::Canceled(seller, class_id, token_id),
            )
            &&& cancelled.state.owners[(class_id, token_id)] == seller
            &&& !cancelled.state.sell_items.contains_key((class_id, token_id))
            &&& cancelled.state == (State { sell_items: s.sell_items.remove((class_id, token_id)), ..s })
        }),
{
}

/// Once a token has been claimed, claiming it again fails because the listing is
/// gone, whoever asks and whenever.
pub proof fn lemma_claim_only_once(
    s: State,
    config: Config,
    winner: AccountId,
    class_id: ClassId,
    token_id: TokenId,
    now: u64,
    again: AccountId,
    later: u64,
)
    requires
        s.claim(config, winner, class_id, token_id, now).result is Ok,
    ensures
        ({
            let claimed = s.claim(config, winner, class_id, token_id, now).state;
            claimed.claim(config, again, class_id, token_id, later) == refused(claimed, Error::SellItemNotExist)
        }),
{
}

/// Once a rental has been repaid, repaying it again fails because the listing is
/// gone, whoever asks and whenever.
pub proof fn lemma_repay_only_once(
    s: State,
    config: Config,
    renter: AccountId,
    class_id: ClassId,
    token_id: TokenId,
    now: u64,
    again: AccountId,
    later: u64,
)
    requires
        s.repay(config, renter, class_id, token_id, now).result is Ok,
    ensures
        ({
            let repaid = s.repay(config, renter, class_id, token_id, now).state;
            repaid.repay(config, again, class_id, token_id, later) == refused(repaid, Error::RentItemNotExist)
        }),
{
}

/// A bid that does not exceed the current price is refused as too low, even when
/// it equals the current price.
pub proof fn lemma_bid_must_exceed_price(
    s: State,
    config: Config,
    bidder: AccountId,
    class_id: ClassId,
    token_id: TokenId,
    bid_price: u64,
    now: u64,
)
    requires
        s.sell_items.contains_key((class_id, token_id)),
        bidder != s.sell_items[(class_id, token_id)].seller,
        s.sell_items[(class_id, token_id)].start_time <= now <= s.sell_items[(class_id, token_id)].end_time,
        bid_price <= s.sell_items[(class_id, token_id)].current_price,
    ensures
        s.bid(config, bidder, class_id, token_id, bid_price, now) == refused(s, Error::TooLowBidPrice),
{
}

/// The end of an auction's window still belongs to it: a bid placed exactly at the
/// end time is not refused for its time, while a claim at that time is refused
/// because the auction has not ended.
pub proof fn lemma_end_time_is_inclusive(
    s: State,
    config: Config,
    who: AccountId,
    class_id: ClassId,
    token_id: TokenId,
    bid_price: u64,
)
    requires
        s.sell_items.contains_key((class_id, token_id)),
        s.sell_items[(class_id, token_id)].start_time <= s.sell_items[(class_id, token_id)].end_time,
    ensures
        ({
            let item = s.sell_items[(class_id, token_id)];
            &&& s.bid(config, who, class_id, token_id, bid_price, item.end_time).result != Err::<
                Event,
                DispatchError,
            >(DispatchError::Marketplace(Error::NotInBidDuration))
            &&& who == item.current_winner ==> s.claim(config, who, class_id, token_id, item.end_time)
                == refused(s, Error::SellIsNotEnded)
        }),
{
}

/// A claim succeeds only after the end time, and a bid is refused for its time
/// exactly when it falls outside the window from start to end.
pub proof fn lemma_window_boundaries(
    s: State,
    config: Config,
    who: AccountId,
    class_id: ClassId,
    token_id: TokenId,
    bid_price: u64,
    now: u64,
)
    requires
        s.sell_items.contains_key((class_id, token_id)),
    ensures
        ({
            let item = s.sell_items[(class_id, token_id)];
            &&& s.claim(config, who, class_id, token_id, now).result is Ok ==> now > item.end_time
            &&& who != item.seller ==> (s.bid(config, who, class_id, token_id, bid_price, now) == refused(
                s,
                Error::NotInBidDuration,
            ) <==> !(item.start_time <= now <= item.end_time))
        }),
{
}

/// Whether every listing of `s` is in one of the shapes that listings are made in:
/// an auction ends after it starts; an offer that nobody has taken has no start and
/// names the leaser as its renter; a rental names a renter other than the leaser.
pub open spec fn listings_well_formed(s: State) -> bool {
    &&& forall|asset: (ClassId, TokenId)| #[trigger]
        s.sell_items.contains_key(asset) ==> s.sell_items[asset].start_time < s.sell_items[asset].end_time
    &&& forall|asset: (ClassId, TokenId)| #[trigger]
        s.rent_items.contains_key(asset) ==> {
            let item = s.rent_items[asset];
            if item.is_renting {
                item.renter != item.leaser
            } else {
                item.start_time == 0 && item.renter == item.leaser
            }
        }
}

/// Whatever is asked of the marketplace, by whom and when, well-formed listings
/// stay well-formed.
pub proof fn lemma_listings_stay_well_formed(s: State, config: Config, who: AccountId, call: Call, now: u64)
    requires
        listings_well_formed(s),
    ensures
        listings_well_formed(s.dispatch(config, who, call, now).state),
{
}

/// A rental that starts after the epoch records a positive start time.
pub proof fn lemma_rental_records_its_start(
    s: State,
    config: Config,
    renter: AccountId,
    class_id: ClassId,
    token_id: TokenId,
    now: u64,
)
    requires
        s.rent(config, renter, class_id, token_id, now).result is Ok,
        now > 0,
    ensures
        ({
            let item = s.rent(config, renter, class_id, token_id, now).state.rent_items[(class_id, token_id)];
            &&& item.is_renting
            &&& item.start_time == now
            &&& item.start_time > 0
            &&& item.renter == renter
        }),
{
}

/// Whether the escrow account has custody of what the listings of `s` say it has:
/// every token under auction and every token on offer that nobody has taken. A token
/// that is both under auction and listed for rent is rented out.
pub open spec fn escrow_holds_listed(s: State, config: Config) -> bool {
    &&& forall|asset: (ClassId, TokenId)| #[trigger]
        s.sell_items.contains_key(asset) ==> s.owners.contains_key(asset) && s.owners[asset]
            == config.custodian()
    &&& forall|asset: (ClassId, TokenId)| #[trigger]
        s.rent_items.contains_key(asset) ==> {
            ||| s.rent_items[asset].is_renting
            ||| !s.sell_items.contains_key(asset) && s.owners.contains_key(asset) && s.owners[asset]
                == config.custodian()
        }
}

/// As long as the escrow account itself asks for nothing, the escrow keeps custody
/// of every listed token, whatever the other accounts ask for.
pub proof fn lemma_escrow_keeps_listed(s: State, config: Config, who: AccountId, call: Call, now: u64)
    requires
        escrow_holds_listed(s, config),
        who != config.custodian(),
    ensures
        escrow_holds_listed(s.dispatch(config, who, call, now).state, config),
{
}

/// A transfer in the registry that the escrow account has not asked for leaves the
/// escrow in custody of every listed token.
pub proof fn lemma_outside_transfer_keeps_listed(
    s: State,
    config: Config,
    src: AccountId,
    dst: AccountId,
    asset: (ClassId, TokenId),
)
    requires
        escrow_holds_listed(s, config),
        src != config.custodian(),
        registry_transfer(s.owners, src, dst, asset) is Ok,
    ensures
        escrow_holds_listed(State { owners: registry_transfer(s.owners, src, dst, asset)->Ok_0, ..s }, config),
{
}

/// While the escrow has custody of the listed tokens, the registry never stands in
/// the way: a seller without bids can cancel, the winner can claim once the auction
/// is over, and the leaser of an untaken offer can withdraw it.
pub proof fn lemma_escrow_hands_over(s: State, config: Config, who: AccountId, class_id: ClassId, token_id: TokenId, now: u64)
    requires
        escrow_holds_listed(s, config),
    ensures
        ({
            let asset = (class_id, token_id);
            &&& s.sell_items.contains_key(asset) && who == s.sell_items[asset].seller && who
                == s.sell_items[asset].current_winner ==> s.cancel(config, who, class_id, token_id).result
                == Ok::<Event, DispatchError>(Event::Canceled(who, class_id, token_id))
            &&& s.sell_items.contains_key(asset) && who == s.sell_items[asset].current_winner && now
                > s.sell_items[asset].end_time ==> s.claim(config, who, class_id, token_id, now).result == Ok::<
                Event,
                DispatchError,
            >(Event::Closed(who, class_id, token_id))
            &&& s.rent_items.contains_key(asset) && !s.rent_items[asset].is_renting && who
                == s.rent_items[asset].leaser ==> s.cancel_rent(config, who, class_id, token_id).result == Ok::<
                Event,
                DispatchError,
            >(Event::RentCanceled(who, class_id, token_id))
        }),
{
}

/// An auction comes into being only by being opened: a listing that a call leaves
/// where there was none before is the fresh listing of the caller, who asked to
/// open it.
pub proof fn lemma_auction_starts_with_open(
    s: State,
    config: Config,
    who: AccountId,
    call: Call,
    now: u64,
    asset: (ClassId, TokenId),
)
    requires
        !s.sell_items.contains_key(asset),
        s.dispatch(config, who, call, now).state.sell_items.contains_key(asset),
    ensures
        call matches Call::OpenBid { class_id, token_id, base_price, delay_duration, bid_duration } && (
        class_id,
        token_id,
        ) == asset && s.dispatch(config, who, call, now).state.sell_items[asset] == (SellItem {
            seller: who,
            current_price: base_price,
            current_winner: who,
            start_time: (now + delay_duration) as u64,
            end_time: (now + delay_duration + bid_duration) as u64,
        }),
{
}

/// While the escrow has custody of the listed tokens and asks for nothing itself,
/// an auction changes only by bids and ends only by cancelling or claiming: its
/// seller and window stay, its price never falls, a change of price or leader is a
/// bid of the caller at a higher price, and it disappears only when its seller
/// cancels before any bid or its leader claims after the end.
pub proof fn lemma_auction_lifecycle(
    s: State,
    config: Config,
    who: AccountId,
    call: Call,
    now: u64,
    asset: (ClassId, TokenId),
)
    requires
        escrow_holds_listed(s, config),
        who != config.custodian(),
        s.sell_items.contains_key(asset),
    ensures
        ({
            let before = s.sell_items[asset];
            let after = s.dispatch(config, who, call, now).state;
            &&& after.sell_items.contains_key(asset) ==> {
                &&& after.sell_items[asset].seller == before.seller
                &&& after.sell_items[asset].start_time == before.start_time
                &&& after.sell_items[asset].end_time == before.end_time
                &&& after.sell_items[asset].current_price >= before.current_price
                &&& after.sell_items[asset] != before ==> {
                    &&& call matches Call::Bid { class_id, token_id, bid_price }
                    &&& (class_id, token_id) == asset
                    &&& after.sell_items[asset].current_winner == who
                    &&& after.sell_items[asset].current_price == bid_price
                    &&& bid_price > before.current_price
                    &&& before.start_time <= now <= before.end_time
                }
            }
            &&& !after.sell_items.contains_key(asset) ==> {
                ||| call == (Call::CancelBid { class_id: asset.0, token_id: asset.1 }) && who == before.seller
                    && who == before.current_winner
                ||| call == (Call::ClaimNft { class_id: asset.0, token_id: asset.1 }) && who
                    == before.current_winner && now > before.end_time
            }
        }),
{
}

/// A rent offer comes into being only by being offered: a listing that a call
/// leaves where there was none before is the untaken offer of the caller.
pub proof fn lemma_rental_starts_with_offer(
    s: State,
    config: Config,
    who: AccountId,
    call: Call,
    now: u64,
    asset: (ClassId, TokenId),
)
    requires
        !s.rent_items.contains_key(asset),
        s.dispatch(config, who, call, now).state.rent_items.contains_key(asset),
    ensures
        call matches Call::OfferRent { class_id, token_id, duration, collateral, price } && (class_id, token_id)
            == asset && s.dispatch(config, who, call, now).state.rent_items[asset] == (RentItem {
            leaser: who,
            renter: who,
            collateral,
            price,
            start_time: 0,
            duration,
            is_renting: false,
        }),
{
}

/// While the escrow has custody of the listed tokens and asks for nothing itself,
/// an untaken rent offer changes only by being rented, which keeps its terms, and
/// disappears only when its leaser withdraws it.
pub proof fn lemma_offer_lifecycle(
    s: State,
    config: Config,
    who: AccountId,
    call: Call,
    now: u64,
    asset: (ClassId, TokenId),
)
    requires
        escrow_holds_listed(s, config),
        who != config.custodian(),
        s.rent_items.contains_key(asset),
        !s.rent_items[asset].is_renting,
    ensures
        ({
            let before = s.rent_items[asset];
            let after = s.dispatch(config, who, call, now).state;
            &&& after.rent_items.contains_key(asset) && after.rent_items[asset] != before ==> {
                &&& call == (Call::Rent { class_id: asset.0, token_id: asset.1 })
                &&& who != before.leaser
                &&& after.rent_items[asset] == (RentItem {
                    renter: who,
                    start_time: now,
                    is_renting: true,
                    ..before
                })
            }
            &&& !after.rent_items.contains_key(asset) ==> {
                &&& call == (Call::CancelRent { class_id: asset.0, token_id: asset.1 })
                &&& who == before.leaser
            }
        }),
{
}

/// A running rental never changes. It disappears when its renter repays in time or
/// its leaser liquidates after the deadline; the one other way is that the holder
/// of the token offers it for rent anew, which replaces the listing.
pub proof fn lemma_rental_lifecycle(
    s: State,
    config: Config,
    who: AccountId,
    call: Call,
    now: u64,
    asset: (ClassId, TokenId),
)
    requires
        s.rent_items.contains_key(asset),
        s.rent_items[asset].is_renting,
    ensures
        ({
            let before = s.rent_items[asset];
            let after = s.dispatch(config, who, call, now).state;
            &&& after.rent_items.contains_key(asset) && after.rent_items[asset] != before ==> {
                &&& call matches Call::OfferRent { class_id, token_id, .. }
                &&& (class_id, token_id) == asset
                &&& s.owners.contains_key(asset) && s.owners[asset] == who
            }
            &&& !after.rent_items.contains_key(asset) ==> {
                ||| call == (Call::RepayRent { class_id: asset.0, token_id: asset.1 }) && who == before.renter
                    && !before.expired(now)
                ||| call == (Call::LiquidateRent { class_id: asset.0, token_id: asset.1 }) && who
                    == before.leaser && before.expired(now)
            }
        }),
{
}

/// What the escrow owes on `item`: its collateral, while it is rented out.
pub open spec fn owed_on(item: RentItem) -> nat {
    if item.is_renting {
        item.collateral as nat
    } else {
        0
    }
}

/// What the escrow owes on all of `items` together.
pub open spec fn collateral_owed(items: Map<(ClassId, TokenId), RentItem>) -> nat
    decreases items.dom().len(),
    when items.dom().finite()
{
    if items.dom().len() == 0 {
        0
    } else {
        let asset = items.dom().choose();
        owed_on(items[asset]) + collateral_owed(items.remove(asset))
    }
}

/// Whether the escrow holds at least the collateral of every running rental.
pub open spec fn escrow_covers_collateral(s: State, config: Config) -> bool {
    &&& s.rent_items.dom().finite()
    &&& s.balances[config.custodian()] >= collateral_owed(s.rent_items)
}

/// What is owed on all listings is what is owed on any one of them and on the rest.
pub proof fn lemma_owed_splits(items: Map<(ClassId, TokenId), RentItem>, asset: (ClassId, TokenId))
    requires
        items.dom().finite(),
        items.contains_key(asset),
    ensures
        collateral_owed(items) == owed_on(items[asset]) + collateral_owed(items.remove(asset)),
    decreases items.dom().len(),
{
    let chosen = items.dom().choose();
    if chosen != asset {
        lemma_owed_splits(items.remove(chosen), asset);
        lemma_owed_splits(items.remove(asset), chosen);
        assert(items.remove(chosen).remove(asset) =~= items.remove(asset).remove(chosen));
    }
}

/// Listing `item` for `asset` changes what is owed by what is owed on `item`, less
/// what was owed on the listing it replaces.
pub proof fn lemma_owed_after_insert(
    items: Map<(ClassId, TokenId), RentItem>,
    asset: (ClassId, TokenId),
    item: RentItem,
)
    requires
        items.dom().finite(),
    ensures
        collateral_owed(items.insert(asset, item)) == collateral_owed(items.remove(asset)) + owed_on(item),
        items.contains_key(asset) ==> collateral_owed(items) == collateral_owed(items.remove(asset)) + owed_on(
            items[asset],
        ),
        !items.contains_key(asset) ==> collateral_owed(items) == collateral_owed(items.remove(asset)),
{
    lemma_owed_splits(items.insert(asset, item), asset);
    assert(items.insert(asset, item).remove(asset) =~= items.remove(asset));
    if items.contains_key(asset) {
        lemma_owed_splits(items, asset);
    } else {
        assert(items.remove(asset) =~= items);
    }
}

/// As long as the escrow account itself asks for nothing, the escrow holds at least
/// the collateral of every running rental, whatever the other accounts ask for.
pub proof fn lemma_escrow_stays_funded(s: State, config: Config, who: AccountId, call: Call, now: u64)
    requires
        s.balances.dom() == Set::<AccountId>::full(),
        escrow_covers_collateral(s, config),
        who != config.custodian(),
    ensures
        escrow_covers_collateral(s.dispatch(config, who, call, now).state, config),
{
    let after = s.dispatch(config, who, call, now);
    if after.result is Ok {
        match call {
            Call::OfferRent { class_id, token_id, .. } => {
                lemma_owed_after_insert(s.rent_items, (class_id, token_id), after.state.rent_items[(class_id, token_id)]);
            },
            Call::Rent { class_id, token_id } => {
                lemma_owed_after_insert(s.rent_items, (class_id, token_id), after.state.rent_items[(class_id, token_id)]);
            },
            Call::CancelRent { class_id, token_id } => {
                lemma_owed_splits(s.rent_items, (class_id, token_id));
            },
            Call::RepayRent { class_id, token_id } => {
                lemma_owed_splits(s.rent_items, (class_id, token_id));
            },
            Call::LiquidateRent { class_id, token_id } => {
                lemma_owed_splits(s.rent_items, (class_id, token_id));
            },
            _ => {},
        }
    }
}

/// While the escrow holds the collateral of every running rental, no rental ends
/// for want of it: neither repaying nor liquidating fails because the escrow is
/// short.
pub proof fn lemma_collateral_is_at_hand(
    s: State,
    config: Config,
    who: AccountId,
    class_id: ClassId,
    token_id: TokenId,
    now: u64,
)
    requires
        escrow_covers_collateral(s, config),
    ensures
        s.rent_items.contains_key((class_id, token_id)) && s.rent_items[(class_id, token_id)].is_renting
            ==> s.balances[config.custodian()] >= s.rent_items[(class_id, token_id)].collateral,
        s.repay(config, who, class_id, token_id, now).result != Err::<Event, DispatchError>(
            DispatchError::Ft(crate::ft::Error::InsufficientBalance),
        ),
        s.liquidate(config, who, class_id, token_id, now).result != Err::<Event, DispatchError>(
            DispatchError::Ft(crate::ft::Error::InsufficientBalance),
        ),
{
    if s.rent_items.contains_key((class_id, token_id)) {
        lemma_owed_splits(s.rent_items, (class_id, token_id));
    }
}

/// A marketplace without listings is in order: its listings are well-formed, the
/// escrow has custody of all that is listed, and it covers all collateral.
pub proof fn lemma_without_listings_all_is_in_order(s: State, config: Config)
    requires
        s.sell_items == Map::<(ClassId, TokenId), SellItem>::empty(),
        s.rent_items == Map::<(ClassId, TokenId), RentItem>::empty(),
    ensures
        listings_well_formed(s),
        escrow_holds_listed(s, config),
        escrow_covers_collateral(s, config),
{
}

/// A transfer on the ledger neither creates nor destroys value: what the source
/// loses the destination gains, and nobody else is touched.
pub proof fn lemma_transfer_conserves(balances: Map<AccountId, u64>, src: AccountId, dst: AccountId, amount: u64)
    requires
        balances.dom() == Set::<AccountId>::full(),
        ledger_transfer(balances, src, dst, amount) is Ok,
    ensures
        ({
            let after = ledger_transfer(balances, src, dst, amount)->Ok_0;
            &&& after.dom() == Set::<AccountId>::full()
            &&& src == dst ==> after == balances
            &&& src != dst ==> after[src] == balances[src] - amount && after[dst] == balances[dst] + amount
            &&& forall|who: AccountId| who != src && who != dst ==> after[who] == balances[who]
        }),
{
}

/// No auction leaves money with the escrow: a bid in which the escrow account is
/// neither bidder, seller nor leader does not change what the escrow holds.
pub proof fn lemma_bid_bypasses_escrow(
    s: State,
    config: Config,
    bidder: AccountId,
    class_id: ClassId,
    token_id: TokenId,
    bid_price: u64,
    now: u64,
)
    requires
        s.sell_items.contains_key((class_id, token_id)),
        bidder != config.custodian(),
        s.sell_items[(class_id, token_id)].seller != config.custodian(),
        s.sell_items[(class_id, token_id)].current_winner != config.custodian(),
    ensures
        s.bid(config, bidder, class_id, token_id, bid_price, now).state.balances[config.custodian()]
            == s.balances[config.custodian()],
{
}

/// Renting a token and repaying in time costs the renter the price and nothing
/// else: the collateral comes back in full, the leaser has the price and the token,
/// the escrow holds what it held before, and the listing is gone.
pub proof fn lemma_rent_then_repay(
    s: State,
    config: Config,
    renter: AccountId,
    class_id: ClassId,
    token_id: TokenId,
    now: u64,
    later: u64,
)
    requires
        s.balances.dom() == Set::<AccountId>::full(),
        renter != config.custodian(),
        s.rent(config, renter, class_id, token_id, now).result is Ok,
        later <= now + s.rent_items[(class_id, token_id)].duration,
    ensures
        ({
            let asset = (class_id, token_id);
            let item = s.rent_items[asset];
            let repaid = s.rent(config, renter, class_id, token_id, now).state.repay(
                config,
                renter,
                class_id,
                token_id,
                later,
            );
            &&& repaid.result == Ok::<Event, DispatchError>(Event::Repaid(renter, class_id, token_id))
            &&& repaid.state.owners == s.owners.insert(asset, item.leaser)
            &&& repaid.state.rent_items == s.rent_items.remove(asset)
            &&& repaid.state.sell_items == s.sell_items
            &&& repaid.state.balances[renter] == s.balances[renter] - item.price
            &&& repaid.state.balances[item.leaser] == s.balances[item.leaser] + item.price
            &&& forall|who: AccountId|
                who != renter && who != item.leaser ==> repaid.state.balances[who] == s.balances[who]
        }),
{
}

/// Renting a token and letting the rental run out costs the renter the price and
/// the collateral, both of which end with the leaser, and leaves the token with the
/// renter; the escrow holds what it held before, and the listing is gone.
pub proof fn lemma_rent_then_liquidate(
    s: State,
    config: Config,
    renter: AccountId,
    class_id: ClassId,
    token_id: TokenId,
    now: u64,
    later: u64,
)
    requires
        s.balances.dom() == Set::<AccountId>::full(),
        renter != config.custodian(),
        s.rent_items[(class_id, token_id)].leaser != config.custodian(),
        s.rent(config, renter, class_id, token_id, now).result is Ok,
        later > now + s.rent_items[(class_id, token_id)].duration,
        s.balances[s.rent_items[(class_id, token_id)].leaser] + s.rent_items[(class_id, token_id)].price
            + s.rent_items[(class_id, token_id)].collateral <= u64::MAX,
    ensures
        ({
            let asset = (class_id, token_id);
            let item = s.rent_items[asset];
            let rented = s.rent(config, renter, class_id, token_id, now).state;
            let liquidated = rented.liquidate(config, item.leaser, class_id, token_id, later);
            &&& rented.repay(config, renter, class_id, token_id, later) == refused(rented, Error::RentIsExpired)
            &&& liquidated.result == Ok::<Event, DispatchError>(
                Event::Liquidated(item.leaser, class_id, token_id, renter),
            )
            &&& liquidated.state.owners == s.owners.insert(asset, renter)
            &&& liquidated.state.rent_items == s.rent_items.remove(asset)
            &&& liquidated.state.sell_items == s.sell_items
            &&& liquidated.state.balances[renter] == s.balances[renter] - item.price - item.collateral
            &&& liquidated.state.balances[item.leaser] == s.balances[item.leaser] + item.price + item.collateral
            &&& forall|who: AccountId|
                who != renter && who != item.leaser ==> liquidated.state.balances[who] == s.balances[who]
        }),
{
}

} // verus!

use nft_marketplace::ft;
use nft_marketplace::nft;
use nft_marketplace::marketplace::model::Call;
use nft_marketplace::marketplace::{Config, Error, Event, Pallet, RentItem, SellItem};
use nft_marketplace::primitives::{AccountId, DispatchError, Origin};

type Market = Pallet<ft::Pallet, nft::Pallet<(), ()>>;

const SELLER: AccountId = 1;
const B1: AccountId = 2;
const B2: AccountId = 3;
const RENTER: AccountId = 4;
const PAUPER: AccountId = 5;
const T: u64 = 1_000_000;

fn config() -> Config {
    Config {
        max_bid_duration: 10_000,
        min_bid_duration: 10,
        min_base_price: 10,
        max_base_price: 10_000,
        min_rent_price: 5,
        max_rent_price: 500,
        min_collateral: 20,
        max_collateral: 2_000,
        min_rent_duration: 100,
        max_rent_duration: 100_000,
        pallet_id: *b"py/nftmk",
    }
}

fn custodian() -> AccountId {
    market().pallet_account_id()
}

fn market() -> Market {
    let ft = ft::GenesisConfig {
        balances: vec![(SELLER, 1_000), (B1, 1_000), (B2, 1_000), (RENTER, 1_000), (PAUPER, 60)],
    }
    .build();
    let nft = nft::GenesisConfig {
        classes: vec![
            (SELLER, vec![1], (), vec![(SELLER, vec![1], ()), (SELLER, vec![2], ()), (B1, vec![3], ())]),
        ],
    }
    .build(nft::Config { max_class_metadata: 8, max_token_metadata: 8 });
    Pallet::new(config(), ft, nft)
}

fn opened() -> Market {
    let mut m = market();
    assert_eq!(m.do_open(&SELLER, 0, 0, 100, 0, 100, T), Ok(Event::Opened(SELLER, 0, 0, 100)));
    m
}

fn offered() -> Market {
    let mut m = market();
    assert_eq!(m.do_offer(&SELLER, 0, 0, 1000, 50, 20), Ok(Event::Offered(SELLER, 0, 0)));
    m
}

fn rented() -> Market {
    let mut m = offered();
    assert_eq!(m.do_rent(&RENTER, 0, 0, T + 5), Ok(Event::Rented(RENTER, 0, 0)));
    m
}

fn refused<V>(e: Error) -> Result<V, DispatchError> {
    Err(DispatchError::Marketplace(e))
}

#[test]
fn escrow_account_derives_from_the_pallet_id() {
    assert_eq!(custodian(), 0x6e2f_7970_6c64_6f6d);
    let other = Pallet::new(Config { pallet_id: *b"\x01\x02\x03\x04zzzz", ..config() }, ft::Pallet::new(), nft::Pallet::<(), ()>::new(nft::Config { max_class_metadata: 0, max_token_metadata: 0 }));
    assert_eq!(other.pallet_account_id(), 0x0403_0201_6c64_6f6d);
}

#[test]
fn open_puts_the_token_in_escrow_and_lists_it() {
    let mut m = market();
    assert_eq!(m.open_bid(Origin::signed(SELLER), 0, 0, 100, 7, 100, T), Ok(Event::Opened(SELLER, 0, 0, 100)));
    assert_eq!(
        m.sell_item(0, 0),
        Some(SellItem { seller: SELLER, current_price: 100, current_winner: SELLER, start_time: T + 7, end_time: T + 107 })
    );
    assert!(m.nft.is_owner_of(&custodian(), 0, 0));
    assert!(!m.nft.is_owner_of(&SELLER, 0, 0));
    assert_eq!(m.sell_item(0, 1), None);
    assert_eq!(m.ft.balance(&SELLER), 1_000);
}

#[test]
fn open_checks_the_base_price_bounds() {
    let mut m = market();
    assert_eq!(m.do_open(&SELLER, 0, 0, 9, 0, 100, T), refused(Error::InvalidBasePrice));
    assert_eq!(m.do_open(&SELLER, 0, 0, 10_001, 0, 100, T), refused(Error::InvalidBasePrice));
    assert_eq!(m.sell_item(0, 0), None);
    assert!(m.nft.is_owner_of(&SELLER, 0, 0));
    assert!(m.do_open(&SELLER, 0, 0, 10, 0, 100, T).is_ok());
    assert!(m.do_open(&SELLER, 0, 1, 10_000, 0, 100, T).is_ok());
}

#[test]
fn open_checks_the_bid_window() {
    let mut m = market();
    assert_eq!(m.do_open(&SELLER, 0, 0, 100, 0, 9, T), refused(Error::InvalidBidTime));
    assert_eq!(m.do_open(&SELLER, 0, 0, 100, 0, 10_001, T), refused(Error::InvalidBidTime));
    assert_eq!(m.do_open(&SELLER, 0, 0, 100, 0, 0, T), refused(Error::InvalidBidTime));
    assert_eq!(m.do_open(&SELLER, 0, 0, 100, u64::MAX, 100, T), refused(Error::InvalidBidTime));
    assert_eq!(m.do_open(&SELLER, 0, 0, 100, u64::MAX - T - 99, 100, T), refused(Error::InvalidBidTime));
    assert_eq!(m.sell_item(0, 0), None);
    assert!(m.nft.is_owner_of(&SELLER, 0, 0));
    assert!(m.do_open(&SELLER, 0, 0, 100, u64::MAX - T - 100, 100, T).is_ok());
    assert_eq!(m.sell_item(0, 0).unwrap().end_time, u64::MAX);
    assert!(m.do_open(&SELLER, 0, 1, 100, 0, 10, T).is_ok());
}

#[test]
fn open_with_zero_minimum_still_needs_a_positive_window() {
    let ft = ft::Pallet::new();
    let nft = nft::GenesisConfig {
        classes: vec![(SELLER, vec![], (), vec![(SELLER, vec![], ())])],
    }
    .build(nft::Config { max_class_metadata: 8, max_token_metadata: 8 });
    let mut m = Pallet::new(Config { min_bid_duration: 0, ..config() }, ft, nft);
    assert_eq!(m.do_open(&SELLER, 0, 0, 100, 5, 0, T), refused(Error::InvalidBidTime));
    assert!(m.do_open(&SELLER, 0, 0, 100, 5, 1, T).is_ok());
}

#[test]
fn only_the_owner_can_open() {
    let mut m = market();
    assert_eq!(m.do_open(&B1, 0, 0, 100, 0, 100, T), refused(Error::OnlyOwnerCanSellNFT));
    assert_eq!(m.do_open(&SELLER, 0, 9, 100, 0, 100, T), refused(Error::OnlyOwnerCanSellNFT));
    assert_eq!(m.do_open(&B1, 0, 0, 1, 0, 100, T), refused(Error::InvalidBasePrice));
    assert_eq!(m.do_open(&B1, 0, 0, 100, 0, 1, T), refused(Error::InvalidBidTime));
    assert_eq!(m.sell_item(0, 0), None);
}

#[test]
fn open_then_cancel_returns_the_token_and_removes_the_listing() {
    let mut m = opened();
    assert_eq!(m.cancel_bid(Origin::signed(SELLER), 0, 0), Ok(Event::Canceled(SELLER, 0, 0)));
    assert!(m.nft.is_owner_of(&SELLER, 0, 0));
    assert_eq!(m.sell_item(0, 0), None);
    assert_eq!(m.ft.balance(&SELLER), 1_000);
    assert_eq!(m.do_cancel(&SELLER, 0, 0), refused(Error::SellItemNotExist));
}

#[test]
fn cancel_is_for_the_seller_and_only_before_any_bid() {
    let mut m = opened();
    assert_eq!(m.do_cancel(&B1, 0, 0), refused(Error::OnlyOwnerCanCancel));
    assert_eq!(m.do_cancel(&SELLER, 0, 1), refused(Error::SellItemNotExist));
    assert!(m.do_bid(&B1, 0, 0, 150, T).is_ok());
    assert_eq!(m.do_cancel(&SELLER, 0, 0), refused(Error::CannotCancel));
    assert_eq!(m.do_cancel(&B1, 0, 0), refused(Error::OnlyOwnerCanCancel));
    assert!(m.sell_item(0, 0).is_some());
    assert!(m.nft.is_owner_of(&custodian(), 0, 0));
}

#[test]
fn auction_runs_from_open_over_two_bids_to_claim() {
    let mut m = opened();
    assert_eq!(m.bid(Origin::signed(B1), 0, 0, 150, T + 10), Ok(Event::Bid(B1, 0, 0, 150)));
    assert_eq!(m.ft.balance(&SELLER), 1_150);
    assert_eq!(m.ft.balance(&B1), 850);
    assert_eq!(m.sell_item(0, 0).unwrap().current_winner, B1);
    assert_eq!(m.sell_item(0, 0).unwrap().current_price, 150);

    assert_eq!(m.bid(Origin::signed(B2), 0, 0, 200, T + 20), Ok(Event::Bid(B2, 0, 0, 200)));
    assert_eq!(m.ft.balance(&SELLER), 1_200);
    assert_eq!(m.ft.balance(&B1), 1_000);
    assert_eq!(m.ft.balance(&B2), 800);
    assert_eq!(m.sell_item(0, 0).unwrap().current_winner, B2);
    assert_eq!(m.sell_item(0, 0).unwrap().current_price, 200);
    assert_eq!(m.ft.balance(&custodian()), 0);

    assert_eq!(m.claim_nft(Origin::signed(B2), 0, 0, T + 99), refused(Error::SellIsNotEnded));
    assert_eq!(m.claim_nft(Origin::signed(B2), 0, 0, T + 100), refused(Error::SellIsNotEnded));
    assert!(m.sell_item(0, 0).is_some());
    assert!(m.nft.is_owner_of(&custodian(), 0, 0));

    assert_eq!(m.claim_nft(Origin::signed(B2), 0, 0, T + 101), Ok(Event::Closed(B2, 0, 0)));
    assert!(m.nft.is_owner_of(&B2, 0, 0));
    assert_eq!(m.sell_item(0, 0), None);
    assert_eq!(m.ft.balance(&SELLER), 1_200);
    assert_eq!(m.ft.balance(&B2), 800);
    assert_eq!(m.ft.total_supply(), 4_060);
}

#[test]
fn second_claim_finds_no_listing() {
    let mut m = opened();
    assert!(m.do_bid(&B1, 0, 0, 150, T + 1).is_ok());
    assert!(m.do_claim(&B1, 0, 0, T + 101).is_ok());
    assert_eq!(m.do_claim(&B1, 0, 0, T + 102), refused(Error::SellItemNotExist));
    assert_eq!(m.do_claim(&SELLER, 0, 0, T + 102), refused(Error::SellItemNotExist));
    assert!(m.nft.is_owner_of(&B1, 0, 0));
}

#[test]
fn seller_claims_an_auction_without_bids() {
    let mut m = opened();
    assert_eq!(m.do_claim(&B1, 0, 0, T + 101), refused(Error::OnlyWinnerCanClaim));
    assert_eq!(m.do_claim(&SELLER, 0, 0, T + 101), Ok(Event::Closed(SELLER, 0, 0)));
    assert!(m.nft.is_owner_of(&SELLER, 0, 0));
}

#[test]
fn bid_must_exceed_the_current_price() {
    let mut m = opened();
    assert_eq!(m.do_bid(&B1, 0, 0, 100, T + 1), refused(Error::TooLowBidPrice));
    assert_eq!(m.do_bid(&B1, 0, 0, 99, T + 1), refused(Error::TooLowBidPrice));
    assert_eq!(m.do_bid(&B1, 0, 0, 101, T + 1), Ok(Event::Bid(B1, 0, 0, 101)));
    assert_eq!(m.do_bid(&B2, 0, 0, 101, T + 2), refused(Error::TooLowBidPrice));
    assert_eq!(m.ft.balance(&B1), 899);
    assert_eq!(m.ft.balance(&B2), 1_000);
    assert_eq!(m.sell_item(0, 0).unwrap().current_winner, B1);
}

#[test]
fn bid_window_includes_both_ends() {
    let mut m = market();
    assert!(m.do_open(&SELLER, 0, 0, 100, 50, 100, T).is_ok());
    assert_eq!(m.do_bid(&B1, 0, 0, 150, T + 49), refused(Error::NotInBidDuration));
    assert_eq!(m.do_bid(&B1, 0, 0, 150, T + 151), refused(Error::NotInBidDuration));
    assert_eq!(m.ft.balance(&B1), 1_000);
    assert_eq!(m.do_bid(&B1, 0, 0, 150, T + 50), Ok(Event::Bid(B1, 0, 0, 150)));
    assert_eq!(m.do_bid(&B2, 0, 0, 160, T + 150), Ok(Event::Bid(B2, 0, 0, 160)));
    assert_eq!(m.do_claim(&B2, 0, 0, T + 150), refused(Error::SellIsNotEnded));
    assert_eq!(m.do_claim(&B2, 0, 0, T + 151), Ok(Event::Closed(B2, 0, 0)));
}

#[test]
fn bid_is_refused_for_the_seller_and_without_listing() {
    let mut m = opened();
    assert_eq!(m.do_bid(&SELLER, 0, 0, 150, T + 1), refused(Error::OwnerCannotBid));
    assert_eq!(m.do_bid(&B1, 0, 1, 150, T + 1), refused(Error::SellItemNotExist));
    assert_eq!(m.do_bid(&SELLER, 0, 0, 150, T + 500), refused(Error::OwnerCannotBid));
    assert_eq!(m.do_bid(&B1, 0, 0, 50, T + 500), refused(Error::NotInBidDuration));
}

#[test]
fn leader_raising_the_own_bid_pays_only_the_raise() {
    let mut m = opened();
    assert!(m.do_bid(&B1, 0, 0, 150, T + 1).is_ok());
    assert_eq!(m.do_bid(&B1, 0, 0, 180, T + 2), Ok(Event::Bid(B1, 0, 0, 180)));
    assert_eq!(m.ft.balance(&B1), 820);
    assert_eq!(m.ft.balance(&SELLER), 1_180);
    assert_eq!(m.sell_item(0, 0).unwrap().current_price, 180);
}

#[test]
fn bid_without_funds_leaves_everything_as_it_was() {
    let mut m = opened();
    assert_eq!(m.do_bid(&PAUPER, 0, 0, 150, T + 1), Err(DispatchError::Ft(ft::Error::InsufficientBalance)));
    assert_eq!(m.ft.balance(&PAUPER), 60);
    assert_eq!(m.ft.balance(&SELLER), 1_000);
    assert_eq!(m.sell_item(0, 0).unwrap().current_winner, SELLER);
    assert_eq!(m.sell_item(0, 0).unwrap().current_price, 100);
}

#[test]
fn bid_whose_raise_cannot_be_paid_is_refused() {
    let mut m = opened();
    assert!(m.do_bid(&B1, 0, 0, 150, T + 1).is_ok());
    assert_eq!(m.do_bid(&PAUPER, 0, 0, 211, T + 2), Err(DispatchError::Ft(ft::Error::InsufficientBalance)));
    assert_eq!(m.ft.balance(&PAUPER), 60);
    assert_eq!(m.ft.balance(&SELLER), 1_150);
    assert_eq!(m.ft.balance(&B1), 850);
}

#[test]
fn bid_whose_refund_fails_takes_the_raise_back() {
    let mut m = opened();
    assert!(m.do_bid(&B1, 0, 0, 150, T + 1).is_ok());
    assert_eq!(m.do_bid(&PAUPER, 0, 0, 200, T + 2), Err(DispatchError::Ft(ft::Error::InsufficientBalance)));
    assert_eq!(m.ft.balance(&PAUPER), 60);
    assert_eq!(m.ft.balance(&SELLER), 1_150);
    assert_eq!(m.ft.balance(&B1), 850);
    assert_eq!(m.sell_item(0, 0).unwrap().current_winner, B1);
    assert_eq!(m.sell_item(0, 0).unwrap().current_price, 150);

    m.ft.balances.insert(B1, u64::MAX - 100);
    assert_eq!(m.do_bid(&B2, 0, 0, 200, T + 3), Err(DispatchError::Ft(ft::Error::Overflow)));
    assert_eq!(m.ft.balance(&B2), 1_000);
    assert_eq!(m.ft.balance(&SELLER), 1_150);
    assert_eq!(m.ft.balance(&B1), u64::MAX - 100);
    assert_eq!(m.sell_item(0, 0).unwrap().current_winner, B1);
}

#[test]
fn offer_puts_the_token_in_escrow_and_lists_it_unrented() {
    let mut m = market();
    assert_eq!(m.offer_rent(Origin::signed(SELLER), 0, 0, 1000, 50, 20), Ok(Event::Offered(SELLER, 0, 0)));
    assert_eq!(
        m.rent_item(0, 0),
        Some(RentItem {
            leaser: SELLER,
            renter: SELLER,
            collateral: 50,
            price: 20,
            start_time: 0,
            duration: 1000,
            is_renting: false,
        })
    );
    assert!(m.nft.is_owner_of(&custodian(), 0, 0));
    assert_eq!(m.rent_item(0, 1), None);
}

#[test]
fn offer_checks_price_duration_and_collateral_in_that_order() {
    let mut m = market();
    assert_eq!(m.do_offer(&SELLER, 0, 0, 1, 1, 4), refused(Error::InvalidRentPrice));
    assert_eq!(m.do_offer(&SELLER, 0, 0, 1000, 50, 501), refused(Error::InvalidRentPrice));
    assert_eq!(m.do_offer(&SELLER, 0, 0, 99, 1, 5), refused(Error::InvalidRentDuration));
    assert_eq!(m.do_offer(&SELLER, 0, 0, 100_001, 50, 500), refused(Error::InvalidRentDuration));
    assert_eq!(m.do_offer(&SELLER, 0, 0, 100, 19, 5), refused(Error::InvalidRentCollateral));
    assert_eq!(m.do_offer(&SELLER, 0, 0, 100_000, 2_001, 500), refused(Error::InvalidRentCollateral));
    assert_eq!(m.do_offer(&B1, 0, 0, 100, 20, 5), refused(Error::OnlyOwnerCanOffer));
    assert_eq!(m.do_offer(&SELLER, 0, 9, 100, 20, 5), refused(Error::OnlyOwnerCanOffer));
    assert_eq!(m.rent_item(0, 0), None);
    assert!(m.nft.is_owner_of(&SELLER, 0, 0));
    assert!(m.do_offer(&SELLER, 0, 0, 100, 20, 5).is_ok());
    assert!(m.do_offer(&SELLER, 0, 1, 100_000, 2_000, 500).is_ok());
}

#[test]
fn offer_then_cancel_returns_the_token() {
    let mut m = offered();
    assert_eq!(m.do_cancel_rent(&B1, 0, 0), refused(Error::OnlyOwnerCanCancelRent));
    assert_eq!(m.do_cancel_rent(&SELLER, 0, 1), refused(Error::RentItemNotExist));
    assert_eq!(m.cancel_rent(Origin::signed(SELLER), 0, 0), Ok(Event::RentCanceled(SELLER, 0, 0)));
    assert!(m.nft.is_owner_of(&SELLER, 0, 0));
    assert_eq!(m.rent_item(0, 0), None);
    assert_eq!(m.do_cancel_rent(&SELLER, 0, 0), refused(Error::RentItemNotExist));
}

#[test]
fn rental_runs_from_offer_over_rent_to_repay() {
    let mut m = offered();
    assert_eq!(m.rent(Origin::signed(RENTER), 0, 0, T + 5), Ok(Event::Rented(RENTER, 0, 0)));
    assert_eq!(m.ft.balance(&RENTER), 930);
    assert_eq!(m.ft.balance(&custodian()), 50);
    assert_eq!(m.ft.balance(&SELLER), 1_020);
    assert!(m.nft.is_owner_of(&RENTER, 0, 0));
    assert_eq!(
        m.rent_item(0, 0),
        Some(RentItem {
            leaser: SELLER,
            renter: RENTER,
            collateral: 50,
            price: 20,
            start_time: T + 5,
            duration: 1000,
            is_renting: true,
        })
    );

    assert_eq!(m.repay_rent(Origin::signed(RENTER), 0, 0, T + 5 + 999), Ok(Event::Repaid(RENTER, 0, 0)));
    assert!(m.nft.is_owner_of(&SELLER, 0, 0));
    assert_eq!(m.ft.balance(&RENTER), 980);
    assert_eq!(m.ft.balance(&custodian()), 0);
    assert_eq!(m.ft.balance(&SELLER), 1_020);
    assert_eq!(m.rent_item(0, 0), None);
    assert_eq!(m.do_repay(&RENTER, 0, 0, T + 5 + 999), refused(Error::RentItemNotExist));
    assert_eq!(m.do_rent(&RENTER, 0, 0, T + 2_000), refused(Error::RentItemNotExist));
}

#[test]
fn rental_that_runs_out_is_liquidated() {
    let mut m = rented();
    assert_eq!(m.repay_rent(Origin::signed(RENTER), 0, 0, T + 5 + 1001), refused(Error::RentIsExpired));
    assert!(m.nft.is_owner_of(&RENTER, 0, 0));
    assert_eq!(m.ft.balance(&RENTER), 930);
    assert!(m.rent_item(0, 0).is_some());

    assert_eq!(
        m.liquidate_rent(Origin::signed(SELLER), 0, 0, T + 5 + 1001),
        Ok(Event::Liquidated(SELLER, 0, 0, RENTER))
    );
    assert_eq!(m.ft.balance(&SELLER), 1_070);
    assert_eq!(m.ft.balance(&custodian()), 0);
    assert_eq!(m.ft.balance(&RENTER), 930);
    assert_eq!(m.rent_item(0, 0), None);
    assert!(m.nft.is_owner_of(&RENTER, 0, 0));
    assert_eq!(m.do_liquidate(&SELLER, 0, 0, T + 5 + 1002), refused(Error::RentItemNotExist));
    assert_eq!(m.do_repay(&RENTER, 0, 0, T + 5 + 1), refused(Error::RentItemNotExist));
}

#[test]
fn rental_deadline_itself_is_still_in_time() {
    let mut m = rented();
    assert_eq!(m.do_liquidate(&SELLER, 0, 0, T + 5 + 999), refused(Error::RentIsNotExpired));
    assert_eq!(m.do_liquidate(&SELLER, 0, 0, T + 5 + 1000), refused(Error::RentIsNotExpired));
    assert_eq!(m.ft.balance(&SELLER), 1_020);
    assert_eq!(m.do_repay(&RENTER, 0, 0, T + 5 + 1000), Ok(Event::Repaid(RENTER, 0, 0)));
}

#[test]
fn rental_whose_deadline_exceeds_the_clock_never_runs_out() {
    let mut m = market();
    assert!(m.do_offer(&SELLER, 0, 0, 100_000, 50, 20).is_ok());
    assert!(m.do_rent(&RENTER, 0, 0, u64::MAX - 10).is_ok());
    assert_eq!(m.do_liquidate(&SELLER, 0, 0, u64::MAX), refused(Error::RentIsNotExpired));
    assert_eq!(m.do_repay(&RENTER, 0, 0, u64::MAX), Ok(Event::Repaid(RENTER, 0, 0)));
}

#[test]
fn rent_is_refused_for_the_leaser_and_while_rented() {
    let mut m = offered();
    assert_eq!(m.do_rent(&SELLER, 0, 0, T), refused(Error::RenterMustNotBeLeaser));
    assert_eq!(m.do_rent(&RENTER, 0, 1, T), refused(Error::RentItemNotExist));
    assert!(m.do_rent(&RENTER, 0, 0, T).is_ok());
    assert_eq!(m.do_rent(&B1, 0, 0, T + 1), refused(Error::ItemIsRenting));
    assert_eq!(m.do_rent(&SELLER, 0, 0, T + 1), refused(Error::ItemIsRenting));
    assert_eq!(m.do_cancel_rent(&SELLER, 0, 0), refused(Error::ItemIsRenting));
    assert_eq!(m.do_cancel_rent(&B1, 0, 0), refused(Error::ItemIsRenting));
    assert_eq!(m.ft.balance(&B1), 1_000);
}

#[test]
fn repay_and_liquidate_check_state_and_caller() {
    let mut m = offered();
    assert_eq!(m.do_repay(&SELLER, 0, 0, T), refused(Error::ItemIsNotRenting));
    assert_eq!(m.do_liquidate(&SELLER, 0, 0, T), refused(Error::ItemIsNotRenting));
    assert_eq!(m.do_repay(&RENTER, 0, 1, T), refused(Error::RentItemNotExist));
    assert_eq!(m.do_liquidate(&SELLER, 0, 1, T), refused(Error::RentItemNotExist));
    assert!(m.do_rent(&RENTER, 0, 0, T + 5).is_ok());
    assert_eq!(m.do_repay(&B1, 0, 0, T + 6), refused(Error::OnlyRenterCanRepay));
    assert_eq!(m.do_repay(&SELLER, 0, 0, T + 6), refused(Error::OnlyRenterCanRepay));
    assert_eq!(m.do_liquidate(&RENTER, 0, 0, T + 5_000), refused(Error::OnlyLeaserCanLiquidate));
    assert_eq!(m.do_liquidate(&B1, 0, 0, T + 5), refused(Error::OnlyLeaserCanLiquidate));
    assert!(m.rent_item(0, 0).unwrap().is_renting);
}

#[test]
fn rent_without_funds_leaves_everything_as_it_was() {
    let mut m = offered();
    m.ft.balances.insert(PAUPER, 49);
    assert_eq!(m.do_rent(&PAUPER, 0, 0, T), Err(DispatchError::Ft(ft::Error::InsufficientBalance)));
    assert_eq!(m.ft.balance(&PAUPER), 49);
    m.ft.balances.insert(PAUPER, 69);
    assert_eq!(m.do_rent(&PAUPER, 0, 0, T), Err(DispatchError::Ft(ft::Error::InsufficientBalance)));
    assert_eq!(m.ft.balance(&PAUPER), 69);
    assert_eq!(m.ft.balance(&custodian()), 0);
    assert_eq!(m.ft.balance(&SELLER), 1_000);
    assert!(!m.rent_item(0, 0).unwrap().is_renting);
    assert!(m.nft.is_owner_of(&custodian(), 0, 0));
    m.ft.balances.insert(PAUPER, 70);
    assert!(m.do_rent(&PAUPER, 0, 0, T).is_ok());
    assert_eq!(m.ft.balance(&PAUPER), 0);
}

#[test]
fn rent_whose_token_is_gone_gives_the_payments_back() {
    let mut m = offered();
    let escrow = custodian();
    assert!(m.nft.transfer(&escrow, &B2, 0, 0).is_ok());
    assert_eq!(m.do_rent(&RENTER, 0, 0, T), Err(DispatchError::Nft(nft::Error::NoPermission)));
    assert_eq!(m.ft.balance(&RENTER), 1_000);
    assert_eq!(m.ft.balance(&escrow), 0);
    assert_eq!(m.ft.balance(&SELLER), 1_000);
    assert!(!m.rent_item(0, 0).unwrap().is_renting);
    assert_eq!(m.do_cancel_rent(&SELLER, 0, 0), Err(DispatchError::Nft(nft::Error::NoPermission)));
    assert!(m.rent_item(0, 0).is_some());
    assert!(m.nft.burn(&B2, 0, 0).is_ok());
    assert_eq!(m.do_rent(&RENTER, 0, 0, T), Err(DispatchError::Nft(nft::Error::TokenNotFound)));
    assert_eq!(m.ft.balance(&RENTER), 1_000);
}

#[test]
fn repay_whose_collateral_is_gone_gives_the_token_back() {
    let mut m = rented();
    let escrow = custodian();
    m.ft.balances.insert(escrow, 49);
    assert_eq!(m.do_repay(&RENTER, 0, 0, T + 6), Err(DispatchError::Ft(ft::Error::InsufficientBalance)));
    assert!(m.nft.is_owner_of(&RENTER, 0, 0));
    assert_eq!(m.ft.balance(&RENTER), 930);
    assert!(m.rent_item(0, 0).unwrap().is_renting);
    assert_eq!(m.do_liquidate(&SELLER, 0, 0, T + 5_000), Err(DispatchError::Ft(ft::Error::InsufficientBalance)));
    assert_eq!(m.ft.balance(&SELLER), 1_020);
    assert!(m.rent_item(0, 0).is_some());
}

#[test]
fn repay_by_a_renter_who_gave_the_token_away_is_refused() {
    let mut m = rented();
    assert!(m.nft.transfer(&RENTER, &B2, 0, 0).is_ok());
    assert_eq!(m.do_repay(&RENTER, 0, 0, T + 6), Err(DispatchError::Nft(nft::Error::NoPermission)));
    assert_eq!(m.ft.balance(&RENTER), 930);
    assert_eq!(m.ft.balance(&custodian()), 50);
    assert!(m.rent_item(0, 0).is_some());
}

#[test]
fn claim_and_cancel_fail_when_the_escrow_lost_the_token() {
    let mut m = opened();
    let escrow = custodian();
    assert!(m.nft.transfer(&escrow, &B2, 0, 0).is_ok());
    assert_eq!(m.do_cancel(&SELLER, 0, 0), Err(DispatchError::Nft(nft::Error::NoPermission)));
    assert_eq!(m.do_claim(&SELLER, 0, 0, T + 101), Err(DispatchError::Nft(nft::Error::NoPermission)));
    assert!(m.sell_item(0, 0).is_some());
    assert!(m.nft.is_owner_of(&B2, 0, 0));
}

#[test]
fn unsigned_calls_are_refused_by_the_marketplace() {
    let mut m = market();
    assert_eq!(m.open_bid(Origin::root(), 0, 0, 100, 0, 100, T), Err(DispatchError::BadOrigin));
    assert_eq!(m.cancel_bid(Origin::unsigned(), 0, 0), Err(DispatchError::BadOrigin));
    assert_eq!(m.bid(Origin::root(), 0, 0, 150, T), Err(DispatchError::BadOrigin));
    assert_eq!(m.claim_nft(Origin::unsigned(), 0, 0, T), Err(DispatchError::BadOrigin));
    assert_eq!(m.offer_rent(Origin::root(), 0, 0, 1000, 50, 20), Err(DispatchError::BadOrigin));
    assert_eq!(m.rent(Origin::unsigned(), 0, 0, T), Err(DispatchError::BadOrigin));
    assert_eq!(m.cancel_rent(Origin::root(), 0, 0), Err(DispatchError::BadOrigin));
    assert_eq!(m.repay_rent(Origin::unsigned(), 0, 0, T), Err(DispatchError::BadOrigin));
    assert_eq!(m.liquidate_rent(Origin::root(), 0, 0, T), Err(DispatchError::BadOrigin));
    assert_eq!(m.sell_item(0, 0), None);
    assert_eq!(m.rent_item(0, 0), None);
    assert!(m.nft.is_owner_of(&SELLER, 0, 0));
}

#[test]
fn rent_item_knows_when_it_has_run_out() {
    let item = RentItem {
        leaser: SELLER,
        renter: RENTER,
        collateral: 50,
        price: 20,
        start_time: 100,
        duration: 10,
        is_renting: true,
    };
    assert!(!item.is_expired(0));
    assert!(!item.is_expired(110));
    assert!(item.is_expired(111));
    let endless = RentItem { start_time: u64::MAX, ..item };
    assert!(!endless.is_expired(u64::MAX));
}

#[test]
fn dispatch_runs_the_call_it_is_given() {
    let mut m = market();
    let open = Call::OpenBid { class_id: 0, token_id: 0, base_price: 100, delay_duration: 0, bid_duration: 100 };
    assert_eq!(m.dispatch(Origin::signed(SELLER), open, T), Ok(Event::Opened(SELLER, 0, 0, 100)));
    assert_eq!(m.dispatch(Origin::root(), open, T), Err(DispatchError::BadOrigin));
    let bid = Call::Bid { class_id: 0, token_id: 0, bid_price: 120 };
    assert_eq!(m.dispatch(Origin::signed(B1), bid, T + 1), Ok(Event::Bid(B1, 0, 0, 120)));
    assert_eq!(m.dispatch(Origin::signed(B2), bid, T + 2), refused(Error::TooLowBidPrice));
    let cancel = Call::CancelBid { class_id: 0, token_id: 0 };
    assert_eq!(m.dispatch(Origin::signed(SELLER), cancel, T + 3), refused(Error::CannotCancel));
    let claim = Call::ClaimNft { class_id: 0, token_id: 0 };
    assert_eq!(m.dispatch(Origin::signed(B1), claim, T + 101), Ok(Event::Closed(B1, 0, 0)));

    let offer = Call::OfferRent { class_id: 0, token_id: 1, duration: 1000, collateral: 50, price: 20 };
    assert_eq!(m.dispatch(Origin::signed(SELLER), offer, T), Ok(Event::Offered(SELLER, 0, 1)));
    let withdraw = Call::CancelRent { class_id: 0, token_id: 1 };
    assert_eq!(m.dispatch(Origin::signed(SELLER), withdraw, T), Ok(Event::RentCanceled(SELLER, 0, 1)));
    assert_eq!(m.dispatch(Origin::signed(SELLER), offer, T), Ok(Event::Offered(SELLER, 0, 1)));
    let rent = Call::Rent { class_id: 0, token_id: 1 };
    assert_eq!(m.dispatch(Origin::signed(RENTER), rent, T + 5), Ok(Event::Rented(RENTER, 0, 1)));
    let liquidate = Call::LiquidateRent { class_id: 0, token_id: 1 };
    assert_eq!(m.dispatch(Origin::signed(SELLER), liquidate, T + 6), refused(Error::RentIsNotExpired));
    let repay = Call::RepayRent { class_id: 0, token_id: 1 };
    assert_eq!(m.dispatch(Origin::signed(RENTER), repay, T + 6), Ok(Event::Repaid(RENTER, 0, 1)));
    assert_eq!(m.ft.balance(&RENTER), 980);
    assert_eq!(m.ft.balance(&B1), 880);
    assert_eq!(m.ft.balance(&SELLER), 1_140);
}

#[test]
fn bids_settle_so_that_only_seller_and_leader_differ() {
    let mut m = opened();
    let bids = [(B1, 110), (B2, 130), (B2, 135), (RENTER, 400), (B1, 401), (B2, 1_000)];
    let mut price = 100;
    for (i, (bidder, amount)) in bids.iter().enumerate() {
        assert_eq!(m.do_bid(bidder, 0, 0, *amount, T + i as u64), Ok(Event::Bid(*bidder, 0, 0, *amount)));
        let item = m.sell_item(0, 0).unwrap();
        assert!(item.current_price > price);
        price = item.current_price;
        assert_eq!(item.current_winner, *bidder);
        assert_eq!(m.ft.balance(&SELLER), 1_000 + price);
        for who in [B1, B2, RENTER, PAUPER] {
            let held = if who == PAUPER { 60 } else { 1_000 };
            let expected = if who == *bidder { held - price } else { held };
            assert_eq!(m.ft.balance(&who), expected);
        }
        assert_eq!(m.ft.balance(&custodian()), 0);
    }
    assert_eq!(m.do_bid(&B1, 0, 0, 1_001, T + 50), Err(DispatchError::Ft(ft::Error::InsufficientBalance)));
    assert_eq!(m.ft.balance(&B2), 0);
    assert_eq!(m.ft.balance(&B1), 1_000);
}

#[test]
fn escrow_holds_the_collateral_of_every_running_rental() {
    let mut m = market();
    assert!(m.do_offer(&SELLER, 0, 0, 1000, 50, 20).is_ok());
    assert!(m.do_offer(&SELLER, 0, 1, 2000, 60, 30).is_ok());
    assert!(m.do_offer(&B1, 0, 2, 3000, 70, 40).is_ok());
    assert_eq!(m.ft.balance(&custodian()), 0);
    assert!(m.do_rent(&RENTER, 0, 0, T).is_ok());
    assert_eq!(m.ft.balance(&custodian()), 50);
    assert!(m.do_rent(&B2, 0, 1, T + 1).is_ok());
    assert_eq!(m.ft.balance(&custodian()), 110);
    assert!(m.do_rent(&B2, 0, 2, T + 2).is_ok());
    assert_eq!(m.ft.balance(&custodian()), 180);
    assert!(m.do_repay(&B2, 0, 1, T + 3).is_ok());
    assert_eq!(m.ft.balance(&custodian()), 120);
    assert!(m.do_liquidate(&SELLER, 0, 0, T + 1_001).is_ok());
    assert_eq!(m.ft.balance(&custodian()), 70);
    assert!(m.do_liquidate(&B1, 0, 2, T + 3_003).is_ok());
    assert_eq!(m.ft.balance(&custodian()), 0);
    assert_eq!(m.ft.balance(&SELLER), 1_000 + 20 + 30 + 50);
    assert_eq!(m.ft.balance(&B1), 1_000 + 40 + 70);
    assert_eq!(m.ft.balance(&B2), 1_000 - 30 - 40 - 70);
    assert_eq!(m.ft.balance(&RENTER), 1_000 - 20 - 50);
    assert_eq!(m.ft.total_supply(), 4_060);
}

#[test]
fn listed_tokens_stay_in_escrow_until_they_are_handed_over() {
    let mut m = market();
    let escrow = custodian();
    assert!(m.do_open(&SELLER, 0, 0, 100, 0, 100, T).is_ok());
    assert!(m.do_offer(&SELLER, 0, 1, 1000, 50, 20).is_ok());
    assert!(m.nft.is_owner_of(&escrow, 0, 0));
    assert!(m.nft.is_owner_of(&escrow, 0, 1));
    assert_eq!(m.do_offer(&SELLER, 0, 0, 1000, 50, 20), refused(Error::OnlyOwnerCanOffer));
    assert_eq!(m.do_open(&SELLER, 0, 1, 100, 0, 100, T), refused(Error::OnlyOwnerCanSellNFT));
    assert!(m.do_bid(&B1, 0, 0, 150, T + 1).is_ok());
    assert!(m.nft.is_owner_of(&escrow, 0, 0));
    assert!(m.do_rent(&RENTER, 0, 1, T + 1).is_ok());
    assert!(m.nft.is_owner_of(&RENTER, 0, 1));
    assert!(m.do_claim(&B1, 0, 0, T + 101).is_ok());
    assert!(m.nft.is_owner_of(&B1, 0, 0));
    assert!(m.do_repay(&RENTER, 0, 1, T + 2).is_ok());
    assert!(m.nft.is_owner_of(&SELLER, 0, 1));
}

use nft_marketplace::nft::{Config, Error, Event, GenesisClassData, GenesisConfig, Pallet};
use nft_marketplace::primitives::{AccountId, ArithmeticError, DispatchError, Origin};

type Nft = Pallet<(), ()>;

const ALICE: AccountId = 1;
const BOB: AccountId = 2;
const PETER: AccountId = 3;
const ONLY: AccountId = 4;

fn config() -> Config {
    Config { max_class_metadata: 16, max_token_metadata: 16 }
}

fn build() -> Nft {
    GenesisConfig::default().build(config())
}

fn build_with_genesis(classes: Vec<GenesisClassData<(), ()>>) -> Nft {
    GenesisConfig { classes }.build(config())
}

fn three_classes() -> Vec<GenesisClassData<(), ()>> {
    vec![
        (ALICE, vec![1], (), vec![(ALICE, vec![1], ()), (BOB, vec![2], ()), (PETER, vec![3], ())]),
        (BOB, vec![2], (), vec![(ONLY, vec![1], ()), (ALICE, vec![2], ()), (PETER, vec![3], ())]),
        (ONLY, vec![3], (), vec![]),
    ]
}

fn one_empty_class() -> Vec<GenesisClassData<(), ()>> {
    vec![(ONLY, vec![3], (), vec![])]
}

#[test]
fn create_class_should_work() {
    let mut nft = build();
    assert!(nft.do_create_class(&ALICE, vec![1], ()).is_ok());
    assert!(nft.create_class(Origin::signed(BOB), vec![2], ()).is_ok());
}

#[test]
fn create_class_should_fail() {
    let mut nft = build();
    nft.next_class_id = u64::MAX;
    assert_eq!(
        nft.do_create_class(&ALICE, vec![1], ()),
        Err(DispatchError::Nft(Error::NoAvailableClassId))
    );
    assert_eq!(nft.next_class_id(), u64::MAX);
    assert!(nft.classes(u64::MAX).is_none());
}

#[test]
fn should_build_genesis_nfts() {
    let nft = build_with_genesis(three_classes());
    assert_eq!(nft.next_class_id(), 3);
    assert_eq!(nft.next_token_id(0), 3);
    assert_eq!(nft.next_token_id(1), 3);
    assert_eq!(nft.next_token_id(2), 0);
    assert_eq!(nft.is_owner_of(&ALICE, 0, 0), true);
    assert_eq!(nft.is_owner_of(&BOB, 0, 1), true);
    assert_eq!(nft.is_owner_of(&PETER, 0, 2), true);
    assert_eq!(nft.is_owner_of(&ONLY, 1, 0), true);
    assert_eq!(nft.is_owner_of(&ALICE, 1, 1), true);
    assert_eq!(nft.is_owner_of(&PETER, 1, 2), true);
    assert_eq!(nft.is_owner_of(&ONLY, 2, 0), false);
}

#[test]
fn mint_token_should_work() {
    let mut nft = build_with_genesis(one_empty_class());
    assert!(nft.mint_token(Origin::signed(ONLY), ALICE, 0, vec![0], ()).is_ok());
    assert_eq!(nft.is_owner_of(&ALICE, 0, 0), true);
}

#[test]
fn mint_token_should_fail() {
    let mut nft = build_with_genesis(one_empty_class());
    assert_eq!(
        nft.mint_token(Origin::signed(ALICE), ALICE, 0, vec![0], ()),
        Err(DispatchError::Nft(Error::NoPermission))
    );
    assert_eq!(nft.next_token_id(0), 0);
    assert_eq!(nft.is_owner_of(&ALICE, 0, 0), false);
}

#[test]
fn should_burn_token_work() {
    let mut nft = build_with_genesis(three_classes());
    assert!(nft.burn_token(Origin::signed(ALICE), 0, 0).is_ok());
    assert_eq!(nft.is_owner_of(&ALICE, 0, 0), false);
}

#[test]
fn should_burn_token_fail() {
    let mut nft = build_with_genesis(three_classes());
    assert_eq!(nft.burn_token(Origin::signed(BOB), 0, 0), Err(DispatchError::Nft(Error::NoPermission)));
    assert_eq!(nft.is_owner_of(&ALICE, 0, 0), true);
    assert_eq!(nft.classes(0).unwrap().total_issuance, 3);
}

#[test]
fn should_transfer_token_work() {
    let mut nft = build_with_genesis(three_classes());
    assert!(nft.transfer_token(Origin::signed(ALICE), ONLY, 0, 0).is_ok());
    assert_eq!(nft.is_owner_of(&ALICE, 0, 0), false);
    assert_eq!(nft.is_owner_of(&ONLY, 0, 0), true);
}

#[test]
fn should_transfer_token_fail() {
    let mut nft = build_with_genesis(three_classes());
    assert_eq!(
        nft.transfer_token(Origin::signed(BOB), ONLY, 0, 0),
        Err(DispatchError::Nft(Error::NoPermission))
    );
    assert_eq!(nft.is_owner_of(&ALICE, 0, 0), true);
    assert_eq!(nft.is_owner_of(&ONLY, 0, 0), false);
}

#[test]
fn should_destroy_class_work() {
    let mut nft = build_with_genesis(three_classes());
    assert!(nft.burn_token(Origin::signed(ALICE), 0, 0).is_ok());
    assert!(nft.burn_token(Origin::signed(BOB), 0, 1).is_ok());
    assert!(nft.burn_token(Origin::signed(PETER), 0, 2).is_ok());
    assert!(nft.destroy_class(Origin::signed(ALICE), 0).is_ok());
}

#[test]
fn should_destroy_class_fail() {
    let mut nft = build_with_genesis(three_classes());
    assert_eq!(
        nft.destroy_class(Origin::signed(ALICE), 0),
        Err(DispatchError::Nft(Error::CannotDestroyClass))
    );
    assert!(nft.burn_token(Origin::signed(ALICE), 0, 0).is_ok());
    assert!(nft.burn_token(Origin::signed(BOB), 0, 1).is_ok());
    assert_eq!(
        nft.destroy_class(Origin::signed(ALICE), 0),
        Err(DispatchError::Nft(Error::CannotDestroyClass))
    );
    assert!(nft.burn_token(Origin::signed(PETER), 0, 2).is_ok());
    assert_eq!(nft.destroy_class(Origin::signed(BOB), 0), Err(DispatchError::Nft(Error::NoPermission)));
    assert!(nft.classes(0).is_some());
}

#[test]
fn created_classes_get_consecutive_ids_and_report_them() {
    let mut nft = build();
    assert_eq!(nft.do_create_class(&ALICE, vec![1], ()), Ok((0, Event::ClassCreated(0, ALICE))));
    assert_eq!(nft.create_class(Origin::signed(BOB), vec![2, 3], ()), Ok(Event::ClassCreated(1, BOB)));
    assert_eq!(nft.next_class_id(), 2);
    let class = nft.classes(1).unwrap();
    assert_eq!(class.owner, BOB);
    assert_eq!(class.total_issuance, 0);
    assert_eq!(class.metadata, vec![2, 3]);
}

#[test]
fn minting_counts_issuance_and_hands_out_token_ids() {
    let mut nft = build_with_genesis(one_empty_class());
    assert_eq!(nft.mint(&ALICE, 0, vec![9], ()), Ok((0, Event::TokenMinted(0, 0, ALICE))));
    assert_eq!(nft.mint(&BOB, 0, vec![], ()), Ok((1, Event::TokenMinted(0, 1, BOB))));
    assert_eq!(nft.next_token_id(0), 2);
    assert_eq!(nft.classes(0).unwrap().total_issuance, 2);
    let token = nft.tokens(0, 0).unwrap();
    assert_eq!(token.owner, ALICE);
    assert_eq!(token.metadata, vec![9]);
    assert!(nft.tokens(0, 2).is_none());
}

#[test]
fn metadata_longer_than_the_maximum_is_refused() {
    let mut nft = build_with_genesis(one_empty_class());
    assert!(nft.do_create_class(&ALICE, vec![0; 16], ()).is_ok());
    assert_eq!(
        nft.do_create_class(&ALICE, vec![0; 17], ()),
        Err(DispatchError::Nft(Error::MaxMetadataExceeded))
    );
    assert!(nft.mint(&ALICE, 0, vec![0; 16], ()).is_ok());
    assert_eq!(nft.mint(&ALICE, 0, vec![0; 17], ()), Err(DispatchError::Nft(Error::MaxMetadataExceeded)));
    assert_eq!(nft.next_class_id(), 2);
    assert_eq!(nft.next_token_id(0), 1);
}

#[test]
fn minting_fails_without_class_or_without_ids_left() {
    let mut nft = build_with_genesis(one_empty_class());
    assert_eq!(nft.mint(&ALICE, 5, vec![], ()), Err(DispatchError::Nft(Error::ClassNotFound)));
    assert_eq!(
        nft.mint_token(Origin::signed(ONLY), ALICE, 5, vec![], ()),
        Err(DispatchError::Nft(Error::ClassNotFound))
    );
    nft.next_token_id.insert(0, u64::MAX);
    assert_eq!(nft.mint(&ALICE, 0, vec![], ()), Err(DispatchError::Nft(Error::NoAvailableTokenId)));
    assert_eq!(nft.next_token_id(0), u64::MAX);
    assert_eq!(nft.classes(0).unwrap().total_issuance, 0);
}

#[test]
fn issuance_that_would_leave_its_range_is_refused() {
    let mut nft = build_with_genesis(one_empty_class());
    nft.classes.get_mut(&0).unwrap().total_issuance = u64::MAX;
    assert_eq!(
        nft.mint(&ALICE, 0, vec![], ()),
        Err(DispatchError::Arithmetic(ArithmeticError::Overflow))
    );
    assert_eq!(nft.next_token_id(0), 0);
    assert!(nft.tokens(0, 0).is_none());

    let mut nft = build_with_genesis(three_classes());
    nft.classes.get_mut(&0).unwrap().total_issuance = 0;
    assert_eq!(nft.burn(&ALICE, 0, 0), Err(DispatchError::Arithmetic(ArithmeticError::Underflow)));
    assert_eq!(nft.is_owner_of(&ALICE, 0, 0), true);
}

#[test]
fn transfer_and_burn_report_missing_tokens_and_classes() {
    let mut nft = build_with_genesis(three_classes());
    assert_eq!(nft.transfer(&ALICE, &BOB, 0, 7), Err(DispatchError::Nft(Error::TokenNotFound)));
    assert_eq!(nft.burn(&ALICE, 0, 7), Err(DispatchError::Nft(Error::TokenNotFound)));
    assert_eq!(nft.do_destroy_class(&ALICE, 9), Err(DispatchError::Nft(Error::ClassNotFound)));
    nft.classes.remove(&0);
    assert_eq!(nft.burn(&ALICE, 0, 0), Err(DispatchError::Nft(Error::ClassNotFound)));
    assert_eq!(nft.is_owner_of(&ALICE, 0, 0), true);
}

#[test]
fn transfer_burn_and_destroy_report_what_they_did() {
    let mut nft = build_with_genesis(three_classes());
    assert_eq!(nft.transfer(&ALICE, &ONLY, 0, 0), Ok(Event::TokenTransfer(0, 0, ALICE, ONLY)));
    assert_eq!(nft.tokens(0, 0).unwrap().metadata, vec![1]);
    assert_eq!(nft.burn(&ONLY, 0, 0), Ok(Event::TokenBurned(0, 0, ONLY)));
    assert_eq!(nft.classes(0).unwrap().total_issuance, 2);
    assert_eq!(nft.do_destroy_class(&ONLY, 2), Ok(Event::ClassDestroyed(2, ONLY)));
    assert!(nft.classes(2).is_none());
}

#[test]
fn destroying_a_class_resets_its_token_counter() {
    let mut nft = build_with_genesis(three_classes());
    assert!(nft.burn(&ALICE, 0, 0).is_ok());
    assert!(nft.burn(&BOB, 0, 1).is_ok());
    assert!(nft.burn(&PETER, 0, 2).is_ok());
    assert_eq!(nft.next_token_id(0), 3);
    assert!(nft.do_destroy_class(&ALICE, 0).is_ok());
    assert_eq!(nft.next_token_id(0), 0);
    assert_eq!(nft.next_class_id(), 3);
}

#[test]
fn unsigned_calls_are_refused_by_the_registry() {
    let mut nft = build_with_genesis(three_classes());
    assert_eq!(nft.create_class(Origin::root(), vec![], ()), Err(DispatchError::BadOrigin));
    assert_eq!(nft.mint_token(Origin::unsigned(), ALICE, 0, vec![], ()), Err(DispatchError::BadOrigin));
    assert_eq!(nft.transfer_token(Origin::root(), BOB, 0, 0), Err(DispatchError::BadOrigin));
    assert_eq!(nft.burn_token(Origin::unsigned(), 0, 0), Err(DispatchError::BadOrigin));
    assert_eq!(nft.destroy_class(Origin::root(), 2), Err(DispatchError::BadOrigin));
    assert_eq!(nft.next_class_id(), 3);
    assert_eq!(nft.is_owner_of(&ALICE, 0, 0), true);
}

#[test]
fn genesis_stops_at_the_first_step_that_fails() {
    let too_long: Vec<GenesisClassData<(), ()>> = vec![
        (ALICE, vec![1], (), vec![(ALICE, vec![0; 17], ())]),
        (BOB, vec![2], (), vec![]),
    ];
    let built = GenesisConfig { classes: too_long }.try_build(config());
    assert_eq!(built.err(), Some(DispatchError::Nft(Error::MaxMetadataExceeded)));
    let built = GenesisConfig { classes: three_classes() }.try_build(config());
    assert_eq!(built.unwrap().next_class_id(), 3);
}

#[test]
fn class_and_token_records_can_be_cloned() {
    let nft = build_with_genesis(three_classes());
    let class = nft.classes(0).unwrap().clone();
    assert_eq!(&class, nft.classes(0).unwrap());
    assert_eq!(class.total_issuance, 3);
    let token = nft.tokens(1, 1).unwrap().clone();
    assert_eq!(&token, nft.tokens(1, 1).unwrap());
    assert_eq!(token.owner, ALICE);
    assert_eq!(token.metadata, vec![2]);
}

#[test]
fn refused_calls_leave_no_trace_in_the_registry() {
    let mut nft = build_with_genesis(one_empty_class());
    assert_eq!(nft.mint(&ALICE, 3, vec![], ()), Err(DispatchError::Nft(Error::ClassNotFound)));
    assert!(nft.next_token_id.is_empty());
    assert_eq!(nft.do_destroy_class(&ALICE, 0), Err(DispatchError::Nft(Error::NoPermission)));
    assert_eq!(nft.classes.len(), 1);
    assert!(nft.tokens.is_empty());
}

//! Operation-level tests: create, bid, cancel, finalize, and the
//! end-to-end auction scenario.

use auction_house::errors::AuctionError;
use auction_house::escrow::{ACCESS_KEY_ALLOWANCE, EscrowIntent};
use auction_house::house::{AuctionHouse, ONE_NEAR};

fn s(x: &str) -> String {
    x.to_string()
}

fn create_blank_auction_house() -> AuctionHouse {
    AuctionHouse::new(s("escrow_near"), vec![0, 1, 2]).unwrap()
}

/// A house with one auction by `bob_near` for `zanzibar_near`, closing at
/// block 1000; returns the house and the auction's identifier.
fn house_with_auction() -> (AuctionHouse, String) {
    let mut contract = create_blank_auction_house();
    let (id, _) = contract
        .create(
            &s("bob_near"),
            &vec![0, 1, 2],
            0,
            s("zanzibar_near"),
            s("bob_near"),
            Some(1_000),
            ONE_NEAR,
        )
        .unwrap();
    (contract, id)
}

#[test]
fn initialize_constructor() {
    let contract = create_blank_auction_house();

    assert_eq!(
        false, contract.paused,
        "Auction MUST not be paused initially"
    );

    assert_eq!(
        s("escrow_near"),
        contract.escrow_account_id.unwrap(),
        "Escrow account ID is set appropriately"
    );

    assert_eq!(
        vec![0, 1, 2],
        contract.escrow_public_key.unwrap(),
        "Escrow account public key is set appropriately"
    );
}

#[test]
fn new_auction_item_same_during_auction() {
    let mut contract = create_blank_auction_house();

    contract
        .create(
            &s("bob_near"),
            &vec![0, 1, 2],
            0,
            s("zanzibar_near"),
            s("yokohama_near"),
            Some(1_000),
            ONE_NEAR,
        )
        .unwrap();
    let second = contract.create(
        &s("bob_near"),
        &vec![0, 1, 2],
        0,
        s("zanzibar_near"),
        s("yokohama_near"),
        Some(1_000),
        ONE_NEAR,
    );
    let err = second.unwrap_err();
    assert_eq!(err, AuctionError::DuplicateActiveAuction);
    assert_eq!(err.message(), "Auction is already happening");
}

#[test]
fn new_auction_item_not_same_as_signer() {
    let mut contract = create_blank_auction_house();

    let r = contract.create(
        &s("bob_near"),
        &vec![0, 1, 2],
        0,
        s("bob_near"),
        s("bob_near"),
        Some(1_000),
        ONE_NEAR,
    );
    let err = r.unwrap_err();
    assert_eq!(err, AuctionError::AssetIsSigner);
    assert_eq!(err.message(), "Auction cannot be signer name");
}

#[test]
fn create_auction_item() {
    let mut contract = create_blank_auction_house();

    contract
        .create(
            &s("bob_near"),
            &vec![0, 1, 2],
            0,
            s("zanzibar_near"),
            s("bob_near"),
            Some(1_000),
            ONE_NEAR,
        )
        .unwrap();

    assert_eq!(
        1,
        contract.auctions.len(),
        "Contract: Creates new auction item"
    );
}

#[test]
fn create_returns_deterministic_identifier() {
    let (_, id1) = house_with_auction();
    let (_, id2) = house_with_auction();
    assert_eq!(id1, id2);
    assert_eq!(id1.len(), 64);
    assert!(id1.chars().all(|c| c.is_ascii_hexdigit() && !c.is_ascii_uppercase()));
}

#[test]
fn create_identifier_differs_when_fields_differ() {
    let (_, id) = house_with_auction();

    let mut other = create_blank_auction_house();
    let (id_other_asset, _) = other
        .create(
            &s("bob_near"),
            &vec![0, 1, 2],
            0,
            s("yokohama_near"),
            s("bob_near"),
            Some(1_000),
            ONE_NEAR,
        )
        .unwrap();
    assert_ne!(id, id_other_asset);

    let mut other = create_blank_auction_house();
    let (id_other_owner, _) = other
        .create(
            &s("carol_near"),
            &vec![0, 1, 2],
            0,
            s("zanzibar_near"),
            s("carol_near"),
            Some(1_000),
            ONE_NEAR,
        )
        .unwrap();
    assert_ne!(id, id_other_owner);

    let mut other = create_blank_auction_house();
    let (id_other_close, _) = other
        .create(
            &s("bob_near"),
            &vec![0, 1, 2],
            0,
            s("zanzibar_near"),
            s("bob_near"),
            Some(1_001),
            ONE_NEAR,
        )
        .unwrap();
    assert_ne!(id, id_other_close);
}

#[test]
fn create_identifier_matches_reference_digest() {
    // Keccak-256 of "bob_near:zanzibar_near:1000", in lowercase
    // hexadecimal, computed with an independent implementation.
    let (_, id) = house_with_auction();
    assert_eq!(
        id,
        "81067d60e6716bac3ce3eda3a7f9e8cd04ceb9bb233e8e4ada6fa136e7c11991"
    );
}

#[test]
fn create_identifier_distinct_at_field_boundaries() {
    // Without a separator in the hashed text, these two pairs would hash
    // the same characters: "abcd"+"ef" against "abc"+"def", and
    // "cd1"+"100" against "cd"+"1100".
    let mut first = create_blank_auction_house();
    let (id1, _) = first
        .create(&s("abcd"), &vec![1], 0, s("ef"), s("abcd"), Some(100), ONE_NEAR)
        .unwrap();
    let mut second = create_blank_auction_house();
    let (id2, _) = second
        .create(&s("abc"), &vec![1], 0, s("def"), s("abc"), Some(100), ONE_NEAR)
        .unwrap();
    assert_ne!(id1, id2);

    let mut third = create_blank_auction_house();
    let (id3, _) = third
        .create(&s("ab"), &vec![1], 0, s("cd1"), s("ab"), Some(100), ONE_NEAR)
        .unwrap();
    let mut fourth = create_blank_auction_house();
    let (id4, _) = fourth
        .create(&s("ab"), &vec![1], 0, s("cd"), s("ab"), Some(1_100), ONE_NEAR)
        .unwrap();
    assert_ne!(id3, id4);
}

#[test]
fn create_rejects_close_block_not_in_future() {
    let mut contract = create_blank_auction_house();
    let err = contract
        .create(
            &s("bob_near"),
            &vec![0, 1, 2],
            500,
            s("zanzibar_near"),
            s("bob_near"),
            Some(500),
            ONE_NEAR,
        )
        .unwrap_err();
    assert_eq!(err, AuctionError::CloseBlockNotFuture);
    assert_eq!(
        err.message(),
        "Close block must be greater than the creation height"
    );
    assert_eq!(0, contract.auctions.len());

    let err = contract
        .create(
            &s("bob_near"),
            &vec![0, 1, 2],
            500,
            s("zanzibar_near"),
            s("bob_near"),
            Some(499),
            ONE_NEAR,
        )
        .unwrap_err();
    assert_eq!(err, AuctionError::CloseBlockNotFuture);

    assert!(contract
        .create(
            &s("bob_near"),
            &vec![0, 1, 2],
            500,
            s("zanzibar_near"),
            s("bob_near"),
            Some(501),
            ONE_NEAR,
        )
        .is_ok());
}

#[test]
fn create_again_after_close_succeeds() {
    // While the first auction is open, the same fields are refused; once
    // its closing block has passed, the owner can list the asset again
    // under a fresh closing height. Re-using the old, already-passed
    // closing height is refused for being in the past, not as a duplicate.
    let (mut contract, _) = house_with_auction();
    let stale = contract.create(
        &s("bob_near"),
        &vec![0, 1, 2],
        1_001,
        s("zanzibar_near"),
        s("bob_near"),
        Some(1_000),
        ONE_NEAR,
    );
    assert_eq!(stale.unwrap_err(), AuctionError::CloseBlockNotFuture);

    let fresh = contract.create(
        &s("bob_near"),
        &vec![0, 1, 2],
        1_001,
        s("zanzibar_near"),
        s("bob_near"),
        Some(2_000),
        ONE_NEAR,
    );
    assert!(fresh.is_ok());
    assert_eq!(2, contract.auctions.len());
}

#[test]
fn create_rejects_malformed_asset() {
    let mut contract = create_blank_auction_house();
    let err = contract
        .create(
            &s("bob_near"),
            &vec![0, 1, 2],
            0,
            s("Zanzibar"),
            s("bob_near"),
            Some(1_000),
            ONE_NEAR,
        )
        .unwrap_err();
    assert_eq!(err, AuctionError::InvalidAssetId);
    assert_eq!(err.message(), "Must be a valid root name");
}

#[test]
fn create_emits_escrow_lock_then_recall_grant() {
    let mut contract = create_blank_auction_house();
    let (_, intents) = contract
        .create(
            &s("bob_near"),
            &vec![7, 7],
            0,
            s("zanzibar_near"),
            s("bob_near"),
            Some(1_000),
            ONE_NEAR,
        )
        .unwrap();
    assert_eq!(
        intents,
        vec![
            EscrowIntent::GrantFullAccess {
                account: s("bob_near"),
                public_key: vec![0, 1, 2],
            },
            EscrowIntent::RevokeKey {
                account: s("bob_near"),
                public_key: vec![7, 7],
            },
            EscrowIntent::GrantScopedAccess {
                account: s("bob_near"),
                public_key: vec![7, 7],
                allowance: ACCESS_KEY_ALLOWANCE,
                receiver: s("bob_near"),
                method: s("cancel_auction"),
            },
        ]
    );
}

#[test]
fn place_bid_rejects_owner() {
    let (mut contract, id) = house_with_auction();
    let err = contract
        .place_bid(&s("bob_near"), 10 * ONE_NEAR, 10, &id)
        .unwrap_err();
    assert_eq!(err, AuctionError::OwnerCannotBid);
    assert_eq!(err.message(), "Must not be owner of auction");
}

#[test]
fn place_bid_rejects_zero_amount() {
    let (mut contract, id) = house_with_auction();
    let err = contract.place_bid(&s("carol_near"), 0, 10, &id).unwrap_err();
    assert_eq!(err, AuctionError::ZeroBidAmount);
    assert_eq!(err.message(), "Must submit bid amount of greater than zero");
}

#[test]
fn place_bid_rejects_after_close() {
    let (mut contract, id) = house_with_auction();
    let err = contract
        .place_bid(&s("carol_near"), 5, 1_001, &id)
        .unwrap_err();
    assert_eq!(err, AuctionError::AuctionClosed);
    assert_eq!(err.message(), "Must be an active auction");

    // The closing block itself still accepts bids.
    assert!(contract.place_bid(&s("carol_near"), 5, 1_000, &id).is_ok());
}

#[test]
fn place_bid_rejects_unknown_auction() {
    let mut contract = create_blank_auction_house();
    let err = contract
        .place_bid(&s("carol_near"), 5, 10, &s("no_such_id"))
        .unwrap_err();
    assert_eq!(err, AuctionError::NotFound);
}

#[test]
fn place_bid_records_bid_and_moves_funds_to_escrow() {
    let (mut contract, id) = house_with_auction();
    let intents = contract.place_bid(&s("carol_near"), 5, 10, &id).unwrap();
    assert_eq!(
        intents,
        vec![EscrowIntent::TransferFunds { to: s("escrow_near"), amount: 5 }]
    );
    let auction = contract.auctions.get(&id).unwrap();
    assert_eq!(auction.bid_amount(&s("carol_near")), Some(5));
    assert_eq!(auction.num_bids(), 1);
}

#[test]
fn rebid_replaces_recorded_amount() {
    let (mut contract, id) = house_with_auction();
    contract.place_bid(&s("carol_near"), 5, 10, &id).unwrap();
    contract.place_bid(&s("carol_near"), 3, 11, &id).unwrap();
    let auction = contract.auctions.get(&id).unwrap();
    assert_eq!(auction.bid_amount(&s("carol_near")), Some(3));
    assert_eq!(auction.num_bids(), 1);
}

#[test]
fn cancel_requires_owner() {
    let (mut contract, id) = house_with_auction();
    let err = contract
        .cancel_auction(&s("carol_near"), &id)
        .unwrap_err();
    assert_eq!(err, AuctionError::NotOwner);
    assert_eq!(err.message(), "Must be owner to cancel auction");
    assert_eq!(1, contract.auctions.len());
}

#[test]
fn cancel_refunds_bidders_and_removes_auction() {
    let (mut contract, id) = house_with_auction();
    contract.place_bid(&s("carol_near"), 10, 10, &id).unwrap();
    contract.place_bid(&s("dave_near"), 15, 20, &id).unwrap();

    let intents = contract.cancel_auction(&s("bob_near"), &id).unwrap();
    assert_eq!(
        intents,
        vec![
            EscrowIntent::TransferFunds { to: s("carol_near"), amount: 10 },
            EscrowIntent::TransferFunds { to: s("dave_near"), amount: 15 },
            EscrowIntent::ReleaseAsset {
                custodian: s("escrow_near"),
                asset: s("zanzibar_near"),
                recipient: s("bob_near"),
            },
        ]
    );
    assert_eq!(0, contract.auctions.len());
    assert_eq!(
        contract.get_auction_by_id(&id).unwrap_err(),
        AuctionError::NotFound
    );
}

#[test]
fn cancel_unknown_auction_fails() {
    let mut contract = create_blank_auction_house();
    let err = contract
        .cancel_auction(&s("bob_near"), &s("no_such_id"))
        .unwrap_err();
    assert_eq!(err, AuctionError::NotFound);
}

#[test]
fn finalize_before_close_fails() {
    let (mut contract, id) = house_with_auction();
    let err = contract.finalize_auction(1_000, &id).unwrap_err();
    assert_eq!(err, AuctionError::AuctionStillOpen);
    assert_eq!(err.message(), "Auction is still open");
}

#[test]
fn finalize_awards_highest_bidder_and_refunds_rest() {
    let (mut contract, id) = house_with_auction();
    contract.place_bid(&s("carol_near"), 10, 10, &id).unwrap();
    contract.place_bid(&s("dave_near"), 15, 20, &id).unwrap();

    let intents = contract.finalize_auction(1_001, &id).unwrap();
    assert_eq!(
        intents,
        vec![
            EscrowIntent::TransferFunds { to: s("carol_near"), amount: 10 },
            EscrowIntent::ReleaseAsset {
                custodian: s("escrow_near"),
                asset: s("zanzibar_near"),
                recipient: s("dave_near"),
            },
        ]
    );
    let auction = contract.auctions.get(&id).unwrap();
    assert_eq!(auction.winner_account_id, Some(s("dave_near")));
}

#[test]
fn finalize_tie_goes_to_first_bidder() {
    let (mut contract, id) = house_with_auction();
    contract.place_bid(&s("carol_near"), 5, 10, &id).unwrap();
    contract.place_bid(&s("dave_near"), 5, 20, &id).unwrap();

    let intents = contract.finalize_auction(1_001, &id).unwrap();
    assert_eq!(
        intents,
        vec![
            EscrowIntent::TransferFunds { to: s("dave_near"), amount: 5 },
            EscrowIntent::ReleaseAsset {
                custodian: s("escrow_near"),
                asset: s("zanzibar_near"),
                recipient: s("carol_near"),
            },
        ]
    );
    let auction = contract.auctions.get(&id).unwrap();
    assert_eq!(auction.winner_account_id, Some(s("carol_near")));
}

#[test]
fn finalize_with_no_bids_returns_asset_to_owner() {
    let (mut contract, id) = house_with_auction();
    let intents = contract.finalize_auction(1_001, &id).unwrap();
    assert_eq!(
        intents,
        vec![EscrowIntent::ReleaseAsset {
            custodian: s("escrow_near"),
            asset: s("zanzibar_near"),
            recipient: s("bob_near"),
        }]
    );
    let auction = contract.auctions.get(&id).unwrap();
    assert_eq!(auction.winner_account_id, Some(s("bob_near")));
}

#[test]
fn double_finalize_fails() {
    let (mut contract, id) = house_with_auction();
    contract.place_bid(&s("carol_near"), 10, 10, &id).unwrap();
    contract.finalize_auction(1_001, &id).unwrap();
    let err = contract.finalize_auction(1_002, &id).unwrap_err();
    assert_eq!(err, AuctionError::AlreadyFinalized);
    assert_eq!(err.message(), "Auction is already finalized");
}

#[test]
fn end_to_end_auction() {
    // Create at height H = 0 with close_block = H + 100; bidder carol bids
    // 10 at H + 10, dave bids 15 at H + 20; finalize at H + 101.
    let mut contract = create_blank_auction_house();
    let (id, _) = contract
        .create(
            &s("alice_near"),
            &vec![1],
            0,
            s("asset_near"),
            s("alice_near"),
            Some(100),
            ONE_NEAR,
        )
        .unwrap();

    contract.place_bid(&s("carol_near"), 10, 10, &id).unwrap();
    contract.place_bid(&s("dave_near"), 15, 20, &id).unwrap();

    let intents = contract.finalize_auction(101, &id).unwrap();
    let auction = contract.auctions.get(&id).unwrap();
    assert_eq!(auction.winner_account_id, Some(s("dave_near")));
    assert!(intents.contains(&EscrowIntent::TransferFunds { to: s("carol_near"), amount: 10 }));
    assert!(intents.contains(&EscrowIntent::ReleaseAsset {
        custodian: s("escrow_near"),
        asset: s("asset_near"),
        recipient: s("dave_near"),
    }));
    assert_eq!(intents.len(), 2);
}

#[test]
fn get_auction_by_id_returns_identifying_text() {
    let (contract, id) = house_with_auction();
    assert_eq!(
        contract.get_auction_by_id(&id).unwrap(),
        s("bob_near:zanzibar_near:1000")
    );
}

#[test]
fn cancel_after_finalize_fails() {
    let (mut contract, id) = house_with_auction();
    contract.place_bid(&s("carol_near"), 10, 10, &id).unwrap();
    contract.finalize_auction(1_001, &id).unwrap();

    // The winner has the asset and the others their refunds; cancelling
    // now would refund everyone a second time and claw the asset back.
    let err = contract.cancel_auction(&s("bob_near"), &id).unwrap_err();
    assert_eq!(err, AuctionError::AlreadyFinalized);
    assert_eq!(err.message(), "Auction is already finalized");
    assert_eq!(1, contract.auctions.len());
}

#[test]
fn new_rejects_malformed_escrow_id() {
    let err = AuctionHouse::new(s("x"), vec![0]).unwrap_err();
    assert_eq!(err, AuctionError::InvalidEscrowId);
    assert_eq!(err.message(), "Must be a valid escrow contract id");
}

#[test]
fn default_house_is_unconfigured_and_empty() {
    let contract = AuctionHouse::default();
    assert_eq!(contract.paused, false);
    assert_eq!(contract.escrow_account_id, None);
    assert_eq!(contract.escrow_public_key, None);
    assert_eq!(contract.auctions.len(), 0);
}

use auction::create_auction;
use auction::place_bid;
use auction::settle_auction;
use auction::AuctionError;
use auction::CreateAuction;
use auction::Ledger;
use auction::PlaceBid;
use auction::SettleAuction;

const ASSET: u64 = 7;
const SELLER: u64 = 11;
const ALICE: u64 = 12;
const BOB: u64 = 13;
const MALLORY: u64 = 66;
const DEADLINE: i64 = 900;

fn funded_ledger() -> Ledger {
    let mut ledger = Ledger::new();
    ledger.deposit(ALICE, 5_000);
    ledger.deposit(BOB, 5_000);
    ledger
}

fn create(ledger: &mut Ledger, start_price: u64, end_time: i64, now: i64) {
    let req = CreateAuction {
        asset_ref: ASSET,
        seller: SELLER,
        start_price,
        end_time,
    };
    assert_eq!(create_auction(ledger, &req, now), Ok(()));
}

fn bid(who: u64, prev: u64, amount: u64) -> PlaceBid {
    PlaceBid {
        asset_ref: ASSET,
        bidder: who,
        previous_bidder: prev,
        amount,
    }
}

#[test]
fn create_fills_the_record_and_opens_an_empty_custody_register() {
    let mut ledger = funded_ledger();
    create(&mut ledger, 40, DEADLINE, 17);
    let record = ledger.auction(ASSET).unwrap();
    assert_eq!(record.seller, SELLER);
    assert_eq!(record.asset_ref, ASSET);
    assert_eq!(record.start_price, 40);
    assert_eq!(record.current_bid, 0);
    assert_eq!(record.current_bidder, None);
    assert_eq!(record.end_time, DEADLINE);
    assert!(!record.settled);
    assert_eq!(record.created_at, 17);
    assert_eq!(ledger.escrow_balance(ASSET), 0);
    assert!(ledger.has_auction(ASSET));
    assert!(!ledger.has_auction(ASSET + 1));
}

#[test]
fn one_auction_per_asset() {
    let mut ledger = funded_ledger();
    create(&mut ledger, 40, DEADLINE, 0);
    let again = CreateAuction {
        asset_ref: ASSET,
        seller: MALLORY,
        start_price: 1,
        end_time: DEADLINE + 5,
    };
    assert_eq!(
        create_auction(&mut ledger, &again, 1),
        Err(AuctionError::AlreadyExists)
    );
    let record = ledger.auction(ASSET).unwrap();
    assert_eq!(record.seller, SELLER);
    assert_eq!(record.start_price, 40);
}

#[test]
fn bid_below_start_price_rejected() {
    let mut ledger = funded_ledger();
    create(&mut ledger, 40, DEADLINE, 0);
    assert_eq!(
        place_bid(&mut ledger, &bid(ALICE, 0, 39), 1),
        Err(AuctionError::BidTooLow)
    );
    assert_eq!(ledger.balance_of(ALICE), 5_000);
    assert_eq!(ledger.escrow_balance(ASSET), 0);
}

#[test]
fn zero_bid_on_a_zero_floor_rejected() {
    let mut ledger = funded_ledger();
    create(&mut ledger, 0, DEADLINE, 0);
    assert_eq!(
        place_bid(&mut ledger, &bid(ALICE, 0, 0), 1),
        Err(AuctionError::BidTooLow)
    );
    assert_eq!(place_bid(&mut ledger, &bid(ALICE, 0, 1), 2), Ok(()));
    assert_eq!(ledger.auction(ASSET).unwrap().current_bid, 1);
}

#[test]
fn bid_at_or_after_the_deadline_rejected_whatever_its_size() {
    let mut ledger = funded_ledger();
    create(&mut ledger, 40, DEADLINE, 0);
    assert_eq!(
        place_bid(&mut ledger, &bid(ALICE, 0, 4_999), DEADLINE),
        Err(AuctionError::AuctionEnded)
    );
    assert_eq!(
        place_bid(&mut ledger, &bid(ALICE, 0, 4_999), DEADLINE + 100),
        Err(AuctionError::AuctionEnded)
    );
    assert_eq!(ledger.balance_of(ALICE), 5_000);
    assert_eq!(ledger.escrow_balance(ASSET), 0);
}

#[test]
fn bid_on_a_settled_auction_rejected() {
    let mut ledger = funded_ledger();
    create(&mut ledger, 40, DEADLINE, 0);
    let settle = SettleAuction {
        asset_ref: ASSET,
        seller: SELLER,
    };
    assert_eq!(settle_auction(&mut ledger, &settle, DEADLINE), Ok(()));
    assert_eq!(
        place_bid(&mut ledger, &bid(ALICE, 0, 100), DEADLINE + 1),
        Err(AuctionError::AlreadySettled)
    );
}

#[test]
fn refund_target_must_match_the_stored_leading_bidder() {
    let mut ledger = funded_ledger();
    create(&mut ledger, 40, DEADLINE, 0);
    assert_eq!(place_bid(&mut ledger, &bid(ALICE, 0, 40), 1), Ok(()));
    assert_eq!(
        place_bid(&mut ledger, &bid(BOB, MALLORY, 41), 2),
        Err(AuctionError::Unauthorized)
    );
    assert_eq!(ledger.balance_of(MALLORY), 0);
    assert_eq!(ledger.balance_of(ALICE), 5_000 - 40);
    assert_eq!(ledger.auction(ASSET).unwrap().current_bid, 40);
    assert_eq!(place_bid(&mut ledger, &bid(BOB, ALICE, 41), 3), Ok(()));
}

#[test]
fn payout_target_must_match_the_stored_seller() {
    let mut ledger = funded_ledger();
    create(&mut ledger, 40, DEADLINE, 0);
    assert_eq!(place_bid(&mut ledger, &bid(ALICE, 0, 40), 1), Ok(()));
    let hijack = SettleAuction {
        asset_ref: ASSET,
        seller: MALLORY,
    };
    assert_eq!(
        settle_auction(&mut ledger, &hijack, DEADLINE),
        Err(AuctionError::Unauthorized)
    );
    assert_eq!(ledger.balance_of(MALLORY), 0);
    assert!(!ledger.auction(ASSET).unwrap().settled);
    let settle = SettleAuction {
        asset_ref: ASSET,
        seller: SELLER,
    };
    assert_eq!(settle_auction(&mut ledger, &settle, DEADLINE), Ok(()));
    assert_eq!(ledger.balance_of(SELLER), 40);
}

#[test]
fn first_bid_may_equal_the_start_price_but_not_fall_short() {
    let mut ledger = funded_ledger();
    create(&mut ledger, 40, DEADLINE, 0);
    assert_eq!(place_bid(&mut ledger, &bid(ALICE, 0, 40), 1), Ok(()));
    let record = ledger.auction(ASSET).unwrap();
    assert_eq!(record.current_bid, 40);
    assert_eq!(record.current_bidder, Some(ALICE));
}

#[test]
fn deposits_accumulate_and_unknown_accounts_hold_zero() {
    let mut ledger = Ledger::new();
    assert_eq!(ledger.balance_of(ALICE), 0);
    ledger.deposit(ALICE, 30);
    ledger.deposit(ALICE, 12);
    assert_eq!(ledger.balance_of(ALICE), 42);
    assert_eq!(ledger.auction(ASSET), None);
    assert_eq!(ledger.escrow_balance(ASSET), 0);
}

#[test]
fn error_codes_carry_their_diagnostic_text() {
    assert_eq!(
        AuctionError::AlreadySettled.message(),
        "Auction already settled"
    );
    assert_eq!(AuctionError::AuctionEnded.message(), "Auction has ended");
    assert_eq!(
        AuctionError::AuctionNotEnded.message(),
        "Auction has not ended yet"
    );
    assert_eq!(AuctionError::BidTooLow.message(), "Bid too low");
    assert_eq!(AuctionError::AlreadyExists.message(), "Auction already exists");
    assert_eq!(AuctionError::Unauthorized.message(), "Unauthorized account");
}

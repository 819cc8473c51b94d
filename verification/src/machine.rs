//! The auction state machine: Create, PlaceBid and Settle, each given as a
//! specification-level transition on [`LedgerModel`] and as an executable
//! operation on [`Ledger`] proved to implement it.

use vstd::prelude::*;

use crate::errors::AuctionError;
use crate::ledger::bal_in;
use crate::ledger::Ledger;
use crate::ledger::LedgerModel;
use crate::record::AuctionAccount;
use crate::record::CreateAuction;
use crate::record::PlaceBid;
use crate::record::SettleAuction;

verus! {

/// Whether Create succeeds: it does exactly when no record exists yet at
/// the address derived from the asset — one auction per asset identity.
pub open spec fn create_outcome(m: LedgerModel, req: CreateAuction) -> Result<(), AuctionError> {
    if m.has_auction(req.asset_ref) {
        Err(AuctionError::AlreadyExists)
    } else {
        Ok(())
    }
}

/// The state Create leaves behind: on success a fresh record with the
/// caller as seller, no bid, no bidder, an empty custody register, and the
/// creation time noted; on failure the state is untouched.
pub open spec fn create_post(m: LedgerModel, req: CreateAuction, now: i64) -> LedgerModel {
    if create_outcome(m, req) is Ok {
        LedgerModel {
            records: m.records.insert(
                req.asset_ref,
                AuctionAccount {
                    seller: req.seller,
                    asset_ref: req.asset_ref,
                    start_price: req.start_price,
                    current_bid: 0,
                    current_bidder: None,
                    end_time: req.end_time,
                    settled: false,
                    created_at: now,
                },
            ),
            escrows: m.escrows.insert(req.asset_ref, 0),
            balances: m.balances,
        }
    } else {
        m
    }
}

/// Create preserves the ledger invariants.
pub proof fn lemma_create_preserves_wf(m: LedgerModel, req: CreateAuction, now: i64)
    requires
        m.wf(),
    ensures
        create_post(m, req, now).wf(),
{
    if create_outcome(m, req) is Ok {
        let post = create_post(m, req, now);
        assert(post.escrows.dom() =~= post.records.dom());
    }
}

/// Open an auction for `req.asset_ref` at ledger time `now`.
///
/// No funds move; the custody register opens empty.  A past `end_time` is
/// accepted and yields an auction that is immediately eligible for
/// settlement with no bids.
pub fn create_auction(ledger: &mut Ledger, req: &CreateAuction, now: i64) -> (result: Result<
    (),
    AuctionError,
>)
    requires
        old(ledger).wf(),
    ensures
        result == create_outcome(old(ledger)@, *req),
        final(ledger)@ == create_post(old(ledger)@, *req, now),
        final(ledger).wf(),
{
    if ledger.records.contains_key(&req.asset_ref) {
        return Err(AuctionError::AlreadyExists);
    }
    let record = AuctionAccount {
        seller: req.seller,
        asset_ref: req.asset_ref,
        start_price: req.start_price,
        current_bid: 0,
        current_bidder: None,
        end_time: req.end_time,
        settled: false,
        created_at: now,
    };
    ledger.records.insert(req.asset_ref, record);
    ledger.escrows.insert(req.asset_ref, 0);
    proof {
        lemma_create_preserves_wf(old(ledger)@, *req, now);
    }
    Ok(())
}

/// Whether PlaceBid succeeds, and with which code it fails.  The
/// preconditions are checked in this order, the first failure aborting the
/// operation: the record is unsettled, the deadline has not passed, the
/// amount reaches the floor, and — before any debit — the caller-named
/// refund target equals the stored leading bidder.
pub open spec fn bid_outcome(m: LedgerModel, req: PlaceBid, now: i64) -> Result<(), AuctionError>
    recommends
        m.has_auction(req.asset_ref),
{
    let r = m.record(req.asset_ref);
    if r.settled {
        Err(AuctionError::AlreadySettled)
    } else if now >= r.end_time {
        Err(AuctionError::AuctionEnded)
    } else if (req.amount as int) < r.min_bid() {
        Err(AuctionError::BidTooLow)
    } else if r.current_bid > 0 && r.current_bidder != Some(req.previous_bidder) {
        Err(AuctionError::Unauthorized)
    } else {
        Ok(())
    }
}

/// The ordinary balances after the standing bid has been returned to the
/// caller-named refund target; no change when no bid stands.
pub open spec fn refunded_balances(m: LedgerModel, req: PlaceBid) -> Map<u64, u64>
    recommends
        m.has_auction(req.asset_ref),
{
    let r = m.record(req.asset_ref);
    if r.current_bid > 0 {
        m.balances.insert(req.previous_bidder, (m.bal(req.previous_bidder) + r.current_bid) as u64)
    } else {
        m.balances
    }
}

/// The funds a successful PlaceBid moves fit the machine: the refund does
/// not overflow its target, and the bidder can cover the new amount once
/// any refund has reached them.
pub open spec fn bid_funds_ok(m: LedgerModel, req: PlaceBid) -> bool
    recommends
        m.has_auction(req.asset_ref),
{
    let r = m.record(req.asset_ref);
    &&& r.current_bid > 0 ==> m.bal(req.previous_bidder) + r.current_bid <= u64::MAX
    &&& bal_in(refunded_balances(m, req), req.bidder) >= req.amount
}

/// The state PlaceBid leaves behind: on success the standing bid (if any)
/// is returned to the refund target, the bidder pays the new amount into
/// the custody register, and the record names the new bid and bidder; on
/// failure the state is untouched.
pub open spec fn bid_post(m: LedgerModel, req: PlaceBid, now: i64) -> LedgerModel
    recommends
        m.has_auction(req.asset_ref),
{
    if bid_outcome(m, req, now) is Ok {
        let r = m.record(req.asset_ref);
        let refunded = refunded_balances(m, req);
        LedgerModel {
            records: m.records.insert(
                req.asset_ref,
                AuctionAccount {
                    seller: r.seller,
                    asset_ref: r.asset_ref,
                    start_price: r.start_price,
                    current_bid: req.amount,
                    current_bidder: Some(req.bidder),
                    end_time: r.end_time,
                    settled: r.settled,
                    created_at: r.created_at,
                },
            ),
            escrows: m.escrows.insert(req.asset_ref, req.amount),
            balances: refunded.insert(
                req.bidder,
                (bal_in(refunded, req.bidder) - req.amount) as u64,
            ),
        }
    } else {
        m
    }
}

/// PlaceBid preserves the ledger invariants.
pub proof fn lemma_bid_preserves_wf(m: LedgerModel, req: PlaceBid, now: i64)
    requires
        m.wf(),
        m.has_auction(req.asset_ref),
    ensures
        bid_post(m, req, now).wf(),
{
    if bid_outcome(m, req, now) is Ok {
        let post = bid_post(m, req, now);
        assert(post.escrows.dom() =~= post.records.dom());
    }
}

/// Bid `req.amount` on the auction for `req.asset_ref` at ledger time
/// `now`, on behalf of the authenticated `req.bidder`.
///
/// On success the standing bid is first returned to the caller-named
/// refund target — which must equal the stored leading bidder — and the
/// new amount moves from the bidder into the custody register.  On any
/// failure nothing changes.
///
/// The addressed record must exist: resolving a request's addresses is
/// the ledger's lookup, done before an operation body runs.
pub fn place_bid(ledger: &mut Ledger, req: &PlaceBid, now: i64) -> (result: Result<
    (),
    AuctionError,
>)
    requires
        old(ledger).wf(),
        old(ledger)@.has_auction(req.asset_ref),
        bid_outcome(old(ledger)@, *req, now) is Ok ==> bid_funds_ok(old(ledger)@, *req),
    ensures
        result == bid_outcome(old(ledger)@, *req, now),
        final(ledger)@ == bid_post(old(ledger)@, *req, now),
        final(ledger).wf(),
{
    let rec: AuctionAccount = *ledger.records.get(&req.asset_ref).unwrap();
    if rec.settled {
        return Err(AuctionError::AlreadySettled);
    }
    if now >= rec.end_time {
        return Err(AuctionError::AuctionEnded);
    }
    let meets_floor: bool = if rec.current_bid > 0 {
        req.amount > rec.current_bid
    } else {
        req.amount >= rec.start_price && req.amount > 0
    };
    if !meets_floor {
        return Err(AuctionError::BidTooLow);
    }
    let esc: u64 = ledger.escrow_balance(req.asset_ref);
    let mut esc_after: u64 = esc;
    if rec.current_bid > 0 {
        let target_ok: bool = match rec.current_bidder {
            Some(b) => b == req.previous_bidder,
            None => false,
        };
        if !target_ok {
            return Err(AuctionError::Unauthorized);
        }
        // Debit the custody register by the standing bid and return it to
        // the verified refund target.
        esc_after = esc - rec.current_bid;
        let held: u64 = ledger.balance_of(req.previous_bidder);
        ledger.balances.insert(req.previous_bidder, held + rec.current_bid);
    }
    // Debit the bidder and credit the custody register by the new amount.
    let have: u64 = ledger.balance_of(req.bidder);
    ledger.balances.insert(req.bidder, have - req.amount);
    ledger.escrows.insert(req.asset_ref, esc_after + req.amount);
    ledger.records.insert(
        req.asset_ref,
        AuctionAccount {
            current_bid: req.amount,
            current_bidder: Some(req.bidder),
            ..rec
        },
    );
    proof {
        lemma_bid_preserves_wf(old(ledger)@, *req, now);
    }
    Ok(())
}

/// Whether Settle succeeds, and with which code it fails.  The
/// preconditions are checked in this order: the record is unsettled, the
/// deadline has passed, and the caller-named payout target equals the
/// stored seller.
pub open spec fn settle_outcome(
    m: LedgerModel,
    req: SettleAuction,
    now: i64,
) -> Result<(), AuctionError>
    recommends
        m.has_auction(req.asset_ref),
{
    let r = m.record(req.asset_ref);
    if r.settled {
        Err(AuctionError::AlreadySettled)
    } else if now < r.end_time {
        Err(AuctionError::AuctionNotEnded)
    } else if req.seller != r.seller {
        Err(AuctionError::Unauthorized)
    } else {
        Ok(())
    }
}

/// The payout a successful Settle makes fits the machine: crediting the
/// winning bid to the seller does not overflow their balance.
pub open spec fn settle_funds_ok(m: LedgerModel, req: SettleAuction) -> bool
    recommends
        m.has_auction(req.asset_ref),
{
    let r = m.record(req.asset_ref);
    r.current_bid > 0 ==> m.bal(r.seller) + r.current_bid <= u64::MAX
}

/// The state Settle leaves behind: on success the record is marked
/// settled with every other field kept, and the full custody balance —
/// the winning bid — moves to the seller; with no bid, no funds move.  On
/// failure the state is untouched.
pub open spec fn settle_post(m: LedgerModel, req: SettleAuction, now: i64) -> LedgerModel
    recommends
        m.has_auction(req.asset_ref),
{
    if settle_outcome(m, req, now) is Ok {
        let r = m.record(req.asset_ref);
        LedgerModel {
            records: m.records.insert(
                req.asset_ref,
                AuctionAccount {
                    seller: r.seller,
                    asset_ref: r.asset_ref,
                    start_price: r.start_price,
                    current_bid: r.current_bid,
                    current_bidder: r.current_bidder,
                    end_time: r.end_time,
                    settled: true,
                    created_at: r.created_at,
                },
            ),
            escrows: if r.current_bid > 0 {
                m.escrows.insert(req.asset_ref, 0)
            } else {
                m.escrows
            },
            balances: if r.current_bid > 0 {
                m.balances.insert(r.seller, (m.bal(r.seller) + r.current_bid) as u64)
            } else {
                m.balances
            },
        }
    } else {
        m
    }
}

/// Settle preserves the ledger invariants.
pub proof fn lemma_settle_preserves_wf(m: LedgerModel, req: SettleAuction, now: i64)
    requires
        m.wf(),
        m.has_auction(req.asset_ref),
    ensures
        settle_post(m, req, now).wf(),
{
    if settle_outcome(m, req, now) is Ok {
        let post = settle_post(m, req, now);
        assert(post.escrows.dom() =~= post.records.dom());
    }
}

/// Close the auction for `req.asset_ref` at ledger time `now`, paying the
/// custody balance out to the caller-named seller account — which must
/// equal the stored seller.
///
/// Settlement is terminal: once it succeeds, every further PlaceBid or
/// Settle on this record is rejected.
///
/// The addressed record must exist: resolving a request's addresses is
/// the ledger's lookup, done before an operation body runs.
pub fn settle_auction(ledger: &mut Ledger, req: &SettleAuction, now: i64) -> (result: Result<
    (),
    AuctionError,
>)
    requires
        old(ledger).wf(),
        old(ledger)@.has_auction(req.asset_ref),
        settle_outcome(old(ledger)@, *req, now) is Ok ==> settle_funds_ok(old(ledger)@, *req),
    ensures
        result == settle_outcome(old(ledger)@, *req, now),
        final(ledger)@ == settle_post(old(ledger)@, *req, now),
        final(ledger).wf(),
{
    let rec: AuctionAccount = *ledger.records.get(&req.asset_ref).unwrap();
    if rec.settled {
        return Err(AuctionError::AlreadySettled);
    }
    if now < rec.end_time {
        return Err(AuctionError::AuctionNotEnded);
    }
    if req.seller != rec.seller {
        return Err(AuctionError::Unauthorized);
    }
    if rec.current_bid > 0 {
        // Debit the full custody balance and credit it to the seller.
        let esc: u64 = ledger.escrow_balance(req.asset_ref);
        ledger.escrows.insert(req.asset_ref, esc - rec.current_bid);
        let held: u64 = ledger.balance_of(rec.seller);
        ledger.balances.insert(rec.seller, held + rec.current_bid);
    }
    ledger.records.insert(
        req.asset_ref,
        AuctionAccount { settled: true, ..rec },
    );
    proof {
        lemma_settle_preserves_wf(old(ledger)@, *req, now);
    }
    Ok(())
}

} // verus!

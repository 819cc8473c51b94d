//! The laws of the auction state machine, proved over the transition
//! functions of [`crate::machine`].  Together with the well-formedness
//! lemmas there, they pin down the behaviour every committed state and
//! every accepted operation must show.

use vstd::prelude::*;

use crate::errors::AuctionError;
use crate::ledger::LedgerModel;
use crate::machine::bid_funds_ok;
use crate::machine::bid_outcome;
use crate::machine::bid_post;
use crate::machine::lemma_bid_preserves_wf;
use crate::machine::create_post;
use crate::machine::settle_funds_ok;
use crate::machine::settle_outcome;
use crate::machine::settle_post;
use crate::record::CreateAuction;
use crate::record::PlaceBid;
use crate::record::SettleAuction;

verus! {

/// Every accepted bid strictly raises the recorded bid, meets the floor
/// computed from the immediately preceding committed state, and becomes
/// the recorded bid itself.
pub proof fn lemma_bid_strictly_increases(m: LedgerModel, req: PlaceBid, now: i64)
    requires
        m.has_auction(req.asset_ref),
        bid_outcome(m, req, now) is Ok,
    ensures
        bid_post(m, req, now).record(req.asset_ref).current_bid > m.record(
            req.asset_ref,
        ).current_bid,
        req.amount >= m.record(req.asset_ref).min_bid(),
        bid_post(m, req, now).record(req.asset_ref).current_bid == req.amount,
{
}

/// Between commits the custody register of an unsettled auction holds
/// exactly the current bid, and after settlement it holds nothing.  The
/// lemmas `lemma_create_preserves_wf`, `lemma_bid_preserves_wf` and
/// `lemma_settle_preserves_wf` show that every operation keeps `wf`, so
/// this holds in every reachable state.
pub proof fn lemma_custody_matches_bid(m: LedgerModel, asset: u64)
    requires
        m.wf(),
        m.has_auction(asset),
    ensures
        !m.record(asset).settled ==> m.escrow(asset) == m.record(asset).current_bid,
        m.record(asset).settled ==> m.escrow(asset) == 0,
{
}

/// The ledger model after the bids in `calls`, each paired with the
/// ledger time of its submission, have been applied in order.
pub open spec fn bids_applied(m: LedgerModel, calls: Seq<(PlaceBid, i64)>) -> LedgerModel
    decreases calls.len(),
{
    if calls.len() == 0 {
        m
    } else {
        bid_post(bids_applied(m, calls.drop_last()), calls.last().0, calls.last().1)
    }
}

/// Every bid in `calls` is accepted by the state its predecessors leave.
pub open spec fn bids_accepted(m: LedgerModel, calls: Seq<(PlaceBid, i64)>) -> bool
    decreases calls.len(),
{
    if calls.len() == 0 {
        true
    } else {
        bids_accepted(m, calls.drop_last()) && bid_outcome(
            bids_applied(m, calls.drop_last()),
            calls.last().0,
            calls.last().1,
        ) is Ok
    }
}

/// Every bid in `calls` addresses the auction on `asset`.
pub open spec fn bids_address(asset: u64, calls: Seq<(PlaceBid, i64)>) -> bool {
    forall|k: int| 0 <= k < calls.len() ==> (#[trigger] calls[k]).0.asset_ref == asset
}

proof fn lemma_bids_applied_keeps_auction(m: LedgerModel, asset: u64, calls: Seq<(PlaceBid, i64)>)
    requires
        m.has_auction(asset),
    ensures
        bids_applied(m, calls).has_auction(asset),
    decreases calls.len(),
{
    if calls.len() > 0 {
        lemma_bids_applied_keeps_auction(m, asset, calls.drop_last());
    }
}

proof fn lemma_bids_accepted_prefix(m: LedgerModel, calls: Seq<(PlaceBid, i64)>, j: int)
    requires
        bids_accepted(m, calls),
        0 <= j <= calls.len(),
    ensures
        bids_accepted(m, calls.take(j)),
    decreases calls.len() - j,
{
    if j == calls.len() {
        assert(calls.take(j) =~= calls);
    } else {
        lemma_bids_accepted_prefix(m, calls, j + 1);
        assert(calls.take(j + 1).drop_last() =~= calls.take(j));
    }
}

/// Along any sequence of bids on one auction that the state machine
/// accepts, the recorded bid strictly increases at every step, and every
/// accepted amount meets the floor computed from the immediately
/// preceding committed state.
pub proof fn lemma_bid_sequences_raise_the_bid(
    m: LedgerModel,
    asset: u64,
    calls: Seq<(PlaceBid, i64)>,
    i: int,
)
    requires
        m.has_auction(asset),
        bids_address(asset, calls),
        bids_accepted(m, calls),
        0 <= i < calls.len(),
    ensures
        bids_applied(m, calls.take(i + 1)).record(asset).current_bid > bids_applied(
            m,
            calls.take(i),
        ).record(asset).current_bid,
        calls[i].0.amount >= bids_applied(m, calls.take(i)).record(asset).min_bid(),
{
    lemma_bids_accepted_prefix(m, calls, i + 1);
    lemma_bids_applied_keeps_auction(m, asset, calls.take(i));
    assert(calls.take(i + 1).drop_last() =~= calls.take(i));
    let prior = bids_applied(m, calls.take(i));
    assert(calls.take(i + 1).last() == calls[i]);
    lemma_bid_strictly_increases(prior, calls[i].0, calls[i].1);
}

/// Any sequence of accepted bids on one auction keeps the ledger
/// invariants — in particular, the custody register tracks the rising
/// bid at every point along the way.
pub proof fn lemma_bid_sequences_keep_wf(m: LedgerModel, asset: u64, calls: Seq<(PlaceBid, i64)>)
    requires
        m.wf(),
        m.has_auction(asset),
        bids_address(asset, calls),
        bids_accepted(m, calls),
    ensures
        bids_applied(m, calls).wf(),
    decreases calls.len(),
{
    if calls.len() > 0 {
        assert forall|k: int| 0 <= k < calls.drop_last().len() implies (#[trigger] calls.drop_last()[k]).0.asset_ref
            == asset by {
            assert(calls.drop_last()[k] == calls[k]);
        }
        lemma_bid_sequences_keep_wf(m, asset, calls.drop_last());
        lemma_bids_applied_keeps_auction(m, asset, calls.drop_last());
        lemma_bid_preserves_wf(bids_applied(m, calls.drop_last()), calls.last().0, calls.last().1);
        assert(calls.last().0.asset_ref == asset);
    }
}

/// Settle is terminal in effect: after a successful Settle, any further
/// Settle on the same record fails with `AlreadySettled` and changes
/// nothing, whatever its payout target and whenever it is called.
pub proof fn lemma_settle_terminal(
    m: LedgerModel,
    req: SettleAuction,
    now: i64,
    req2: SettleAuction,
    now2: i64,
)
    requires
        m.has_auction(req.asset_ref),
        settle_outcome(m, req, now) is Ok,
        req2.asset_ref == req.asset_ref,
    ensures
        settle_outcome(settle_post(m, req, now), req2, now2) == Result::<
            (),
            AuctionError,
        >::Err(AuctionError::AlreadySettled),
        settle_post(settle_post(m, req, now), req2, now2) == settle_post(m, req, now),
{
}

/// A settled record rejects every further Settle with `AlreadySettled`,
/// leaving the state untouched.
pub proof fn lemma_settle_rejected_when_settled(m: LedgerModel, req: SettleAuction, now: i64)
    requires
        m.has_auction(req.asset_ref),
        m.record(req.asset_ref).settled,
    ensures
        settle_outcome(m, req, now) == Result::<(), AuctionError>::Err(
            AuctionError::AlreadySettled,
        ),
        settle_post(m, req, now) == m,
{
}

/// A bid placed at or after the deadline of an open auction fails with
/// `AuctionEnded`, whatever its amount, and changes nothing.
pub proof fn lemma_bid_after_deadline_rejected(m: LedgerModel, req: PlaceBid, now: i64)
    requires
        m.has_auction(req.asset_ref),
        !m.record(req.asset_ref).settled,
        now >= m.record(req.asset_ref).end_time,
    ensures
        bid_outcome(m, req, now) == Result::<(), AuctionError>::Err(AuctionError::AuctionEnded),
        bid_post(m, req, now) == m,
{
}

/// Refund correctness: when an accepted bid outbids a different party,
/// the previous leader's balance grows by exactly their standing bid, and
/// the new bidder's balance shrinks by exactly the new amount.
pub proof fn lemma_refund_exact(m: LedgerModel, req: PlaceBid, now: i64)
    requires
        m.wf(),
        m.has_auction(req.asset_ref),
        bid_outcome(m, req, now) is Ok,
        bid_funds_ok(m, req),
        m.record(req.asset_ref).current_bid > 0,
        req.previous_bidder != req.bidder,
    ensures
        bid_post(m, req, now).bal(req.previous_bidder) == m.bal(req.previous_bidder) + m.record(
            req.asset_ref,
        ).current_bid,
        bid_post(m, req, now).bal(req.bidder) == m.bal(req.bidder) - req.amount,
{
}

/// A successful Settle empties the custody register and grows the
/// seller's balance by exactly the winning bid — by nothing when no bid
/// was ever placed.
pub proof fn lemma_settle_pays_seller(m: LedgerModel, req: SettleAuction, now: i64)
    requires
        m.wf(),
        m.has_auction(req.asset_ref),
        settle_outcome(m, req, now) is Ok,
        settle_funds_ok(m, req),
    ensures
        settle_post(m, req, now).escrow(req.asset_ref) == 0,
        settle_post(m, req, now).bal(m.record(req.asset_ref).seller) == m.bal(
            m.record(req.asset_ref).seller,
        ) + m.record(req.asset_ref).current_bid,
{
}

/// The fields set at creation are immutable: an accepted bid changes only
/// the recorded bid and bidder, and leaves the record unsettled.
pub proof fn lemma_bid_keeps_created_fields(m: LedgerModel, req: PlaceBid, now: i64)
    requires
        m.has_auction(req.asset_ref),
        bid_outcome(m, req, now) is Ok,
    ensures
        ({
            let r = m.record(req.asset_ref);
            let p = bid_post(m, req, now).record(req.asset_ref);
            &&& p.seller == r.seller
            &&& p.asset_ref == r.asset_ref
            &&& p.start_price == r.start_price
            &&& p.end_time == r.end_time
            &&& p.created_at == r.created_at
            &&& p.settled == r.settled
        }),
{
}

/// Settle changes nothing in the record but the settled flag.
pub proof fn lemma_settle_only_sets_the_flag(m: LedgerModel, req: SettleAuction, now: i64)
    requires
        m.has_auction(req.asset_ref),
        settle_outcome(m, req, now) is Ok,
    ensures
        ({
            let r = m.record(req.asset_ref);
            let p = settle_post(m, req, now).record(req.asset_ref);
            &&& p.seller == r.seller
            &&& p.asset_ref == r.asset_ref
            &&& p.start_price == r.start_price
            &&& p.current_bid == r.current_bid
            &&& p.current_bidder == r.current_bidder
            &&& p.end_time == r.end_time
            &&& p.created_at == r.created_at
            &&& p.settled
        }),
{
}

/// No operation touches a record, a custody register or an account it
/// does not name: Create reaches only the new record and its register.
pub proof fn lemma_create_frame(m: LedgerModel, req: CreateAuction, now: i64)
    ensures
        forall|b: u64|
            b != req.asset_ref ==> #[trigger] create_post(m, req, now).has_auction(b)
                == m.has_auction(b),
        forall|b: u64|
            b != req.asset_ref && m.has_auction(b) ==> #[trigger] create_post(
                m,
                req,
                now,
            ).record(b) == m.record(b),
        forall|b: u64|
            b != req.asset_ref ==> #[trigger] create_post(m, req, now).escrow(b) == m.escrow(b),
        create_post(m, req, now).balances == m.balances,
{
}

/// PlaceBid reaches only the addressed auction, its custody register, the
/// named refund target and the bidder.
pub proof fn lemma_bid_frame(m: LedgerModel, req: PlaceBid, now: i64)
    requires
        m.has_auction(req.asset_ref),
    ensures
        forall|b: u64|
            b != req.asset_ref ==> #[trigger] bid_post(m, req, now).has_auction(b)
                == m.has_auction(b),
        forall|b: u64|
            b != req.asset_ref && m.has_auction(b) ==> #[trigger] bid_post(m, req, now).record(b)
                == m.record(b),
        forall|b: u64|
            b != req.asset_ref ==> #[trigger] bid_post(m, req, now).escrow(b) == m.escrow(b),
        forall|acct: u64|
            acct != req.previous_bidder && acct != req.bidder ==> #[trigger] bid_post(
                m,
                req,
                now,
            ).bal(acct) == m.bal(acct),
{
}

/// Settle reaches only the addressed auction, its custody register and
/// the seller's account.
pub proof fn lemma_settle_frame(m: LedgerModel, req: SettleAuction, now: i64)
    requires
        m.has_auction(req.asset_ref),
    ensures
        forall|b: u64|
            b != req.asset_ref ==> #[trigger] settle_post(m, req, now).has_auction(b)
                == m.has_auction(b),
        forall|b: u64|
            b != req.asset_ref && m.has_auction(b) ==> #[trigger] settle_post(
                m,
                req,
                now,
            ).record(b) == m.record(b),
        forall|b: u64|
            b != req.asset_ref ==> #[trigger] settle_post(m, req, now).escrow(b) == m.escrow(b),
        forall|acct: u64|
            acct != m.record(req.asset_ref).seller ==> #[trigger] settle_post(m, req, now).bal(
                acct,
            ) == m.bal(acct),
{
}

} // verus!

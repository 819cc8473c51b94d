//! The auction record and the three request shapes addressed to it.

use vstd::prelude::*;

verus! {

/// The durable state of one auction.
///
/// Identities (seller, asset, bidder) are the plain key values under which
/// the ledger stores its accounts; the absence of a bidder is an explicit
/// `None`, not a reserved sentinel key.
#[derive(Clone, Copy, Debug, PartialEq, Eq)]
pub struct AuctionAccount {
    /// Identity of the creator; set once, immutable.
    pub seller: u64,
    /// Identity of the auctioned asset; immutable.
    pub asset_ref: u64,
    /// Minimum acceptable first bid; immutable.
    pub start_price: u64,
    /// Highest accepted bid so far; 0 means no bid yet.
    pub current_bid: u64,
    /// Holder of `current_bid`; `None` exactly when `current_bid == 0`.
    pub current_bidder: Option<u64>,
    /// Deadline in ledger time units; bidding closes at this instant.
    pub end_time: i64,
    /// False until Settle succeeds; then permanently true.
    pub settled: bool,
    /// Ledger time of creation; informational only.
    pub created_at: i64,
}

impl AuctionAccount {
    /// A bid of zero and the absence of a bidder go together.
    pub open spec fn wf(self) -> bool {
        self.current_bid == 0 <==> self.current_bidder is None
    }

    /// The least amount the next bid must reach: the start price while no
    /// bid stands, afterwards one unit above the current bid.
    ///
    /// An accepted bid is always positive — a zero bid could not be told
    /// apart from the absence of a bid — so when the start price is zero
    /// the floor for the first bid is one unit.
    pub open spec fn min_bid(self) -> int {
        if self.current_bid > 0 {
            self.current_bid + 1
        } else if self.start_price > 0 {
            self.start_price as int
        } else {
            1
        }
    }
}

/// Request to open an auction: one new record for `asset_ref`, with the
/// authenticated caller `seller` as its owner.
#[derive(Clone, Copy, Debug, PartialEq, Eq)]
pub struct CreateAuction {
    /// Identity of the asset to auction; the record's address derives from it.
    pub asset_ref: u64,
    /// Authenticated identity of the caller, recorded as the seller.
    pub seller: u64,
    /// Minimum acceptable first bid; zero lets the first bid set the floor.
    pub start_price: u64,
    /// Absolute deadline after which bidding is closed.
    pub end_time: i64,
}

/// Request to bid on an auction: the authenticated `bidder` offers `amount`,
/// and names the account to which the standing bid is to be refunded.
#[derive(Clone, Copy, Debug, PartialEq, Eq)]
pub struct PlaceBid {
    /// Identity of the asset whose auction is addressed.
    pub asset_ref: u64,
    /// Authenticated identity of the caller placing the bid.
    pub bidder: u64,
    /// Caller-named refund target; it must equal the stored leading bidder.
    pub previous_bidder: u64,
    /// The offered bid.
    pub amount: u64,
}

/// Request to settle an auction after its deadline, paying the custody
/// balance out to the named seller account.
#[derive(Clone, Copy, Debug, PartialEq, Eq)]
pub struct SettleAuction {
    /// Identity of the asset whose auction is addressed.
    pub asset_ref: u64,
    /// Caller-named payout target; it must equal the stored seller.
    pub seller: u64,
}

} // verus!

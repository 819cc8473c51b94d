//! The error codes of the auction state machine.

use vstd::prelude::*;

verus! {

/// Why an operation was rejected.  Every failure aborts the whole operation
/// with no state change, and each precondition failure has its own stable
/// code so that a client can branch on it.
#[derive(Clone, Copy, Debug, PartialEq, Eq)]
pub enum AuctionError {
    /// Create was asked for an asset that already has an auction record.
    AlreadyExists,
    /// PlaceBid or Settle was invoked after settlement.
    AlreadySettled,
    /// PlaceBid was invoked at or after the deadline.
    AuctionEnded,
    /// Settle was invoked before the deadline.
    AuctionNotEnded,
    /// The bid does not reach the floor of the current state.
    BidTooLow,
    /// A caller-supplied account does not match the one the record names:
    /// the refund target is not the stored leading bidder, or the payout
    /// target is not the stored seller.
    Unauthorized,
}

impl AuctionError {
    /// The diagnostic text of this code.
    pub open spec fn message_spec(self) -> Seq<char> {
        match self {
            AuctionError::AlreadyExists => "Auction already exists"@,
            AuctionError::AlreadySettled => "Auction already settled"@,
            AuctionError::AuctionEnded => "Auction has ended"@,
            AuctionError::AuctionNotEnded => "Auction has not ended yet"@,
            AuctionError::BidTooLow => "Bid too low"@,
            AuctionError::Unauthorized => "Unauthorized account"@,
        }
    }

    /// The diagnostic text of this code.
    pub fn message(&self) -> (m: &'static str)
        ensures
            m@ == self.message_spec(),
    {
        match self {
            AuctionError::AlreadyExists => "Auction already exists",
            AuctionError::AlreadySettled => "Auction already settled",
            AuctionError::AuctionEnded => "Auction has ended",
            AuctionError::AuctionNotEnded => "Auction has not ended yet",
            AuctionError::BidTooLow => "Bid too low",
            AuctionError::Unauthorized => "Unauthorized account",
        }
    }
}

} // verus!

//! An escrow-backed ascending-price auction, run as state transitions on a
//! keyed ledger.
//!
//! A seller lists an asset by its identity, bidders submit strictly
//! increasing bids whose funds are held in a custody register, and once the
//! deadline has passed the highest bid is released to the seller.  The
//! ledger itself — atomic application of one operation, authenticated
//! identities, a trusted clock — is the caller's responsibility: every
//! operation here takes the current ledger time as an argument and works on
//! plain identity values that the caller has already authenticated.

pub mod errors;
pub mod laws;
pub mod ledger;
pub mod machine;
pub mod record;

pub use errors::AuctionError;
pub use ledger::Ledger;
pub use ledger::LedgerModel;
pub use machine::create_auction;
pub use machine::place_bid;
pub use machine::settle_auction;
pub use record::AuctionAccount;
pub use record::CreateAuction;
pub use record::PlaceBid;
pub use record::SettleAuction;

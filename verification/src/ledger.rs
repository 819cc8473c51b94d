//! A keyed store standing in for the shared ledger: auction records and
//! custody balances addressed by the asset identity, and native-currency
//! accounts addressed by the holder's identity.

use std::collections::HashMap;
use vstd::prelude::*;

use crate::record::AuctionAccount;

verus! {

/// The mathematical content of a [`Ledger`]: three maps from plain
/// identity keys to what the ledger stores under them.
#[verifier::ext_equal]
pub struct LedgerModel {
    /// One auction record per asset identity.
    pub records: Map<u64, AuctionAccount>,
    /// The custody register of each auction, addressed like its record.
    pub escrows: Map<u64, u64>,
    /// Native-currency balance of each ordinary account.
    pub balances: Map<u64, u64>,
}

/// Balance held under `account`, an absent account holding zero.
pub open spec fn bal_in(balances: Map<u64, u64>, account: u64) -> u64 {
    if balances.contains_key(account) {
        balances[account]
    } else {
        0
    }
}

impl LedgerModel {
    /// Balance of an ordinary account; an account never seen holds zero.
    pub open spec fn bal(self, account: u64) -> u64 {
        bal_in(self.balances, account)
    }

    /// Custody balance of the auction on `asset`; zero when absent.
    pub open spec fn escrow(self, asset: u64) -> u64 {
        bal_in(self.escrows, asset)
    }

    /// Whether an auction record exists at the address derived from `asset`.
    pub open spec fn has_auction(self, asset: u64) -> bool {
        self.records.contains_key(asset)
    }

    /// The auction record stored for `asset`.
    pub open spec fn record(self, asset: u64) -> AuctionAccount {
        self.records[asset]
    }

    /// The invariants every committed state satisfies: each record sits at
    /// the address derived from its asset, has a custody register of its
    /// own, a bidder exactly when it has a bid, and the custody register
    /// holds the current bid until settlement and nothing afterwards.
    pub open spec fn wf(self) -> bool {
        &&& self.escrows.dom() == self.records.dom()
        &&& forall|a: u64| self.records.contains_key(a) ==> {
            let r = #[trigger] self.records[a];
            &&& r.asset_ref == a
            &&& r.wf()
            &&& self.escrows[a] == if r.settled {
                0u64
            } else {
                r.current_bid
            }
        }
    }
}

/// The ledger as the operations touch it.  Its fields stay private: the
/// public constructors and operations keep [`LedgerModel::wf`] intact.
pub struct Ledger {
    pub(crate) records: HashMap<u64, AuctionAccount>,
    pub(crate) escrows: HashMap<u64, u64>,
    pub(crate) balances: HashMap<u64, u64>,
}

impl View for Ledger {
    type V = LedgerModel;

    open(crate) spec fn view(&self) -> LedgerModel {
        LedgerModel { records: self.records@, escrows: self.escrows@, balances: self.balances@ }
    }
}

impl Ledger {
    /// The invariants of the stored state; see [`LedgerModel::wf`].
    pub open spec fn wf(self) -> bool {
        self@.wf()
    }

    /// An empty ledger: no auctions, no accounts.
    pub fn new() -> (l: Ledger)
        ensures
            l@.records == Map::<u64, AuctionAccount>::empty(),
            l@.escrows == Map::<u64, u64>::empty(),
            l@.balances == Map::<u64, u64>::empty(),
            l.wf(),
    {
        let l = Ledger {
            records: HashMap::new(),
            escrows: HashMap::new(),
            balances: HashMap::new(),
        };
        proof {
            assert(l@.escrows.dom() =~= l@.records.dom());
        }
        l
    }

    /// Put `amount` units of native currency into `account`, creating the
    /// account if the ledger has not seen it yet.
    pub fn deposit(&mut self, account: u64, amount: u64)
        requires
            old(self).wf(),
            old(self)@.bal(account) + amount <= u64::MAX,
        ensures
            final(self).wf(),
            final(self)@.records == old(self)@.records,
            final(self)@.escrows == old(self)@.escrows,
            final(self)@.balances == old(self)@.balances.insert(
                account,
                (old(self)@.bal(account) + amount) as u64,
            ),
    {
        let held: u64 = self.balance_of(account);
        self.balances.insert(account, held + amount);
    }

    /// Balance of an ordinary account; an account never seen holds zero.
    pub fn balance_of(&self, account: u64) -> (b: u64)
        ensures
            b == self@.bal(account),
    {
        match self.balances.get(&account) {
            Some(v) => *v,
            None => 0,
        }
    }

    /// Custody balance of the auction on `asset`; zero when absent.
    pub fn escrow_balance(&self, asset: u64) -> (b: u64)
        ensures
            b == self@.escrow(asset),
    {
        match self.escrows.get(&asset) {
            Some(v) => *v,
            None => 0,
        }
    }

    /// Whether an auction record exists at the address derived from `asset`.
    pub fn has_auction(&self, asset: u64) -> (b: bool)
        ensures
            b == self@.has_auction(asset),
    {
        self.records.contains_key(&asset)
    }

    /// The auction record stored for `asset`, if one exists.
    pub fn auction(&self, asset: u64) -> (r: Option<AuctionAccount>)
        ensures
            r == if self@.has_auction(asset) {
                Some(self@.record(asset))
            } else {
                None::<AuctionAccount>
            },
    {
        match self.records.get(&asset) {
            Some(rec) => Some(*rec),
            None => None,
        }
    }
}

} // verus!

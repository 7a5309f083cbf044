//! An in-memory auction store offering the storage operations the service
//! relies on, each specified and verified.
//!
//! The one operation that matters for correctness under concurrency is
//! [`AuctionStore::find_one_and_accept_bid`]: the whole bid decision —
//! check the acceptance predicate against the current record, append the bid
//! and install it as winner — is a single call, never a separate
//! read-compare-write sequence, so submissions serialized by the store can
//! neither race past each other nor produce two winners.

use vstd::prelude::*;

use crate::auction::{Auction, AuctionView};
use crate::bid::Bid;

verus! {

/// Whether an auction record matches a lookup by identifier.
pub open spec fn matches_id(a: AuctionView, id: u128) -> bool {
    a.id == id
}

/// Whether an auction record matches the bid-acceptance lookup: the
/// identifier is the targeted one and the record admits the bid.
pub open spec fn matches_bid(a: AuctionView, id: u128, amount: int, now: int) -> bool {
    a.id == id && a.admits(amount, now)
}

/// Whether no record of the collection matches the bid-acceptance lookup:
/// the one situation the engine reports as `NotAdmissible`.
pub open spec fn no_bid_match(s: Seq<AuctionView>, id: u128, amount: int, now: int) -> bool {
    forall|i: int| 0 <= i < s.len() ==> !matches_bid(#[trigger] s[i], id, amount, now)
}

/// The collection of auction records.
///
/// Records are kept in insertion order; lookups return the first match, the
/// way a straightforward scan of a document collection would.
pub struct AuctionStore {
    auctions: Vec<Auction>,
}

impl View for AuctionStore {
    type V = Seq<AuctionView>;

    closed spec fn view(&self) -> Seq<AuctionView> {
        self.auctions@.map(|i: int, a: Auction| a@)
    }
}

impl AuctionStore {
    /// Every record in the store satisfies the auction invariant.
    pub open spec fn wf(self) -> bool {
        forall|i: int| 0 <= i < self@.len() ==> (#[trigger] self@[i]).wf()
    }

    /// An empty store.
    pub fn new() -> (r: AuctionStore)
        ensures
            r@ =~= Seq::<AuctionView>::empty(),
            r.wf(),
    {
        AuctionStore { auctions: Vec::new() }
    }

    /// How many records the store holds.
    pub fn count(&self) -> (r: usize)
        ensures
            r == self@.len(),
    {
        self.auctions.len()
    }

    /// Append a record to the store.
    pub fn insert_one(&mut self, a: Auction)
        ensures
            final(self)@ =~= old(self)@.push(a@),
    {
        self.auctions.push(a);
    }

    /// Return a copy of the first record with the given identifier, or
    /// `None` when no record carries it.
    pub fn find_one(&self, id: u128) -> (r: Option<Auction>)
        ensures
            match r {
                Some(a) => exists|i: int|
                    0 <= i < self@.len() && a@ == self@[i] && #[trigger] matches_id(self@[i], id)
                        && (forall|j: int| 0 <= j < i ==> !matches_id(self@[j], id)),
                None => forall|i: int| 0 <= i < self@.len() ==> !matches_id(self@[i], id),
            },
    {
        let mut i: usize = 0;
        while i < self.auctions.len()
            invariant
                i <= self.auctions.len(),
                forall|j: int| 0 <= j < i ==> !matches_id(self@[j], id),
            decreases self.auctions.len() - i,
        {
            if self.auctions[i].id == id {
                let a = self.auctions[i].clone();
                proof {
                    assert(a@ == self@[i as int]);
                    assert(matches_id(self@[i as int], id));
                }
                return Some(a);
            }
            i = i + 1;
        }
        None
    }

    /// Return a copy of every record, in store order.
    pub fn find_all(&self) -> (r: Vec<Auction>)
        ensures
            r@.len() == self@.len(),
            forall|i: int| 0 <= i < r@.len() ==> (#[trigger] r@[i])@ == self@[i],
    {
        let mut res: Vec<Auction> = Vec::new();
        let mut i: usize = 0;
        while i < self.auctions.len()
            invariant
                i <= self.auctions.len(),
                res@.len() == i,
                forall|j: int| 0 <= j < i ==> (#[trigger] res@[j])@ == self@[j],
            decreases self.auctions.len() - i,
        {
            res.push(self.auctions[i].clone());
            i = i + 1;
        }
        res
    }

    /// Atomically find the first record with the given identifier and
    /// replace its administrative fields — name, starting price, end date —
    /// returning a copy of the record after the update. The bid history and
    /// the winner of every record are left untouched: they belong to the
    /// bid-acceptance engine alone.
    pub fn find_one_and_update_fields(
        &mut self,
        id: u128,
        name: String,
        starting_price: u64,
        end_date: i64,
    ) -> (r: Option<Auction>)
        requires
            old(self).wf(),
        ensures
            final(self).wf(),
            match r {
                Some(a) => exists|i: int|
                    0 <= i < old(self)@.len() && #[trigger] matches_id(old(self)@[i], id)
                        && (forall|j: int| 0 <= j < i ==> !matches_id(old(self)@[j], id))
                        && a@ == old(self)@[i].with_fields(name@, starting_price as int, end_date as int)
                        && final(self)@ =~= old(self)@.update(i, a@),
                None => final(self)@ =~= old(self)@
                    && (forall|i: int| 0 <= i < old(self)@.len() ==> !matches_id(old(self)@[i], id)),
            },
    {
        let mut i: usize = 0;
        while i < self.auctions.len()
            invariant
                i <= self.auctions.len(),
                self@ == old(self)@,
                old(self).wf(),
                forall|j: int| 0 <= j < i ==> !matches_id(old(self)@[j], id),
            decreases self.auctions.len() - i,
        {
            if self.auctions[i].id == id {
                let mut a = self.auctions[i].clone();
                a.name = name.clone();
                a.starting_price = starting_price;
                a.end_date = end_date;
                let snapshot = a.clone();
                proof {
                    assert(old(self)@[i as int].wf());
                    assert(matches_id(old(self)@[i as int], id));
                    assert(snapshot@ =~= old(self)@[i as int].with_fields(
                        name@,
                        starting_price as int,
                        end_date as int,
                    ));
                    assert(snapshot@.wf());
                }
                self.auctions[i] = a;
                proof {
                    assert(self@ =~= old(self)@.update(i as int, snapshot@));
                    assert(forall|k: int| 0 <= k < self@.len() ==> (#[trigger] self@[k]).wf());
                }
                return Some(snapshot);
            }
            i = i + 1;
        }
        None
    }

    /// Atomically find the first record with the given identifier, remove
    /// it, and return the removed record; the other records keep their
    /// order.
    pub fn find_one_and_delete(&mut self, id: u128) -> (r: Option<Auction>)
        requires
            old(self).wf(),
        ensures
            final(self).wf(),
            match r {
                Some(a) => exists|i: int|
                    0 <= i < old(self)@.len() && a@ == old(self)@[i] && #[trigger] matches_id(old(self)@[i], id)
                        && (forall|j: int| 0 <= j < i ==> !matches_id(old(self)@[j], id))
                        && final(self)@ =~= old(self)@.remove(i),
                None => final(self)@ =~= old(self)@
                    && (forall|i: int| 0 <= i < old(self)@.len() ==> !matches_id(old(self)@[i], id)),
            },
    {
        let mut i: usize = 0;
        while i < self.auctions.len()
            invariant
                i <= self.auctions.len(),
                self@ == old(self)@,
                old(self).wf(),
                forall|j: int| 0 <= j < i ==> !matches_id(old(self)@[j], id),
            decreases self.auctions.len() - i,
        {
            if self.auctions[i].id == id {
                let a = self.auctions.remove(i);
                proof {
                    assert(a@ == old(self)@[i as int]);
                    assert(matches_id(old(self)@[i as int], id));
                    assert(self@ =~= old(self)@.remove(i as int));
                    assert(forall|k: int| 0 <= k < self@.len() ==> (#[trigger] self@[k]).wf());
                }
                return Some(a);
            }
            i = i + 1;
        }
        None
    }

    /// The atomic conditional update at the heart of the bid-acceptance
    /// engine.
    ///
    /// Find the first record that both carries the targeted identifier and
    /// admits the bid — not ended, amount at or above the floor, amount
    /// strictly above the current winner — and, in the same indivisible
    /// step, append the bid to its history and install it as the winner,
    /// returning a copy of the record after the update. When no record
    /// matches, the store is unchanged and nothing is returned; the caller
    /// cannot tell which clause of the predicate failed, and must not try to
    /// find out with a second, racy read.
    pub fn find_one_and_accept_bid(&mut self, id: u128, bid: Bid, now: i64) -> (r: Option<
        Auction,
    >)
        requires
            old(self).wf(),
        ensures
            final(self).wf(),
            match r {
                Some(a) => exists|i: int|
                    0 <= i < old(self)@.len()
                        && #[trigger] matches_bid(old(self)@[i], id, bid@.amount, now as int)
                        && (forall|j: int| 0 <= j < i ==> !matches_bid(old(self)@[j], id, bid@.amount, now as int))
                        && a@ == old(self)@[i].accept(bid@)
                        && final(self)@ =~= old(self)@.update(i, a@),
                None => final(self)@ =~= old(self)@
                    && no_bid_match(old(self)@, id, bid@.amount, now as int),
            },
    {
        let mut i: usize = 0;
        while i < self.auctions.len()
            invariant
                i <= self.auctions.len(),
                self@ == old(self)@,
                old(self).wf(),
                forall|j: int| 0 <= j < i ==> !matches_bid(old(self)@[j], id, bid@.amount, now as int),
            decreases self.auctions.len() - i,
        {
            if self.auctions[i].id == id && self.auctions[i].check_admits(bid.amount, now) {
                let mut a = self.auctions[i].clone();
                a.bids.push(bid.clone());
                a.winner = Some(bid.clone());
                let snapshot = a.clone();
                proof {
                    assert(old(self)@[i as int].wf());
                    assert(matches_bid(old(self)@[i as int], id, bid@.amount, now as int));
                    crate::auction::lemma_accept_preserves_wf(old(self)@[i as int], bid@, now as int);
                    assert(snapshot@ =~= old(self)@[i as int].accept(bid@));
                }
                self.auctions[i] = a;
                proof {
                    assert(self@ =~= old(self)@.update(i as int, snapshot@));
                    assert(forall|k: int| 0 <= k < self@.len() ==> (#[trigger] self@[k]).wf());
                }
                return Some(snapshot);
            }
            i = i + 1;
        }
        None
    }
}

} // verus!

//! The auction record, its well-formedness invariant, and the
//! bid-acceptance rules stated over the mathematical model.

use vstd::prelude::*;

use crate::bid::{Bid, BidView};
use crate::clock::now_timestamp;
use crate::db::{matches_id, AuctionStore};
use crate::errors::AuctionError;
use crate::ids::{fresh_id, parse_auction_id, spec_parse_auction_id};

verus! {

/// Mathematical model of an auction record.
#[verifier::ext_equal]
pub struct AuctionView {
    pub id: u128,
    pub name: Seq<char>,
    pub bids: Seq<BidView>,
    pub starting_price: int,
    pub winner: Option<BidView>,
    pub end_date: int,
}

/// A timed auction.
///
/// `bids` is the append-only history of accepted bids in acceptance order;
/// `winner` is a copy of the currently leading bid, `None` until a first bid
/// is accepted. Both fields are owned by the bid-acceptance engine: the
/// lifecycle operations never touch them.
#[derive(Debug, PartialEq, Eq)]
pub struct Auction {
    pub id: u128,
    pub name: String,
    pub bids: Vec<Bid>,
    pub starting_price: u64,
    pub winner: Option<Bid>,
    pub end_date: i64,
}

impl View for Auction {
    type V = AuctionView;

    open spec fn view(&self) -> AuctionView {
        AuctionView {
            id: self.id,
            name: self.name@,
            bids: self.bids@.map(|i: int, b: Bid| b@),
            starting_price: self.starting_price as int,
            winner: match self.winner {
                Some(b) => Some(b@),
                None => None,
            },
            end_date: self.end_date as int,
        }
    }
}

impl AuctionView {
    /// The record invariant maintained by every operation of the library:
    /// accepted bids strictly increase in amount, and `winner` is exactly the
    /// last accepted bid, or absent while no bid has been accepted.
    ///
    /// Together these pin the winner down as the unique maximum-amount
    /// element of the bid history.
    pub open spec fn wf(self) -> bool {
        &&& (forall|i: int, j: int|
            0 <= i < j < self.bids.len() ==> #[trigger] self.bids[i].amount < #[trigger] self.bids[j].amount)
        &&& (self.bids.len() == 0 <==> self.winner is None)
        &&& (self.bids.len() > 0 ==> self.winner == Some(self.bids.last()))
    }

    /// The bid-acceptance predicate: the exact condition under which a bid of
    /// `amount` submitted at time `now` is admitted against this record.
    ///
    /// This is the predicate of the one atomic conditional update the engine
    /// issues: the auction has not ended — the end date itself is the last
    /// instant that still accepts —, the amount meets the floor, and the
    /// amount strictly exceeds the current winner, if any. Equal amounts
    /// never displace a winner.
    pub open spec fn admits(self, amount: int, now: int) -> bool {
        &&& now <= self.end_date
        &&& self.starting_price <= amount
        &&& match self.winner {
            None => true,
            Some(w) => w.amount < amount,
        }
    }

    /// The state transition performed by an accepted bid: append it to the
    /// history and copy it into `winner`, as one indivisible step.
    pub open spec fn accept(self, b: BidView) -> AuctionView {
        AuctionView { bids: self.bids.push(b), winner: Some(b), ..self }
    }

    /// The administrative update: replace the mutable fields, leaving `id`,
    /// `bids` and `winner` untouched.
    pub open spec fn with_fields(self, name: Seq<char>, starting_price: int, end_date: int) -> AuctionView {
        AuctionView { name: name, starting_price: starting_price, end_date: end_date, ..self }
    }
}

/// Acceptance preserves the record invariant: a bid admitted by the
/// acceptance predicate leaves the history strictly increasing with the new
/// bid as the winner.
pub proof fn lemma_accept_preserves_wf(a: AuctionView, b: BidView, now: int)
    requires
        a.wf(),
        a.admits(b.amount, now),
    ensures
        a.accept(b).wf(),
{
    let post = a.accept(b);
    if a.bids.len() > 0 {
        let w = a.winner.unwrap();
        assert(w == a.bids.last());
        assert(forall|i: int|
            0 <= i < a.bids.len() - 1 ==> #[trigger] a.bids[i].amount < a.bids.last().amount);
        assert(forall|i: int|
            0 <= i < post.bids.len() - 1 ==> #[trigger] post.bids[i].amount < b.amount);
    }
}

/// The winner, when present, is the unique maximum of the bid history: every
/// earlier accepted bid has a strictly smaller amount. Over any sequence of
/// accepted submissions this is what makes the final winner the single
/// maximum-amount admitted bid.
pub proof fn lemma_winner_is_unique_max(a: AuctionView)
    requires
        a.wf(),
        a.winner is Some,
    ensures
        a.bids.len() > 0,
        a.winner == Some(a.bids.last()),
        forall|i: int|
            0 <= i < a.bids.len() - 1 ==> #[trigger] a.bids[i].amount < a.winner.unwrap().amount,
{
}

/// No two distinct entries of the history can both carry the winning amount:
/// there is never a second apparent winner.
pub proof fn lemma_no_two_winners(a: AuctionView, i: int, j: int)
    requires
        a.wf(),
        a.winner is Some,
        0 <= i < a.bids.len(),
        0 <= j < a.bids.len(),
        a.bids[i].amount == a.winner.unwrap().amount,
        a.bids[j].amount == a.winner.unwrap().amount,
    ensures
        i == j,
{
}

/// The record an auction reaches after a whole sequence of bid submissions
/// has been serialized against it, in serialization order: each submission
/// is admitted or refused against the record as it stands when its turn
/// comes, exactly as the engine's atomic conditional update decides it.
pub open spec fn run_submissions(a: AuctionView, subs: Seq<(BidView, int)>) -> AuctionView
    decreases subs.len(),
{
    if subs.len() == 0 {
        a
    } else {
        let prev = run_submissions(a, subs.drop_last());
        if prev.admits(subs.last().0.amount, subs.last().1) {
            prev.accept(subs.last().0)
        } else {
            prev
        }
    }
}

/// Whatever sequence of bid submissions is serialized against a well-formed
/// auction, the record stays well-formed: by [`lemma_winner_is_unique_max`]
/// and [`lemma_no_two_winners`], its final winner is then the unique
/// maximum-amount bid among exactly those submissions that were admitted —
/// no lost update and no second winner, under any interleaving.
pub proof fn lemma_run_submissions_wf(a: AuctionView, subs: Seq<(BidView, int)>)
    requires
        a.wf(),
    ensures
        run_submissions(a, subs).wf(),
    decreases subs.len(),
{
    if subs.len() > 0 {
        lemma_run_submissions_wf(a, subs.drop_last());
        let prev = run_submissions(a, subs.drop_last());
        if prev.admits(subs.last().0.amount, subs.last().1) {
            lemma_accept_preserves_wf(prev, subs.last().0, subs.last().1);
        }
    }
}

/// Acceptance never loses or reorders an accepted entry: the new history is
/// exactly the old one with the accepted bid appended, so every earlier bid
/// keeps its place.
pub proof fn lemma_accept_keeps_history(a: AuctionView, b: BidView)
    ensures
        a.accept(b).bids.len() == a.bids.len() + 1,
        a.accept(b).bids.last() == b,
        forall|i: int| 0 <= i < a.bids.len() ==> a.accept(b).bids[i] == a.bids[i],
{
}

/// A tie never replaces the winner: a bid equal in amount to the current
/// winner is not admitted, whatever the time.
pub proof fn lemma_tie_never_replaces(a: AuctionView, amount: int, now: int)
    requires
        a.winner is Some,
        amount == a.winner.unwrap().amount,
    ensures
        !a.admits(amount, now),
{
}

/// A bid below the starting price is never admitted, whatever the winner
/// state and the time.
pub proof fn lemma_below_floor_never_admitted(a: AuctionView, amount: int, now: int)
    requires
        amount < a.starting_price,
    ensures
        !a.admits(amount, now),
{
}

/// A bid submitted after the end date is never admitted, whatever the amount.
pub proof fn lemma_ended_never_admits(a: AuctionView, amount: int, now: int)
    requires
        now > a.end_date,
    ensures
        !a.admits(amount, now),
{
}

impl Auction {
    /// Executable form of the acceptance predicate, proved equal to
    /// [`AuctionView::admits`].
    pub fn check_admits(&self, amount: i64, now: i64) -> (r: bool)
        ensures
            r == self@.admits(amount as int, now as int),
    {
        now <= self.end_date && amount >= 0 && self.starting_price <= amount as u64 && (
        match &self.winner {
            None => true,
            Some(w) => w.amount < amount,
        })
    }
}

/// Copy a bid history element by element, so that the copy is equal to the
/// original, not merely a clone of it.
fn clone_bids(v: &Vec<Bid>) -> (res: Vec<Bid>)
    ensures
        res@ == v@,
{
    let mut res: Vec<Bid> = Vec::new();
    let mut i: usize = 0;
    while i < v.len()
        invariant
            i <= v.len(),
            res@ =~= v@.subrange(0, i as int),
        decreases v.len() - i,
    {
        res.push(v[i].clone());
        i = i + 1;
    }
    proof {
        assert(res@ =~= v@);
    }
    res
}

impl Clone for Auction {
    fn clone(&self) -> (res: Self)
        ensures
            res@ == self@,
    {
        let res = Auction {
            id: self.id,
            name: self.name.clone(),
            bids: clone_bids(&self.bids),
            starting_price: self.starting_price,
            winner: match &self.winner {
                Some(b) => Some(b.clone()),
                None => None,
            },
            end_date: self.end_date,
        };
        proof {
            assert(res@ =~= self@);
        }
        res
    }
}

/// The record a freshly created auction starts from: empty bid history, no
/// winner.
pub open spec fn fresh_auction(id: u128, name: Seq<char>, starting_price: int, end_date: int) -> AuctionView {
    AuctionView {
        id: id,
        name: name,
        bids: Seq::empty(),
        starting_price: starting_price,
        winner: None,
        end_date: end_date,
    }
}

/// The auction-creation rule, with the time of the request and the fresh
/// identifier as explicit arguments: an end date not strictly in the future
/// is rejected as `InvalidEndDate`; otherwise the new record — empty bid
/// history, no winner — is persisted with a single insert and returned.
pub fn create_auction_at(
    store: &mut AuctionStore,
    name: String,
    starting_price: u64,
    end_date: i64,
    now: i64,
    id: u128,
) -> (r: Result<Auction, AuctionError>)
    requires
        old(store).wf(),
    ensures
        final(store).wf(),
        end_date <= now ==> r == Err::<Auction, AuctionError>(AuctionError::InvalidEndDate)
            && final(store)@ == old(store)@,
        end_date > now ==> match r {
            Ok(a) => a@ == fresh_auction(id, name@, starting_price as int, end_date as int)
                && final(store)@ =~= old(store)@.push(a@),
            Err(_) => false,
        },
{
    if end_date <= now {
        return Err(AuctionError::InvalidEndDate);
    }
    let a = Auction {
        id: id,
        name: name,
        bids: Vec::new(),
        starting_price: starting_price,
        winner: None,
        end_date: end_date,
    };
    let snapshot = a.clone();
    proof {
        assert(a@ =~= fresh_auction(id, a.name@, starting_price as int, end_date as int));
        assert(a@.wf());
    }
    store.insert_one(a);
    proof {
        assert(forall|k: int| 0 <= k < final(store)@.len() ==> (#[trigger] final(store)@[k]).wf());
    }
    Ok(snapshot)
}

/// Create a new auction: the entry point matching the service's creation
/// endpoint. The identifier is assigned by the service, never by the client,
/// and the end date is validated against the clock at the time of the
/// request.
pub fn create_auction(
    store: &mut AuctionStore,
    name: String,
    starting_price: u64,
    end_date: i64,
) -> (r: Result<Auction, AuctionError>)
    requires
        old(store).wf(),
    ensures
        final(store).wf(),
        match r {
            Ok(a) => exists|id: u128|
                a@ == #[trigger] fresh_auction(id, name@, starting_price as int, end_date as int)
                    && final(store)@ =~= old(store)@.push(a@),
            Err(e) => e == AuctionError::InvalidEndDate && final(store)@ == old(store)@,
        },
{
    let id = fresh_id();
    let now = now_timestamp();
    create_auction_at(store, name, starting_price, end_date, now, id)
}

/// The administrative-update rule, with the time of the request explicit:
/// an unparsable identifier is rejected as `InvalidAuctionId`, an end date
/// not strictly in the future as `InvalidEndDate`; otherwise the first
/// record with the identifier gets its name, starting price and end date
/// replaced in one atomic step and its post-update state returned, and a
/// miss is reported as `NotFound`. The bid history and the winner are never
/// touched: they belong to the bid-acceptance engine alone.
pub fn update_auction_at(
    store: &mut AuctionStore,
    id: &str,
    name: String,
    starting_price: u64,
    end_date: i64,
    now: i64,
) -> (r: Result<Auction, AuctionError>)
    requires
        old(store).wf(),
    ensures
        final(store).wf(),
        spec_parse_auction_id(id@) is None ==> r == Err::<Auction, AuctionError>(
            AuctionError::InvalidAuctionId,
        ) && final(store)@ == old(store)@,
        spec_parse_auction_id(id@) is Some && end_date <= now ==> r == Err::<
            Auction,
            AuctionError,
        >(AuctionError::InvalidEndDate) && final(store)@ == old(store)@,
        spec_parse_auction_id(id@) is Some && end_date > now ==> {
            let uid = spec_parse_auction_id(id@).unwrap();
            match r {
                Ok(a) => exists|i: int|
                    0 <= i < old(store)@.len() && #[trigger] matches_id(old(store)@[i], uid)
                        && (forall|j: int| 0 <= j < i ==> !matches_id(old(store)@[j], uid))
                        && a@ == old(store)@[i].with_fields(name@, starting_price as int, end_date as int)
                        && a@.bids == old(store)@[i].bids && a@.winner == old(store)@[i].winner
                        && final(store)@ =~= old(store)@.update(i, a@),
                Err(e) => e == AuctionError::NotFound && final(store)@ == old(store)@
                    && (forall|i: int| 0 <= i < old(store)@.len() ==> !matches_id(old(store)@[i], uid)),
            }
        },
{
    let uid = match parse_auction_id(id) {
        Some(u) => u,
        None => {
            return Err(AuctionError::InvalidAuctionId);
        },
    };
    if end_date <= now {
        return Err(AuctionError::InvalidEndDate);
    }
    match store.find_one_and_update_fields(uid, name, starting_price, end_date) {
        Some(a) => Ok(a),
        None => Err(AuctionError::NotFound),
    }
}

/// Update an auction's administrative fields: the entry point matching the
/// service's update endpoint, validating the end date against the clock at
/// the time of the request.
pub fn update_auction(
    store: &mut AuctionStore,
    id: &str,
    name: String,
    starting_price: u64,
    end_date: i64,
) -> (r: Result<Auction, AuctionError>)
    requires
        old(store).wf(),
    ensures
        final(store).wf(),
        spec_parse_auction_id(id@) is None <==> r == Err::<Auction, AuctionError>(
            AuctionError::InvalidAuctionId,
        ),
        r == Err::<Auction, AuctionError>(AuctionError::InvalidAuctionId) ==> final(store)@ == old(
            store,
        )@,
        match r {
            Ok(a) => exists|i: int|
                0 <= i < old(store)@.len() && #[trigger] matches_id(
                    old(store)@[i],
                    spec_parse_auction_id(id@).unwrap(),
                ) && a@ == old(store)@[i].with_fields(name@, starting_price as int, end_date as int)
                    && a@.bids == old(store)@[i].bids && a@.winner == old(store)@[i].winner
                    && final(store)@ =~= old(store)@.update(i, a@),
            Err(e) => final(store)@ == old(store)@ && (e == AuctionError::InvalidAuctionId || e
                == AuctionError::InvalidEndDate || e == AuctionError::NotFound),
        },
        r == Err::<Auction, AuctionError>(AuctionError::NotFound) ==> (forall|i: int|
            0 <= i < old(store)@.len() ==> !matches_id(
                old(store)@[i],
                spec_parse_auction_id(id@).unwrap(),
            )),
{
    let now = now_timestamp();
    update_auction_at(store, id, name, starting_price, end_date, now)
}

/// Delete an auction: an unparsable identifier is rejected as
/// `InvalidAuctionId`; otherwise the first record with the identifier is
/// removed and its snapshot returned, and a miss is reported as `NotFound`
/// with the store unchanged.
pub fn delete_auction(store: &mut AuctionStore, id: &str) -> (r: Result<Auction, AuctionError>)
    requires
        old(store).wf(),
    ensures
        final(store).wf(),
        spec_parse_auction_id(id@) is None <==> r == Err::<Auction, AuctionError>(
            AuctionError::InvalidAuctionId,
        ),
        spec_parse_auction_id(id@) is Some ==> {
            let uid = spec_parse_auction_id(id@).unwrap();
            match r {
                Ok(a) => exists|i: int|
                    0 <= i < old(store)@.len() && a@ == old(store)@[i] && #[trigger] matches_id(
                        old(store)@[i],
                        uid,
                    ) && (forall|j: int| 0 <= j < i ==> !matches_id(old(store)@[j], uid))
                        && final(store)@ =~= old(store)@.remove(i),
                Err(e) => e == AuctionError::NotFound && final(store)@ == old(store)@
                    && (forall|i: int| 0 <= i < old(store)@.len() ==> !matches_id(old(store)@[i], uid)),
            }
        },
        r == Err::<Auction, AuctionError>(AuctionError::InvalidAuctionId) ==> final(store)@ == old(
            store,
        )@,
{
    let uid = match parse_auction_id(id) {
        Some(u) => u,
        None => {
            return Err(AuctionError::InvalidAuctionId);
        },
    };
    match store.find_one_and_delete(uid) {
        Some(a) => Ok(a),
        None => Err(AuctionError::NotFound),
    }
}

/// Fetch one auction: an unparsable identifier is rejected as
/// `InvalidAuctionId`; otherwise a copy of the first record with the
/// identifier is returned, and a miss is reported as `NotFound`. The store
/// is never changed.
pub fn get_auction(store: &AuctionStore, id: &str) -> (r: Result<Auction, AuctionError>)
    ensures
        spec_parse_auction_id(id@) is None <==> r == Err::<Auction, AuctionError>(
            AuctionError::InvalidAuctionId,
        ),
        spec_parse_auction_id(id@) is Some ==> {
            let uid = spec_parse_auction_id(id@).unwrap();
            match r {
                Ok(a) => exists|i: int|
                    0 <= i < store@.len() && a@ == store@[i] && #[trigger] matches_id(store@[i], uid)
                        && (forall|j: int| 0 <= j < i ==> !matches_id(store@[j], uid)),
                Err(e) => e == AuctionError::NotFound && (forall|i: int|
                    0 <= i < store@.len() ==> !matches_id(store@[i], uid)),
            }
        },
{
    let uid = match parse_auction_id(id) {
        Some(u) => u,
        None => {
            return Err(AuctionError::InvalidAuctionId);
        },
    };
    match store.find_one(uid) {
        Some(a) => Ok(a),
        None => Err(AuctionError::NotFound),
    }
}

/// Fetch every auction, together with the count the listing endpoint
/// reports alongside the collection: the count always equals the number of
/// records returned, which is the number of records stored.
pub fn get_auctions(store: &AuctionStore) -> (r: (Vec<Auction>, usize))
    ensures
        r.1 == r.0@.len(),
        r.0@.len() == store@.len(),
        forall|i: int| 0 <= i < r.0@.len() ==> (#[trigger] r.0@[i])@ == store@[i],
{
    let all = store.find_all();
    let count = all.len();
    (all, count)
}

} // verus!

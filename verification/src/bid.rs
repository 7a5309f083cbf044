//! The bid record and the admissibility rules of the bid-acceptance engine.

use vstd::prelude::*;

use crate::auction::Auction;
use crate::clock::now_timestamp;
use crate::db::{matches_bid, no_bid_match, AuctionStore};
use crate::errors::AuctionError;
use crate::ids::{fresh_id, parse_auction_id, spec_parse_auction_id};

verus! {

/// Mathematical model of a bid: the identifier and the numeric fields as
/// unbounded integers, the bidder label as a sequence of characters.
pub struct BidView {
    pub id: u128,
    pub name: Seq<char>,
    pub amount: int,
    pub timestamp: int,
}

/// A bid against an auction.
///
/// `id` and `timestamp` are assigned by the engine at acceptance time and are
/// never taken from the submitter; `amount` must be positive to enter the
/// engine at all.
#[derive(Debug, PartialEq, Eq)]
pub struct Bid {
    pub id: u128,
    pub name: String,
    pub amount: i64,
    pub timestamp: i64,
}

impl View for Bid {
    type V = BidView;

    open spec fn view(&self) -> BidView {
        BidView {
            id: self.id,
            name: self.name@,
            amount: self.amount as int,
            timestamp: self.timestamp as int,
        }
    }
}

impl Clone for Bid {
    fn clone(&self) -> (res: Self)
        ensures
            res == *self,
    {
        Bid {
            id: self.id,
            name: self.name.clone(),
            amount: self.amount,
            timestamp: self.timestamp,
        }
    }
}

/// The bid a submission turns into once the engine has assigned it an
/// identifier and a timestamp.
pub open spec fn submitted_bid(bid_id: u128, name: Seq<char>, amount: int, now: int) -> BidView {
    BidView { id: bid_id, name: name, amount: amount, timestamp: now }
}

/// The bid-acceptance engine, with the time of submission and the fresh bid
/// identifier as explicit arguments.
///
/// The structural checks — a positive amount, a parsable auction identifier
/// — happen before storage is contacted; everything else is decided by the
/// one atomic conditional update against the store. `NotAdmissible` conflates
/// "no such auction", "auction ended", "below the floor" and "not above the
/// current winner" by design: only the atomic update itself sees a current
/// record, so no more precise reason could be reported without racing.
pub fn submit_bid(
    store: &mut AuctionStore,
    auction_id: &str,
    bidder_name: String,
    amount: i64,
    now: i64,
    bid_id: u128,
) -> (r: Result<Auction, AuctionError>)
    requires
        old(store).wf(),
    ensures
        final(store).wf(),
        amount <= 0 ==> r == Err::<Auction, AuctionError>(AuctionError::InvalidAmount)
            && final(store)@ == old(store)@,
        amount > 0 && spec_parse_auction_id(auction_id@) is None ==> r == Err::<
            Auction,
            AuctionError,
        >(AuctionError::InvalidAuctionId) && final(store)@ == old(store)@,
        amount > 0 && spec_parse_auction_id(auction_id@) is Some ==> {
            let uid = spec_parse_auction_id(auction_id@).unwrap();
            let b = submitted_bid(bid_id, bidder_name@, amount as int, now as int);
            match r {
                Ok(a) => exists|i: int|
                    0 <= i < old(store)@.len()
                        && #[trigger] matches_bid(old(store)@[i], uid, amount as int, now as int)
                        && (forall|j: int|
                            0 <= j < i ==> !matches_bid(old(store)@[j], uid, amount as int, now as int))
                        && a@ == old(store)@[i].accept(b)
                        && final(store)@ =~= old(store)@.update(i, a@),
                Err(e) => e == AuctionError::NotAdmissible && final(store)@ == old(store)@
                    && no_bid_match(old(store)@, uid, amount as int, now as int),
            }
        },
{
    if amount <= 0 {
        return Err(AuctionError::InvalidAmount);
    }
    let uid = match parse_auction_id(auction_id) {
        Some(u) => u,
        None => {
            return Err(AuctionError::InvalidAuctionId);
        },
    };
    let bid = Bid { id: bid_id, name: bidder_name, amount: amount, timestamp: now };
    match store.find_one_and_accept_bid(uid, bid, now) {
        Some(a) => Ok(a),
        None => Err(AuctionError::NotAdmissible),
    }
}

/// Submit a bid against an auction: the entry point matching the service's
/// bid endpoint.
///
/// The engine assigns the bid's identifier and timestamp itself — they are
/// never taken from the submitter — and then runs [`submit_bid`]. Whatever
/// the clock and the identifier generator returned, a non-positive amount is
/// rejected as `InvalidAmount` before storage is contacted, an unparsable
/// identifier as `InvalidAuctionId`, and an accepted bid is exactly the
/// atomic acceptance step applied to the first matching record.
pub fn create_bid(
    store: &mut AuctionStore,
    auction_id: &str,
    bidder_name: String,
    amount: i64,
) -> (r: Result<Auction, AuctionError>)
    requires
        old(store).wf(),
    ensures
        final(store).wf(),
        amount <= 0 <==> r == Err::<Auction, AuctionError>(AuctionError::InvalidAmount),
        amount <= 0 ==> final(store)@ == old(store)@,
        amount > 0 && spec_parse_auction_id(auction_id@) is None <==> r == Err::<
            Auction,
            AuctionError,
        >(AuctionError::InvalidAuctionId),
        r == Err::<Auction, AuctionError>(AuctionError::InvalidAuctionId) ==> final(store)@ == old(
            store,
        )@,
        match r {
            Ok(a) => exists|i: int, now: int, bid_id: u128|
                #![trigger old(store)@[i].accept(submitted_bid(bid_id, bidder_name@, amount as int, now))]
                {
                    let uid = spec_parse_auction_id(auction_id@).unwrap();
                    let b = submitted_bid(bid_id, bidder_name@, amount as int, now);
                    0 <= i < old(store)@.len() && matches_bid(old(store)@[i], uid, amount as int, now)
                        && (forall|j: int|
                            0 <= j < i ==> !matches_bid(old(store)@[j], uid, amount as int, now))
                        && a@ == old(store)@[i].accept(b) && a@.winner == Some(b)
                        && final(store)@ =~= old(store)@.update(i, a@)
                },
            Err(e) => e == AuctionError::InvalidAmount || e == AuctionError::InvalidAuctionId || e
                == AuctionError::NotAdmissible,
        },
        r == Err::<Auction, AuctionError>(AuctionError::NotAdmissible) ==> final(store)@ == old(
            store,
        )@ && (exists|now: int| #[trigger]
            no_bid_match(
                old(store)@,
                spec_parse_auction_id(auction_id@).unwrap(),
                amount as int,
                now,
            )),
{
    let bid_id = fresh_id();
    let now = now_timestamp();
    let r = submit_bid(store, auction_id, bidder_name, amount, now, bid_id);
    proof {
        if amount > 0 && spec_parse_auction_id(auction_id@) is Some && r is Err {
            assert(no_bid_match(
                old(store)@,
                spec_parse_auction_id(auction_id@).unwrap(),
                amount as int,
                now as int,
            ));
        }
    }
    r
}

} // verus!

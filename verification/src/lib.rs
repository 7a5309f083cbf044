//! A timed-auction service library.
//!
//! The heart of the library is the bid-acceptance protocol: the rule set that
//! decides whether a submitted bid becomes an auction's new winning bid. The
//! decision is expressed as a single conditional update against the current
//! auction record, so that concurrent submissions serialized by the store can
//! never produce two winners or lose an update.

mod auction;
mod bid;
mod clock;
mod db;
mod errors;
mod helper;
mod ids;

pub use auction::{Auction, AuctionView};
pub use auction::{
    create_auction, create_auction_at, delete_auction, fresh_auction, get_auction, get_auctions,
    update_auction, update_auction_at,
};
pub use auction::{
    lemma_accept_keeps_history, lemma_accept_preserves_wf, lemma_below_floor_never_admitted,
    lemma_ended_never_admits, lemma_no_two_winners, lemma_run_submissions_wf,
    lemma_tie_never_replaces, lemma_winner_is_unique_max, run_submissions,
};
pub use bid::{create_bid, submit_bid, submitted_bid, Bid, BidView};
pub use db::{matches_bid, matches_id, no_bid_match, AuctionStore};
pub use errors::AuctionError;
pub use helper::APIResponse;
pub use ids::spec_parse_auction_id;

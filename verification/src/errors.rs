//! The error taxonomy of the service.

use vstd::prelude::*;

verus! {

broadcast use vstd::string::group_string_axioms;

/// Every way an auction or bid operation can fail.
///
/// `NotAdmissible` intentionally conflates "auction not found", "auction
/// ended", "bid below the floor" and "bid not higher than the current
/// winner": telling them apart would take a second, non-atomic read that
/// could report a stale reason.
#[derive(Clone, Copy, Debug, PartialEq, Eq, Structural)]
pub enum AuctionError {
    /// The bid amount was not strictly positive.
    InvalidAmount,
    /// The auction identifier did not parse.
    InvalidAuctionId,
    /// The requested end date was not in the future.
    InvalidEndDate,
    /// No auction matched the bid-acceptance predicate.
    NotAdmissible,
    /// A record lookup outside of bidding found nothing.
    NotFound,
    /// The storage layer reported a transport or serialization error.
    StorageUnavailable,
}

impl AuctionError {
    /// The exact message each error reports.
    pub open spec fn spec_message(self) -> Seq<char> {
        match self {
            AuctionError::InvalidAmount => "Bid amount must be greater than 0"@,
            AuctionError::InvalidAuctionId => "Invalid Auction ID"@,
            AuctionError::InvalidEndDate => "End date cannot be in the past"@,
            AuctionError::NotAdmissible => "Bid is Invalid"@,
            AuctionError::NotFound => "Auction not found"@,
            AuctionError::StorageUnavailable => "Storage is unavailable"@,
        }
    }

    /// A human-readable message for the client-facing response.
    pub fn message(&self) -> (r: String)
        ensures
            r@ == self.spec_message(),
            r@.len() > 0,
    {
        let msg = match self {
            AuctionError::InvalidAmount => "Bid amount must be greater than 0",
            AuctionError::InvalidAuctionId => "Invalid Auction ID",
            AuctionError::InvalidEndDate => "End date cannot be in the past",
            AuctionError::NotAdmissible => "Bid is Invalid",
            AuctionError::NotFound => "Auction not found",
            AuctionError::StorageUnavailable => "Storage is unavailable",
        };
        proof {
            reveal_strlit("Bid amount must be greater than 0");
            reveal_strlit("Invalid Auction ID");
            reveal_strlit("End date cannot be in the past");
            reveal_strlit("Bid is Invalid");
            reveal_strlit("Auction not found");
            reveal_strlit("Storage is unavailable");
        }
        msg.to_string()
    }
}

} // verus!

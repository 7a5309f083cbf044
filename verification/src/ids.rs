//! Auction and bid identifiers.
//!
//! The library keeps identifiers as plain 128-bit values; the storage layer's
//! UUID type is produced and parsed at this boundary, always through the
//! big-endian byte representation.

use vstd::prelude::*;

verus! {

/// The identifier, if any, that the storage layer's UUID parser reads out of
/// a string: `None` exactly when the string is not a textual UUID. The
/// result depends on the characters alone.
pub uninterp spec fn spec_parse_auction_id(s: Seq<char>) -> Option<u128>;

/// Draw a fresh random identifier.
///
/// Relies on `mongodb::bson::Uuid::new`: a version-4 UUID from the operating
/// system's RNG, handed back as its 16 big-endian bytes. Nothing can be
/// promised of a random value.
#[verifier::external_body]
pub(crate) fn fresh_id() -> u128 {
    u128::from_be_bytes(mongodb::bson::Uuid::new().bytes())
}

/// Parse an identifier out of its textual form.
///
/// Relies on `mongodb::bson::Uuid::parse_str`: accepts the textual UUID
/// formats and rejects everything else, reading the same value for the same
/// string every time; the result is handed back as the 16 big-endian bytes.
#[verifier::external_body]
pub(crate) fn parse_auction_id(s: &str) -> (r: Option<u128>)
    ensures
        r == spec_parse_auction_id(s@),
{
    match mongodb::bson::Uuid::parse_str(s) {
        Ok(u) => Some(u128::from_be_bytes(u.bytes())),
        Err(_) => None,
    }
}

} // verus!

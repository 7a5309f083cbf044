use backend::{APIResponse, AuctionError};

/// The envelope carries the status indicator it was built with.
#[test]
fn test_api_response_new() {
    let r = APIResponse::new(3, "payload");
    assert_eq!(r.status, 3);
    assert_eq!(r.message, "payload");
}

/// Success responses carry status zero.
#[test]
fn test_api_response_success() {
    let r = APIResponse::success(vec![1, 2, 3]);
    assert_eq!(r.status, 0);
    assert_eq!(r.message, vec![1, 2, 3]);
}

/// Failure responses carry status minus one.
#[test]
fn test_api_response_fail() {
    let r = APIResponse::fail("oops".to_string());
    assert_eq!(r.status, -1);
    assert_eq!(r.message, "oops");
}

/// Every error renders the message its endpoint reports.
#[test]
fn test_error_messages() {
    assert_eq!(AuctionError::InvalidAmount.message(), "Bid amount must be greater than 0");
    assert_eq!(AuctionError::InvalidAuctionId.message(), "Invalid Auction ID");
    assert_eq!(AuctionError::InvalidEndDate.message(), "End date cannot be in the past");
    assert_eq!(AuctionError::NotAdmissible.message(), "Bid is Invalid");
    assert_eq!(AuctionError::NotFound.message(), "Auction not found");
    assert_eq!(AuctionError::StorageUnavailable.message(), "Storage is unavailable");
}

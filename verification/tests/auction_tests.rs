use backend::{
    create_auction, create_auction_at, delete_auction, get_auction, get_auctions, update_auction,
    update_auction_at, APIResponse, AuctionError, AuctionStore,
};

const ID_7: &str = "00000000-0000-0000-0000-000000000007";
const ID_1: &str = "00000000-0000-0000-0000-000000000001";

/// Test creating a new auction
#[test]
fn test_create_auction() {
    let mut store = AuctionStore::new();
    let end_date = chrono::Utc::now().timestamp() + 1000;
    let created = create_auction(&mut store, "Test Auction".to_string(), 100, end_date)
        .expect("creation with a future end date must succeed");
    assert_eq!(created.name, "Test Auction");
    assert_eq!(created.starting_price, 100);
    assert_eq!(created.end_date, end_date);
    assert!(created.bids.is_empty());
    assert!(created.winner.is_none());
    let (auctions, count) = get_auctions(&store);
    assert_eq!(count, 1);
    assert_eq!(auctions[0].id, created.id);
}

/// Test updating an auction
#[test]
fn test_update_auction() {
    let mut store = AuctionStore::new();
    create_auction_at(&mut store, "Test Auction".to_string(), 100, 1000, 0, 7).unwrap();
    let updated = update_auction_at(&mut store, ID_7, "Test Auction".to_string(), 200, 1000, 0)
        .expect("updating an existing auction must succeed");
    assert_eq!(updated.id, 7);
    assert_eq!(updated.name, "Test Auction");
    assert_eq!(updated.starting_price, 200);
    assert_eq!(updated.end_date, 1000);
    assert!(updated.bids.is_empty());
    assert!(updated.winner.is_none());
    let fetched = get_auction(&store, ID_7).unwrap();
    assert_eq!(fetched.starting_price, 200);
}

/// Test deleting an auction
#[test]
fn test_delete_auction() {
    let mut store = AuctionStore::new();
    create_auction_at(&mut store, "Test Auction".to_string(), 100, 1000, 0, 7).unwrap();
    let deleted = delete_auction(&mut store, ID_7).expect("deleting an existing auction succeeds");
    assert_eq!(deleted.id, 7);
    assert_eq!(deleted.name, "Test Auction");
    assert_eq!(deleted.starting_price, 100);

    // a second delete of the same id misses: NotFound, not a server error
    let missing = delete_auction(&mut store, ID_7);
    assert_eq!(missing, Err(AuctionError::NotFound));
    let resp = APIResponse::fail(AuctionError::NotFound.message());
    assert_eq!(resp.status, -1);
}

/// Deleting an id that never existed reports NotFound with the store intact.
#[test]
fn test_delete_nonexistent_auction() {
    let mut store = AuctionStore::new();
    create_auction_at(&mut store, "Test Auction".to_string(), 100, 1000, 0, 7).unwrap();
    let missing = delete_auction(&mut store, ID_1);
    assert_eq!(missing, Err(AuctionError::NotFound));
    let (_, count) = get_auctions(&store);
    assert_eq!(count, 1);
}

/// Test getting all auctions
#[test]
fn test_get_auctions() {
    let mut store = AuctionStore::new();
    let (auctions, count) = get_auctions(&store);
    assert_eq!(count, 0);
    assert!(auctions.is_empty());
    create_auction_at(&mut store, "First".to_string(), 100, 1000, 0, 1).unwrap();
    create_auction_at(&mut store, "Second".to_string(), 200, 2000, 0, 2).unwrap();
    let (auctions, count) = get_auctions(&store);
    assert_eq!(count, 2);
    assert_eq!(auctions.len(), 2);
    assert_eq!(auctions[0].name, "First");
    assert_eq!(auctions[1].name, "Second");
}

/// Fetching one auction by id, in hyphenated and in simple form.
#[test]
fn test_get_auction() {
    let mut store = AuctionStore::new();
    create_auction_at(&mut store, "Test Auction".to_string(), 100, 1000, 0, 7).unwrap();
    let fetched = get_auction(&store, ID_7).unwrap();
    assert_eq!(fetched.id, 7);
    // the identifier parser also reads the un-hyphenated textual form
    let fetched = get_auction(&store, "00000000000000000000000000000007").unwrap();
    assert_eq!(fetched.id, 7);
    assert_eq!(get_auction(&store, ID_1), Err(AuctionError::NotFound));
    assert_eq!(get_auction(&store, "not-a-uuid"), Err(AuctionError::InvalidAuctionId));
}

/// Creating an auction whose end date is in the past is rejected.
#[test]
fn test_create_auction_past_end_date() {
    let mut store = AuctionStore::new();
    let past = chrono::Utc::now().timestamp() - 1000;
    let r = create_auction(&mut store, "Test Auction".to_string(), 100, past);
    assert_eq!(r, Err(AuctionError::InvalidEndDate));
    let r = create_auction_at(&mut store, "Test Auction".to_string(), 100, 5, 10, 7);
    assert_eq!(r, Err(AuctionError::InvalidEndDate));
    // an end date equal to the current instant is also not in the future
    let r = create_auction_at(&mut store, "Test Auction".to_string(), 100, 10, 10, 7);
    assert_eq!(r, Err(AuctionError::InvalidEndDate));
    let (_, count) = get_auctions(&store);
    assert_eq!(count, 0);
}

/// Updating with a bad id or a past end date is rejected; a missing record
/// reports NotFound.
#[test]
fn test_update_auction_rejections() {
    let mut store = AuctionStore::new();
    create_auction_at(&mut store, "Test Auction".to_string(), 100, 1000, 0, 7).unwrap();
    let r = update_auction_at(&mut store, "not-a-uuid", "X".to_string(), 200, 1000, 0);
    assert_eq!(r, Err(AuctionError::InvalidAuctionId));
    let r = update_auction_at(&mut store, ID_7, "X".to_string(), 200, 5, 10);
    assert_eq!(r, Err(AuctionError::InvalidEndDate));
    let r = update_auction_at(&mut store, ID_1, "X".to_string(), 200, 1000, 0);
    assert_eq!(r, Err(AuctionError::NotFound));
    let real_now = chrono::Utc::now().timestamp();
    let r = update_auction(&mut store, ID_7, "Renamed".to_string(), 250, real_now + 500);
    let updated = r.expect("update through the clock-reading entry point succeeds");
    assert_eq!(updated.name, "Renamed");
    assert_eq!(updated.starting_price, 250);
}

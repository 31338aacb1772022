use pubky_app_specs::{
    PubkyAppWatchlist, PubkyAppWatchlistItem, PubkyAppWatchlistTombstone, MAX_WATCHLIST_ITEMS,
    MAX_WATCHLIST_TOMBSTONES,
};

const OWNER: &str = "operrr8wsbpr3ue9d4qj41ge1kcc6r7fdiy6o3ugjrrhi4y77rdo";
const SELLER: &str = "pxnu33x7jtpx9ar1ytsi4yxbp6a5o36gwhffs8zoxmbuptici1jy";
const MAX_SAFE_INTEGER: i64 = 9_007_199_254_740_991;

fn item(listing_id: &str, watched_at_ms: i64) -> PubkyAppWatchlistItem {
    PubkyAppWatchlistItem {
        listing_owner_pubky: SELLER.to_string(),
        listing_id: listing_id.to_string(),
        watched_at_ms,
    }
}

fn tombstone(listing_id: &str, removed_at_ms: i64) -> PubkyAppWatchlistTombstone {
    PubkyAppWatchlistTombstone {
        listing_owner_pubky: SELLER.to_string(),
        listing_id: listing_id.to_string(),
        removed_at_ms,
    }
}

fn valid_watchlist() -> PubkyAppWatchlist {
    PubkyAppWatchlist::new(
        OWNER.to_string(),
        1,
        "2025-01-01T00:00:00Z".to_string(),
        "2025-01-02T00:00:00Z".to_string(),
        vec![item("0032SSN7Q4EVG", 1_735_689_600_000)],
        vec![tombstone("0032SSN7Q4EVH", 1_735_776_000_000)],
    )
}

#[test]
fn watchlist_test_create_path_is_private() {
    assert_eq!(PubkyAppWatchlist::create_path(), "/priv/pubky.app/marketplace/v1/watchlist.json");
}

#[test]
fn watchlist_test_validate_valid() {
    assert!(valid_watchlist().validate(None).is_ok());
}

#[test]
fn test_validate_empty_lists_valid() {
    let mut watchlist = valid_watchlist();
    watchlist.items = vec![];
    watchlist.tombstones = vec![];
    assert!(watchlist.validate(None).is_ok());
}

#[test]
fn watchlist_test_validate_wrong_record_type() {
    let mut watchlist = valid_watchlist();
    watchlist.record_type = "shop".to_string();
    assert!(watchlist.validate(None).is_err());
}

#[test]
fn test_validate_rejects_duplicate_item_keys() {
    let mut watchlist = valid_watchlist();
    watchlist.items.push(item("0032SSN7Q4EVG", 1));
    assert!(watchlist.validate(None).is_err());
}

#[test]
fn test_validate_rejects_key_in_items_and_tombstones() {
    let mut watchlist = valid_watchlist();
    watchlist.tombstones.push(tombstone("0032SSN7Q4EVG", 1));
    assert!(watchlist.validate(None).is_err());
}

#[test]
fn watchlist_test_validate_rejects_bad_timestamps() {
    let mut watchlist = valid_watchlist();
    watchlist.items[0].watched_at_ms = 0;
    assert!(watchlist.validate(None).is_err());

    let mut watchlist = valid_watchlist();
    watchlist.tombstones[0].removed_at_ms = -5;
    assert!(watchlist.validate(None).is_err());

    let mut watchlist = valid_watchlist();
    watchlist.items[0].watched_at_ms = MAX_SAFE_INTEGER + 1;
    assert!(watchlist.validate(None).is_err());
}

#[test]
fn test_validate_rejects_bad_pubky_and_listing_id() {
    let mut watchlist = valid_watchlist();
    watchlist.items[0].listing_owner_pubky = "not-a-pubky".to_string();
    assert!(watchlist.validate(None).is_err());

    let mut watchlist = valid_watchlist();
    watchlist.tombstones[0].listing_id = "has space".to_string();
    assert!(watchlist.validate(None).is_err());
}

#[test]
fn test_validate_rejects_over_caps() {
    let mut watchlist = valid_watchlist();
    watchlist.tombstones = vec![];
    watchlist.items = (0..=MAX_WATCHLIST_ITEMS)
        .map(|index| item(&format!("listing_{index}"), 1))
        .collect();
    assert!(watchlist.validate(None).is_err());

    let mut watchlist = valid_watchlist();
    watchlist.items = vec![];
    watchlist.tombstones = (0..=MAX_WATCHLIST_TOMBSTONES)
        .map(|index| tombstone(&format!("listing_{index}"), 1))
        .collect();
    assert!(watchlist.validate(None).is_err());
}

#[test]
fn test_validate_updated_before_created_rejected() {
    let mut watchlist = valid_watchlist();
    watchlist.created_at = "2025-01-03T00:00:00Z".to_string();
    assert!(watchlist.validate(None).is_err());
}

#[test]
fn watchlist_error_messages_and_caps() {
    let mut watchlist = valid_watchlist();
    watchlist.tombstones.push(tombstone("0032SSN7Q4EVG", 1));
    assert_eq!(
        watchlist.validate(None).unwrap_err(),
        "Validation Error: watchlist listing keys must be unique across items and tombstones"
    );
    let mut watchlist = valid_watchlist();
    watchlist.tombstones[0].removed_at_ms = 0;
    assert_eq!(
        watchlist.validate(None).unwrap_err(),
        "Validation Error: tombstones removedAtMs must be a positive safe integer of epoch milliseconds"
    );
    // The same listing id under another seller is another key.
    let mut watchlist = valid_watchlist();
    watchlist.items.push(PubkyAppWatchlistItem {
        listing_owner_pubky: OWNER.to_string(),
        listing_id: "0032SSN7Q4EVG".to_string(),
        watched_at_ms: 1,
    });
    assert!(watchlist.validate(None).is_ok());
    // Exactly at the cap is accepted.
    let mut watchlist = valid_watchlist();
    watchlist.tombstones = vec![];
    watchlist.items = (0..MAX_WATCHLIST_ITEMS)
        .map(|index| item(&format!("listing_{index}"), 1))
        .collect();
    assert!(watchlist.validate(None).is_ok());
}

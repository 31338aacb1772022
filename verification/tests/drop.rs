use pubky_app_specs::{PubkyAppDropFormat, PubkyAppDropStockDisplay, PubkyAppMarketplaceDrop};

const OWNER: &str = "operrr8wsbpr3ue9d4qj41ge1kcc6r7fdiy6o3ugjrrhi4y77rdo";
const DROP_ID: &str = "spring-drop-01";
const MAX_TITLE_LENGTH: usize = 120;
const MAX_DESCRIPTION_LENGTH: usize = 2_000;
const MAX_MEDIA: usize = 10;
const MAX_LISTINGS: usize = 20;
const MAX_TOTAL_QUANTITY: i64 = 1_000_000;
const MAX_PER_BUYER_LIMIT: i64 = 100;

fn media_uri(id: &str) -> String {
    format!("pubky://{OWNER}/pub/pubky.app/marketplace/v1/media/{id}")
}

fn valid_drop() -> PubkyAppMarketplaceDrop {
    PubkyAppMarketplaceDrop::new(
        OWNER.to_string(),
        1,
        "2026-01-01T00:00:00Z".to_string(),
        "2026-01-02T00:00:00Z".to_string(),
        DROP_ID.to_string(),
        "Spring boot drop".to_string(),
        "Limited spring release.".to_string(),
        vec![media_uri("drop_banner")],
        PubkyAppDropFormat::Fcfs,
        "2026-02-01T00:00:00Z".to_string(),
        Some("2026-02-02T00:00:00Z".to_string()),
        vec!["listing_01".to_string(), "listing_02".to_string()],
        500,
        2,
        PubkyAppDropStockDisplay::Bands,
    )
}

#[test]
fn drop_test_create_path() {
    assert_eq!(
        PubkyAppMarketplaceDrop::create_path(DROP_ID),
        format!("/pub/pubky.app/marketplace/v1/drops/{DROP_ID}")
    );
}

#[test]
fn drop_test_validate_valid() {
    assert!(valid_drop().validate(Some(DROP_ID)).is_ok());
    assert!(valid_drop().validate(None).is_ok());
}

#[test]
fn test_validate_open_ended_drop() {
    // Absent endsAt = the drop ends only by sell-out or cancellation.
    let mut drop = valid_drop();
    drop.ends_at = None;
    assert!(drop.validate(Some(DROP_ID)).is_ok());
}

#[test]
fn drop_test_validate_wrong_record_type() {
    let mut drop = valid_drop();
    drop.record_type = "listing".to_string();
    assert!(drop.validate(None).is_err());
}

#[test]
fn drop_test_validate_path_id_mismatch() {
    let drop = valid_drop();
    assert!(drop.validate(Some("another-drop")).is_err());
}

#[test]
fn test_validate_bad_path_id() {
    let mut drop = valid_drop();
    drop.drop_id = "has space".to_string();
    assert!(drop.validate(Some("has space")).is_err());
    assert!(drop.validate(None).is_err());
}

#[test]
fn test_validate_title_bounds() {
    let mut drop = valid_drop();
    drop.title = String::new();
    assert!(drop.validate(None).is_err());

    let mut drop = valid_drop();
    drop.title = "x".repeat(MAX_TITLE_LENGTH + 1);
    assert!(drop.validate(None).is_err());

    let mut drop = valid_drop();
    drop.title = "x".repeat(MAX_TITLE_LENGTH);
    assert!(drop.validate(None).is_ok());
}

#[test]
fn test_validate_description_bounds() {
    // Empty descriptions are valid.
    let mut drop = valid_drop();
    drop.description = String::new();
    assert!(drop.validate(None).is_ok());

    let mut drop = valid_drop();
    drop.description = "x".repeat(MAX_DESCRIPTION_LENGTH + 1);
    assert!(drop.validate(None).is_err());
}

#[test]
fn test_validate_media_bounds() {
    // No media is valid.
    let mut drop = valid_drop();
    drop.media = vec![];
    assert!(drop.validate(None).is_ok());

    // Too many entries.
    let mut drop = valid_drop();
    drop.media = (0..=MAX_MEDIA).map(|i| media_uri(&format!("m{i}"))).collect();
    assert!(drop.validate(None).is_err());

    // Duplicate entries.
    let mut drop = valid_drop();
    drop.media = vec![media_uri("m1"), media_uri("m1")];
    assert!(drop.validate(None).is_err());

    // Not a marketplace URI.
    let mut drop = valid_drop();
    drop.media = vec![format!("pubky://{OWNER}/pub/other.app/marketplace/v1/media/m1")];
    assert!(drop.validate(None).is_err());

    // Marketplace URI owned by someone else.
    let mut drop = valid_drop();
    drop.media = vec![
        "pubky://pxnu33x7jtpx9ar1ytsi4yxbp6a5o36gwhffs8zoxmbuptici1jy/pub/pubky.app/marketplace/v1/media/m1"
            .to_string(),
    ];
    assert!(drop.validate(None).is_err());
}

#[test]
fn test_validate_datetime_rules() {
    let mut drop = valid_drop();
    drop.starts_at = "not a date".to_string();
    assert!(drop.validate(None).is_err());

    let mut drop = valid_drop();
    drop.ends_at = Some("not a date".to_string());
    assert!(drop.validate(None).is_err());

    // endsAt equal to startsAt is rejected — strictly after.
    let mut drop = valid_drop();
    drop.ends_at = Some(drop.starts_at.clone());
    assert!(drop.validate(None).is_err());

    // endsAt before startsAt is rejected.
    let mut drop = valid_drop();
    drop.ends_at = Some("2026-01-31T23:59:59Z".to_string());
    assert!(drop.validate(None).is_err());
}

#[test]
fn test_validate_listing_ids_bounds() {
    let mut drop = valid_drop();
    drop.listing_ids = vec![];
    assert!(drop.validate(None).is_err());

    let mut drop = valid_drop();
    drop.listing_ids = (0..=MAX_LISTINGS).map(|i| format!("listing_{i}")).collect();
    assert!(drop.validate(None).is_err());

    let mut drop = valid_drop();
    drop.listing_ids = vec!["listing_01".to_string(), "listing_01".to_string()];
    assert!(drop.validate(None).is_err());

    let mut drop = valid_drop();
    drop.listing_ids = vec!["has space".to_string()];
    assert!(drop.validate(None).is_err());
}

#[test]
fn test_validate_quantity_bounds() {
    let mut drop = valid_drop();
    drop.total_quantity = 0;
    assert!(drop.validate(None).is_err());

    let mut drop = valid_drop();
    drop.total_quantity = MAX_TOTAL_QUANTITY + 1;
    assert!(drop.validate(None).is_err());

    let mut drop = valid_drop();
    drop.total_quantity = MAX_TOTAL_QUANTITY;
    assert!(drop.validate(None).is_ok());
}

#[test]
fn test_validate_per_buyer_limit_bounds() {
    let mut drop = valid_drop();
    drop.per_buyer_limit = 0;
    assert!(drop.validate(None).is_err());

    let mut drop = valid_drop();
    drop.per_buyer_limit = MAX_PER_BUYER_LIMIT + 1;
    assert!(drop.validate(None).is_err());

    // The cap can never exceed the total.
    let mut drop = valid_drop();
    drop.total_quantity = 3;
    drop.per_buyer_limit = 4;
    assert!(drop.validate(None).is_err());

    // Equal is allowed.
    let mut drop = valid_drop();
    drop.total_quantity = 4;
    drop.per_buyer_limit = 4;
    assert!(drop.validate(None).is_ok());
}

#[test]
fn drop_test_sanitize_trims_strings() {
    let mut drop = valid_drop();
    drop.title = "  Spring boot drop  ".to_string();
    drop.description = "  Limited spring release.  ".to_string();
    let sanitized = drop.sanitize();
    assert_eq!(sanitized.title, "Spring boot drop");
    assert_eq!(sanitized.description, "Limited spring release.");
}

#[test]
fn drop_error_messages() {
    let mut drop = valid_drop();
    drop.media = vec![media_uri("m1"), media_uri("m1")];
    assert_eq!(drop.validate(None).unwrap_err(), "Validation Error: drop media entries must be unique");
    let mut drop = valid_drop();
    drop.listing_ids = vec!["listing_01".to_string(), "listing_01".to_string()];
    assert_eq!(drop.validate(None).unwrap_err(), "Validation Error: listingIds must be unique");
    let mut drop = valid_drop();
    drop.total_quantity = 3;
    drop.per_buyer_limit = 4;
    assert_eq!(
        drop.validate(None).unwrap_err(),
        "Validation Error: perBuyerLimit must not exceed totalQuantity"
    );
    let mut drop = valid_drop();
    drop.ends_at = Some(drop.starts_at.clone());
    assert_eq!(
        drop.validate(None).unwrap_err(),
        "Validation Error: endsAt must be strictly after startsAt"
    );
    let drop = valid_drop();
    assert_eq!(
        drop.validate(Some("has space")).unwrap_err(),
        "Validation Error: drop path id must only contain path-safe characters [A-Za-z0-9_-]"
    );
}

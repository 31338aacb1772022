use std::collections::BTreeMap;

use pubky_app_specs::listing_parts::validate_mime_type;
use pubky_app_specs::{
    PubkyAppDigitalLock, PubkyAppFulfillmentMethod, PubkyAppListing,
    PubkyAppListingAttributeValue, PubkyAppListingCondition, PubkyAppListingMedia,
    PubkyAppListingMediaKind, PubkyAppListingPackage, PubkyAppListingSale, PubkyAppListingState,
    PubkyAppListingVariant, PubkyAppMarketplaceLocation, PubkyAppMoney, PubkyAppReturnPolicy,
    PubkyAppShippingOption,
};

const OWNER: &str = "operrr8wsbpr3ue9d4qj41ge1kcc6r7fdiy6o3ugjrrhi4y77rdo";
const LISTING_ID: &str = "0032SSN7Q4EVG";
const MAX_TAXONOMY_VERSION: i64 = 1_000_000;
const MAX_ATTRIBUTES: usize = 20;
const MAX_ATTRIBUTE_VALUE_LENGTH: usize = 80;
const MAX_ATTRIBUTE_VALUES_PER_KEY: usize = 10;

fn money(amount_minor: i64) -> PubkyAppMoney {
    PubkyAppMoney { amount_minor, currency: "USD".to_string(), exponent: 2 }
}

fn valid_media(id: &str) -> PubkyAppListingMedia {
    PubkyAppListingMedia {
        id: id.to_string(),
        kind: PubkyAppListingMediaKind::Image,
        url: format!("pubky://{OWNER}/pub/pubky.app/marketplace/v1/media/{id}"),
        content_hash: "a".repeat(64),
        mime_type: "image/png".to_string(),
        byte_size: 1024,
        width: 800,
        height: 600,
        duration_ms: None,
        alt_text: "A pair of boots".to_string(),
    }
}

fn valid_variant(id: &str) -> PubkyAppListingVariant {
    PubkyAppListingVariant {
        id: id.to_string(),
        sku: Some(format!("SKU-{id}")),
        options: vec![("size".to_string(), "42".to_string())],
        price_override: None,
        quantity: 5,
        media_ids: vec![],
        enabled: true,
    }
}

fn valid_listing() -> PubkyAppListing {
    PubkyAppListing::new(
        OWNER.to_string(),
        1,
        "2025-01-01T00:00:00Z".to_string(),
        "2025-01-02T00:00:00Z".to_string(),
        LISTING_ID.to_string(),
        PubkyAppListingState::Active,
        "Hiking boots".to_string(),
        "Sturdy leather hiking boots.".to_string(),
        1,
        "fashion".to_string(),
        None,
        PubkyAppListingCondition::New,
        None,
        vec!["boots".to_string(), "hiking".to_string()],
        PubkyAppMarketplaceLocation {
            country_code: "US".to_string(),
            region: Some("Oregon".to_string()),
        },
        vec![valid_media("image_01")],
        vec![valid_variant("variant_01")],
        PubkyAppListingSale::FixedPrice { unit_price: money(12_000), accepts_offers: true },
        vec![PubkyAppFulfillmentMethod::Physical],
        Some(PubkyAppListingPackage {
            weight_grams: 1_500,
            length_millimeters: 350,
            width_millimeters: 250,
            height_millimeters: 150,
        }),
        vec![PubkyAppShippingOption::Flat {
            id: "ship_01".to_string(),
            label: "Standard".to_string(),
            price: money(500),
            estimated_min_days: 2,
            estimated_max_days: 7,
        }],
        PubkyAppReturnPolicy {
            accepts_returns: true,
            return_window_days: Some(30),
            buyer_pays_return_shipping: true,
            details: None,
        },
        None,
        false,
    )
}

fn valid_auction_listing() -> PubkyAppListing {
    let mut listing = valid_listing();
    listing.sale = PubkyAppListingSale::Auction {
        starting_price: money(1_000),
        reserve_price: Some(money(2_000)),
        buy_now_price: Some(money(10_000)),
        minimum_increment: money(100),
        starts_at: "2025-01-03T00:00:00Z".to_string(),
        ends_at: "2025-01-10T00:00:00Z".to_string(),
        anti_sniping_window_seconds: 300,
        anti_sniping_extension_seconds: 300,
    };
    listing
}

/// Attributes as the map gives them: ascending key order, each key once.
fn attributes(
    entries: &[(&str, PubkyAppListingAttributeValue)],
) -> Option<Vec<(String, PubkyAppListingAttributeValue)>> {
    let map: BTreeMap<String, PubkyAppListingAttributeValue> = entries
        .iter()
        .map(|(key, value)| (key.to_string(), value.clone()))
        .collect();
    Some(map.into_iter().collect())
}

fn lookup<'a, V>(pairs: &'a [(String, V)], key: &str) -> Option<&'a V> {
    pairs.iter().find(|(k, _)| k == key).map(|(_, v)| v)
}

#[test]
fn listing_test_create_path() {
    let listing = valid_listing();
    let path = PubkyAppListing::create_path(&listing.listing_id);
    assert_eq!(path, format!("/pub/pubky.app/marketplace/v1/listings/{}", listing.listing_id));
}

#[test]
fn test_validate_valid_fixed_price() {
    let listing = valid_listing();
    let id = listing.listing_id.clone();
    assert!(listing.validate(Some(&id)).is_ok());
}

#[test]
fn test_validate_valid_auction() {
    let listing = valid_auction_listing();
    let id = listing.listing_id.clone();
    assert!(listing.validate(Some(&id)).is_ok());
}

#[test]
fn test_validate_invalid_timestamp_id() {
    let listing = valid_listing();
    assert!(listing.validate(Some("INVALIDID12345")).is_err());
}

#[test]
fn test_validate_listing_id_mismatch() {
    let mut listing = valid_listing();
    let id = listing.listing_id.clone();
    listing.listing_id = "different_id".to_string();
    assert!(listing.validate(Some(&id)).is_err());
}

#[test]
fn test_validate_accepts_uuid_hex_path_id() {
    // The reference client and transaction service key listings by 32-char
    // lowercase hex UUIDs; the path-id rule must accept them.
    let mut listing = valid_listing();
    let id = "a7fc7d5d0b2a4083b27847193f8fe536".to_string();
    listing.listing_id = id.clone();
    assert!(listing.validate(Some(&id)).is_ok());
}

#[test]
fn test_validate_title_too_short() {
    let mut listing = valid_listing();
    listing.title = "ab".to_string();
    assert!(listing.validate(None).is_err());
}

#[test]
fn test_validate_taxonomy_version_bounds() {
    let mut listing = valid_listing();
    listing.taxonomy_version = 2;
    assert!(listing.validate(None).is_ok());

    listing.taxonomy_version = 0;
    assert!(listing.validate(None).is_err());
    listing.taxonomy_version = MAX_TAXONOMY_VERSION + 1;
    assert!(listing.validate(None).is_err());
}

#[test]
fn test_validate_valid_attributes() {
    let mut listing = valid_listing();
    listing.attributes = attributes(&[
        ("size", PubkyAppListingAttributeValue::One("US 9".to_string())),
        (
            "color",
            PubkyAppListingAttributeValue::Many(vec!["brown".to_string(), "black".to_string()]),
        ),
        ("age-era", PubkyAppListingAttributeValue::One("90s".to_string())),
    ]);
    assert!(listing.validate(None).is_ok());
}

#[test]
fn test_validate_attributes_absent_is_valid() {
    let mut listing = valid_listing();
    listing.attributes = None;
    assert!(listing.validate(None).is_ok());
}

#[test]
fn test_validate_attribute_key_charset() {
    for bad_key in ["Size", "size color", "-size", "size-", "size--color", ""] {
        let mut listing = valid_listing();
        listing.attributes =
            attributes(&[(bad_key, PubkyAppListingAttributeValue::One("value".to_string()))]);
        assert!(listing.validate(None).is_err(), "expected key {bad_key:?} to be rejected");
    }
}

#[test]
fn test_validate_attribute_bounds() {
    // Too many keys
    let mut listing = valid_listing();
    let entries: BTreeMap<String, PubkyAppListingAttributeValue> = (0..=MAX_ATTRIBUTES)
        .map(|index| {
            (format!("key-{index}"), PubkyAppListingAttributeValue::One("value".to_string()))
        })
        .collect();
    listing.attributes = Some(entries.into_iter().collect());
    assert!(listing.validate(None).is_err());

    // Value too long
    let mut listing = valid_listing();
    listing.attributes = attributes(&[(
        "size",
        PubkyAppListingAttributeValue::One("x".repeat(MAX_ATTRIBUTE_VALUE_LENGTH + 1)),
    )]);
    assert!(listing.validate(None).is_err());

    // Empty value
    let mut listing = valid_listing();
    listing.attributes = attributes(&[("size", PubkyAppListingAttributeValue::One(String::new()))]);
    assert!(listing.validate(None).is_err());

    // Too many values per key
    let mut listing = valid_listing();
    listing.attributes = attributes(&[(
        "style",
        PubkyAppListingAttributeValue::Many(
            (0..=MAX_ATTRIBUTE_VALUES_PER_KEY).map(|index| format!("value-{index}")).collect(),
        ),
    )]);
    assert!(listing.validate(None).is_err());

    // Duplicate values in a list
    let mut listing = valid_listing();
    listing.attributes = attributes(&[(
        "color",
        PubkyAppListingAttributeValue::Many(vec!["brown".to_string(), "brown".to_string()]),
    )]);
    assert!(listing.validate(None).is_err());

    // Empty value list
    let mut listing = valid_listing();
    listing.attributes = attributes(&[("color", PubkyAppListingAttributeValue::Many(vec![]))]);
    assert!(listing.validate(None).is_err());
}

#[test]
fn test_attributes_sanitize_trims_values() {
    let mut listing = valid_listing();
    listing.attributes = attributes(&[
        ("size", PubkyAppListingAttributeValue::One("  US 9  ".to_string())),
        ("color", PubkyAppListingAttributeValue::Many(vec!["  brown  ".to_string()])),
    ]);
    let sanitized = listing.sanitize();
    let attributes = sanitized.attributes.unwrap();
    assert_eq!(
        lookup(&attributes, "size"),
        Some(&PubkyAppListingAttributeValue::One("US 9".to_string()))
    );
    assert_eq!(
        lookup(&attributes, "color"),
        Some(&PubkyAppListingAttributeValue::Many(vec!["brown".to_string()]))
    );
}

#[test]
fn test_validate_invalid_category() {
    let mut listing = valid_listing();
    listing.category_id = "Not-Kebab".to_string();
    assert!(listing.validate(None).is_err());
    listing.category_id = "double--dash".to_string();
    assert!(listing.validate(None).is_err());
}

#[test]
fn test_validate_duplicate_tags() {
    let mut listing = valid_listing();
    listing.tags = vec!["boots".to_string(), "boots".to_string()];
    assert!(listing.validate(None).is_err());
}

#[test]
fn test_validate_duplicate_variant_ids() {
    let mut listing = valid_listing();
    listing.variants = vec![valid_variant("variant_01"), valid_variant("variant_01")];
    assert!(listing.validate(None).is_err());
}

#[test]
fn test_validate_media_not_owned_by_seller() {
    let mut listing = valid_listing();
    listing.media[0].url =
        "pubky://pxnu33x7jtpx9ar1ytsi4yxbp6a5o36gwhffs8zoxmbuptici1jy/pub/pubky.app/marketplace/v1/media/image_01"
            .to_string();
    assert!(listing.validate(None).is_err());
}

#[test]
fn test_validate_video_requires_duration() {
    let mut listing = valid_listing();
    let mut video = valid_media("video_01");
    video.kind = PubkyAppListingMediaKind::Video;
    video.mime_type = "video/mp4".to_string();
    video.duration_ms = None;
    listing.media.push(video);
    assert!(listing.validate(None).is_err());
}

#[test]
fn test_validate_requires_at_least_one_image() {
    let mut listing = valid_listing();
    let mut video = valid_media("video_01");
    video.kind = PubkyAppListingMediaKind::Video;
    video.mime_type = "video/mp4".to_string();
    video.duration_ms = Some(10_000);
    listing.media = vec![video];
    assert!(listing.validate(None).is_err());
}

#[test]
fn test_validate_variant_unknown_media_reference() {
    let mut listing = valid_listing();
    listing.variants[0].media_ids = vec!["missing_media".to_string()];
    assert!(listing.validate(None).is_err());
}

#[test]
fn test_validate_active_listing_requires_stock() {
    let mut listing = valid_listing();
    listing.variants[0].quantity = 0;
    assert!(listing.validate(None).is_err());

    listing.state = PubkyAppListingState::Paused;
    assert!(listing.validate(None).is_ok());
}

#[test]
fn test_validate_negative_quantity() {
    let mut listing = valid_listing();
    listing.variants[0].quantity = -1;
    assert!(listing.validate(None).is_err());
}

#[test]
fn test_validate_physical_requires_package_and_shipping() {
    let mut listing = valid_listing();
    listing.package = None;
    assert!(listing.validate(None).is_err());

    let mut listing = valid_listing();
    listing.shipping_options = vec![];
    assert!(listing.validate(None).is_err());
}

#[test]
fn test_validate_pickup_forbids_package_and_shipping() {
    let mut listing = valid_listing();
    listing.fulfillment_methods = vec![PubkyAppFulfillmentMethod::Pickup];
    assert!(listing.validate(None).is_err());

    listing.package = None;
    listing.shipping_options = vec![];
    assert!(listing.validate(None).is_ok());
}

#[test]
fn test_validate_digital_requires_lock() {
    let mut listing = valid_listing();
    listing.fulfillment_methods = vec![PubkyAppFulfillmentMethod::Digital];
    listing.package = None;
    listing.shipping_options = vec![];
    assert!(listing.validate(None).is_err());

    listing.digital_lock = Some(PubkyAppDigitalLock {
        policy_uri: format!("pubky://{OWNER}/pub/locks.app/policies/standard.json"),
        criterion_id: "criterion-1".to_string(),
        resource_hash: "b".repeat(64),
        minimum_confirmations: 2,
    });
    assert!(listing.validate(None).is_ok());
}

#[test]
fn test_validate_auction_requires_single_variant() {
    let mut listing = valid_auction_listing();
    listing.variants = vec![valid_variant("variant_01"), valid_variant("variant_02")];
    assert!(listing.validate(None).is_err());
}

#[test]
fn test_validate_auction_price_rules() {
    let mut listing = valid_auction_listing();
    if let PubkyAppListingSale::Auction { buy_now_price, .. } = &mut listing.sale {
        *buy_now_price = Some(money(1_000)); // equal to starting price
    }
    assert!(listing.validate(None).is_err());

    let mut listing = valid_auction_listing();
    if let PubkyAppListingSale::Auction { reserve_price, .. } = &mut listing.sale {
        *reserve_price = Some(money(500)); // below starting price
    }
    assert!(listing.validate(None).is_err());

    let mut listing = valid_auction_listing();
    if let PubkyAppListingSale::Auction { starts_at, ends_at, .. } = &mut listing.sale {
        *starts_at = "2025-01-10T00:00:00Z".to_string();
        *ends_at = "2025-01-03T00:00:00Z".to_string();
    }
    assert!(listing.validate(None).is_err());
}

#[test]
fn test_validate_variant_price_must_match_asset() {
    let mut listing = valid_listing();
    listing.variants[0].price_override =
        Some(PubkyAppMoney { amount_minor: 21, currency: "BTC".to_string(), exponent: 8 });
    assert!(listing.validate(None).is_err());
}

#[test]
fn test_validate_flat_shipping_must_match_asset() {
    let mut listing = valid_listing();
    listing.shipping_options = vec![PubkyAppShippingOption::Flat {
        id: "ship_01".to_string(),
        label: "Standard".to_string(),
        price: PubkyAppMoney { amount_minor: 21, currency: "BTC".to_string(), exponent: 8 },
        estimated_min_days: 2,
        estimated_max_days: 7,
    }];
    assert!(listing.validate(None).is_err());
}

#[test]
fn test_validate_shipping_estimate_order() {
    let mut listing = valid_listing();
    listing.shipping_options = vec![PubkyAppShippingOption::Free {
        id: "ship_01".to_string(),
        label: "Free".to_string(),
        estimated_min_days: 7,
        estimated_max_days: 2,
    }];
    assert!(listing.validate(None).is_err());
}

#[test]
fn test_validate_return_policy_window_rules() {
    let mut listing = valid_listing();
    listing.return_policy.return_window_days = None;
    assert!(listing.validate(None).is_err());

    let mut listing = valid_listing();
    listing.return_policy.accepts_returns = false;
    assert!(listing.validate(None).is_err());
}

#[test]
fn listing_test_sanitize_trims_strings() {
    let mut listing = valid_listing();
    listing.title = "  Hiking boots  ".to_string();
    listing.tags = vec!["  boots  ".to_string()];
    listing.variants[0].sku = Some("  SKU-1  ".to_string());
    listing.variants[0].options = vec![("  size  ".to_string(), "  42  ".to_string())];
    let sanitized = listing.sanitize();
    assert_eq!(sanitized.title, "Hiking boots");
    assert_eq!(sanitized.tags, vec!["boots".to_string()]);
    assert_eq!(sanitized.variants[0].sku.as_deref(), Some("SKU-1"));
    assert_eq!(
        lookup(&sanitized.variants[0].options, "size").map(String::as_str),
        Some("42")
    );
}

#[test]
fn variant_options_recollect_in_key_order_last_value_winning() {
    let mut variant = valid_variant("v");
    // As a map these were " size" < "colour" < "size " (space sorts first);
    // trimmed, two keys collide and the later value wins.
    variant.options = vec![
        (" size".to_string(), "41".to_string()),
        ("colour".to_string(), " red ".to_string()),
        ("size ".to_string(), "42".to_string()),
    ];
    let sanitized = variant.sanitize();
    assert_eq!(
        sanitized.options,
        vec![
            ("colour".to_string(), "red".to_string()),
            ("size".to_string(), "42".to_string()),
        ]
    );
}

#[test]
fn listing_error_messages() {
    let mut listing = valid_listing();
    listing.category_id = "double--dash".to_string();
    assert_eq!(
        listing.validate(None).unwrap_err(),
        "Validation Error: categoryId must be a kebab-case identifier"
    );
    let mut listing = valid_listing();
    listing.tags = vec!["boots".to_string(), "boots".to_string()];
    assert_eq!(listing.validate(None).unwrap_err(), "Validation Error: tags must be unique");
    let mut listing = valid_listing();
    listing.variants[0].media_ids = vec!["missing_media".to_string()];
    assert_eq!(
        listing.validate(None).unwrap_err(),
        "Validation Error: variant references unknown media"
    );
    let mut listing = valid_listing();
    listing.fulfillment_methods =
        vec![PubkyAppFulfillmentMethod::Physical, PubkyAppFulfillmentMethod::Physical];
    assert_eq!(
        listing.validate(None).unwrap_err(),
        "Validation Error: fulfillment methods must be unique"
    );
    let mut listing = valid_auction_listing();
    listing.variants = vec![valid_variant("variant_01"), valid_variant("variant_02")];
    assert_eq!(
        listing.validate(None).unwrap_err(),
        "Validation Error: auction listings require exactly one variant"
    );
    let mut listing = valid_listing();
    listing.variants = vec![valid_variant("variant_01"), valid_variant("variant_02")];
    listing.variants[1].sku = listing.variants[0].sku.clone();
    assert_eq!(listing.validate(None).unwrap_err(), "Validation Error: variant SKUs must be unique");
    let mut listing = valid_listing();
    listing.attributes =
        attributes(&[("size", PubkyAppListingAttributeValue::One(String::new()))]);
    assert_eq!(
        listing.validate(None).unwrap_err(),
        "Validation Error: attribute 'size' values must be 1-80 characters"
    );
}

#[test]
fn mime_types() {
    assert!(validate_mime_type("image/png").is_ok());
    assert!(validate_mime_type("IMAGE/svg+xml").is_ok());
    assert!(validate_mime_type("Video/mp4").is_ok());
    assert!(validate_mime_type("audio/mpeg").is_err());
    assert!(validate_mime_type("image/").is_err());
    assert!(validate_mime_type("image").is_err());
    assert!(validate_mime_type("image/png/x").is_err());
    assert_eq!(
        validate_mime_type("text/plain").unwrap_err(),
        "Validation Error: media mimeType must be an image or video MIME type"
    );
}

#[test]
fn attribute_keys_must_ascend_once_each() {
    let value = || PubkyAppListingAttributeValue::One("value".to_string());
    let mut listing = valid_listing();
    listing.attributes = Some(vec![("size".to_string(), value()), ("color".to_string(), value())]);
    assert_eq!(
        listing.validate(None).unwrap_err(),
        "Validation Error: attribute keys must be unique and in ascending order"
    );
    listing.attributes = Some(vec![("size".to_string(), value()), ("size".to_string(), value())]);
    assert_eq!(
        listing.validate(None).unwrap_err(),
        "Validation Error: attribute keys must be unique and in ascending order"
    );
    listing.attributes = Some(vec![("color".to_string(), value()), ("size".to_string(), value())]);
    assert!(listing.validate(None).is_ok());
}

#[test]
fn variant_option_keys_must_ascend_once_each() {
    let mut listing = valid_listing();
    listing.variants[0].options = vec![
        ("size".to_string(), "42".to_string()),
        ("color".to_string(), "red".to_string()),
    ];
    assert_eq!(
        listing.variants[0].validate().unwrap_err(),
        "Validation Error: variant option keys must be unique and in ascending order"
    );
    listing.variants[0].options = vec![
        ("size".to_string(), "42".to_string()),
        ("size".to_string(), "43".to_string()),
    ];
    assert_eq!(
        listing.variants[0].validate().unwrap_err(),
        "Validation Error: variant option keys must be unique and in ascending order"
    );
    // Sanitizing re-collects the options in key order, last value winning.
    let sanitized = listing.variants[0].clone().sanitize();
    assert_eq!(sanitized.options, vec![("size".to_string(), "43".to_string())]);
    assert!(sanitized.validate().is_ok());
}

#[test]
fn sanitizing_twice_is_sanitizing_once() {
    let mut listing = valid_listing();
    listing.title = "  Trail boots  ".to_string();
    listing.description = "\tWaterproof.\n".to_string();
    listing.tags = vec![" hiking ".to_string(), "boots".to_string()];
    listing.variants[0].options = vec![
        (" size".to_string(), "41".to_string()),
        ("colour".to_string(), " red ".to_string()),
        ("size ".to_string(), "42".to_string()),
    ];
    let once = listing.clone().sanitize();
    let twice = once.clone().sanitize();
    assert_eq!(once, twice);
}

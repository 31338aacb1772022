use pubky_app_specs::uri::{parse_listing_uri, parse_review_uri};
use pubky_app_specs::{
    base_uri_builder, blob_uri_builder, bookmark_uri_builder, feed_uri_builder, file_uri_builder,
    follow_uri_builder, is_pubky_scheme, last_read_uri_builder, listing_uri_builder,
    marketplace_review_uri_builder, mute_uri_builder, post_uri_builder,
    review_response_uri_builder, shop_uri_builder, tag_uri_builder, user_uri_builder,
    watchlist_uri_builder,
};

const USER: &str = "operrr8wsbpr3ue9d4qj41ge1kcc6r7fdiy6o3ugjrrhi4y77rdo";
const SELLER: &str = "pxnu33x7jtpx9ar1ytsi4yxbp6a5o36gwhffs8zoxmbuptici1jy";

#[test]
fn builders_spell_the_documented_uris() {
    let u = USER.to_string();
    assert_eq!(base_uri_builder(u.clone()), format!("pubky://{USER}/pub/pubky.app/"));
    assert_eq!(user_uri_builder(u.clone()), format!("pubky://{USER}/pub/pubky.app/profile.json"));
    assert_eq!(post_uri_builder(u.clone(), "P1".into()), format!("pubky://{USER}/pub/pubky.app/posts/P1"));
    assert_eq!(follow_uri_builder(u.clone(), "F".into()), format!("pubky://{USER}/pub/pubky.app/follows/F"));
    assert_eq!(mute_uri_builder(u.clone(), "M".into()), format!("pubky://{USER}/pub/pubky.app/mutes/M"));
    assert_eq!(bookmark_uri_builder(u.clone(), "B".into()), format!("pubky://{USER}/pub/pubky.app/bookmarks/B"));
    assert_eq!(tag_uri_builder(u.clone(), "T".into()), format!("pubky://{USER}/pub/pubky.app/tags/T"));
    assert_eq!(file_uri_builder(u.clone(), "X".into()), format!("pubky://{USER}/pub/pubky.app/files/X"));
    assert_eq!(blob_uri_builder(u.clone(), "Y".into()), format!("pubky://{USER}/pub/pubky.app/blobs/Y"));
    assert_eq!(feed_uri_builder(u.clone(), "Z".into()), format!("pubky://{USER}/pub/pubky.app/feeds/Z"));
    assert_eq!(last_read_uri_builder(u.clone()), format!("pubky://{USER}/pub/pubky.app/last_read"));
    assert_eq!(shop_uri_builder(u.clone()), format!("pubky://{USER}/pub/pubky.app/marketplace/v1/shop.json"));
    assert_eq!(
        listing_uri_builder(u.clone(), "L1".into()),
        format!("pubky://{USER}/pub/pubky.app/marketplace/v1/listings/L1")
    );
    assert_eq!(
        marketplace_review_uri_builder(u.clone(), "R1".into()),
        format!("pubky://{USER}/pub/pubky.app/marketplace/v1/reviews/R1")
    );
    assert_eq!(
        watchlist_uri_builder(u.clone()),
        format!("pubky://{USER}/priv/pubky.app/marketplace/v1/watchlist.json")
    );
    assert_eq!(
        review_response_uri_builder(u, "R1".into()),
        format!("pubky://{USER}/pub/pubky.app/marketplace/v1/review_responses/R1")
    );
}

#[test]
fn scheme_detection() {
    assert!(is_pubky_scheme("pubky://abc"));
    assert!(!is_pubky_scheme("https://abc"));
    assert!(!is_pubky_scheme("pubky:/"));
}

#[test]
fn canonical_uris_parse_back_to_their_parts() {
    let listing = listing_uri_builder(SELLER.to_string(), "0032SSN7Q4EVG".to_string());
    assert_eq!(
        parse_listing_uri(&listing),
        Some((SELLER.to_string(), "0032SSN7Q4EVG".to_string()))
    );
    let review = marketplace_review_uri_builder(USER.to_string(), "FPB0AM9S93Q3M1GFY1KV09GMQM".into());
    assert_eq!(
        parse_review_uri(&review),
        Some((USER.to_string(), "FPB0AM9S93Q3M1GFY1KV09GMQM".to_string()))
    );
    // A review URI is no listing URI, and vice versa.
    assert_eq!(parse_listing_uri(&review), None);
    assert_eq!(parse_review_uri(&listing), None);
    // Extra path segments, queries and bad owners are refused.
    assert_eq!(parse_listing_uri(&format!("{listing}/extra")), None);
    assert_eq!(parse_listing_uri(&format!("{listing}?q=1")), None);
    assert_eq!(parse_listing_uri("pubky://short/pub/pubky.app/marketplace/v1/listings/L1"), None);
    assert_eq!(
        parse_listing_uri(&format!("pubky://{SELLER}/pub/pubky.app/posts/0032SSN7Q4EVG")),
        None
    );
}

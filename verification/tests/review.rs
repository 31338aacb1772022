use pubky_app_specs::{PubkyAppMarketplaceReview, PubkyAppReviewRatings, PubkyAppReviewRole};

const AUTHOR: &str = "operrr8wsbpr3ue9d4qj41ge1kcc6r7fdiy6o3ugjrrhi4y77rdo";
const SELLER: &str = "pxnu33x7jtpx9ar1ytsi4yxbp6a5o36gwhffs8zoxmbuptici1jy";
const MAX_REVIEW_TEXT_LENGTH: usize = 5_000;

fn valid_review() -> PubkyAppMarketplaceReview {
    let mut review = PubkyAppMarketplaceReview::new(
        AUTHOR.to_string(),
        1,
        "2025-01-01T00:00:00Z".to_string(),
        "2025-01-01T00:00:00Z".to_string(),
        String::new(), // assigned below from the generated hash ID
        SELLER.to_string(),
        SELLER.to_string(),
        "0032SSN7Q4EVG".to_string(),
        PubkyAppReviewRole::BuyerReviewingSeller,
        PubkyAppReviewRatings {
            overall: 5,
            item_accuracy: Some(5),
            shipping: Some(4),
            communication: None,
        },
        "Great seller, fast shipping.".to_string(),
        "a".repeat(64),
    );
    review.review_id = review.create_id();
    review
}

#[test]
fn test_create_id_is_deterministic() {
    let review = valid_review();
    assert_eq!(review.create_id(), review.create_id());

    let mut other = valid_review();
    other.role = PubkyAppReviewRole::SellerReviewingBuyer;
    assert_ne!(review.create_id(), other.create_id());

    let mut other_listing = valid_review();
    other_listing.listing_id = "0032SSN7Q4EVH".to_string();
    assert_ne!(review.create_id(), other_listing.create_id());
}

#[test]
fn marketplace_review_test_create_path() {
    let review = valid_review();
    let path = PubkyAppMarketplaceReview::create_path(&review.review_id);
    assert_eq!(path, format!("/pub/pubky.app/marketplace/v1/reviews/{}", review.review_id));
}

#[test]
fn marketplace_review_test_validate_valid() {
    let review = valid_review();
    let id = review.review_id.clone();
    assert!(review.validate(Some(&id)).is_ok());
}

#[test]
fn test_validate_wrong_id() {
    let review = valid_review();
    assert!(review.validate(Some("WRONGID123456789012345678")).is_err());
}

#[test]
fn test_validate_review_id_mismatch() {
    let mut review = valid_review();
    let id = review.review_id.clone();
    review.review_id = "different_id".to_string();
    // The hash is derived from target fields, not review_id, so the path
    // ID still regenerates; the mismatch against the record must fail.
    assert!(review.validate(Some(&id)).is_err());
}

#[test]
fn test_validate_rating_out_of_range() {
    let mut review = valid_review();
    review.ratings.overall = 0;
    assert!(review.validate(None).is_err());

    let mut review = valid_review();
    review.ratings.shipping = Some(6);
    assert!(review.validate(None).is_err());
}

#[test]
fn test_validate_empty_text_after_trim() {
    let mut review = valid_review();
    review.text = "   ".to_string();
    let review = review.sanitize();
    assert!(review.validate(None).is_err());
}

#[test]
fn test_validate_text_too_long() {
    let mut review = valid_review();
    review.text = "a".repeat(MAX_REVIEW_TEXT_LENGTH + 1);
    assert!(review.validate(None).is_err());
}

#[test]
fn test_validate_attestation_rules() {
    let mut review = valid_review();
    review.eligibility_attestation = "too-short".to_string();
    assert!(review.validate(None).is_err());

    let mut review = valid_review();
    review.eligibility_attestation = format!("{}!", "a".repeat(40));
    assert!(review.validate(None).is_err());
}

#[test]
fn test_validate_invalid_subject() {
    let mut review = valid_review();
    review.subject_pubky = "not-a-pubky".to_string();
    assert!(review.validate(None).is_err());
}

#[test]
fn marketplace_review_test_sanitize_trims_text() {
    let mut review = valid_review();
    review.text = "  Great seller.  ".to_string();
    let review = review.sanitize();
    assert_eq!(review.text, "Great seller.");
}

#[test]
fn review_id_is_a_26_character_crockford_hash_of_the_target() {
    let review = valid_review();
    assert_eq!(review.review_id.chars().count(), 26);
    assert!(review
        .review_id
        .chars()
        .all(|c| c.is_ascii_digit() || c.is_ascii_uppercase()));
    assert_eq!(
        review.get_id_data(),
        format!(
            "pubky://{SELLER}/pub/pubky.app/marketplace/v1/listings/0032SSN7Q4EVG:{SELLER}:buyer_reviewing_seller"
        )
    );
    // Revising the text keeps the id: it hashes the target only.
    let mut revised = valid_review();
    revised.text = "Changed my mind.".to_string();
    revised.revision = 2;
    assert_eq!(revised.create_id(), review.review_id);
    assert!(review.validate_id(&review.review_id).is_ok());
    assert_eq!(review.validate_id("X").unwrap_err(), "Validation Error: Invalid ID");
}

#[test]
fn review_error_messages() {
    let review = valid_review();
    let id = review.review_id.clone();
    let mut bad = valid_review();
    bad.review_id = "different_id".to_string();
    assert_eq!(
        bad.validate(Some(&id)).unwrap_err(),
        "Validation Error: reviewId does not match the review path ID"
    );
    let mut bad = valid_review();
    bad.ratings.communication = Some(9);
    assert_eq!(
        bad.validate(None).unwrap_err(),
        "Validation Error: ratings must be integers between 1 and 5"
    );
    let mut bad = valid_review();
    bad.text = String::new();
    assert_eq!(
        bad.validate(None).unwrap_err(),
        "Validation Error: review text must be 1-5000 characters"
    );
    let mut bad = valid_review();
    bad.eligibility_attestation = "short".to_string();
    assert_eq!(
        bad.validate(None).unwrap_err(),
        "Validation Error: eligibilityAttestation must be 32-4096 characters"
    );
    let mut bad = valid_review();
    bad.eligibility_attestation = format!("{}!", "a".repeat(40));
    assert_eq!(
        bad.validate(None).unwrap_err(),
        "Validation Error: eligibilityAttestation must only contain characters [A-Za-z0-9._~-]"
    );
    assert_eq!(PubkyAppReviewRole::SellerReviewingBuyer.as_str(), "seller_reviewing_buyer");
}

#[test]
fn review_id_matches_the_hash_crates() {
    let review = valid_review();
    let digest = blake3::hash(review.get_id_data().as_bytes());
    let expected = base32::encode(base32::Alphabet::Crockford, &digest.as_bytes()[..16]);
    assert_eq!(review.create_id(), expected);
}

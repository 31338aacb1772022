use pubky_app_specs::{
    marketplace_review_uri_builder, PubkyAppMarketplaceReview, PubkyAppReviewRatings,
    PubkyAppReviewResponse, PubkyAppReviewRole,
};

const AUTHOR: &str = "operrr8wsbpr3ue9d4qj41ge1kcc6r7fdiy6o3ugjrrhi4y77rdo";
const SELLER: &str = "pxnu33x7jtpx9ar1ytsi4yxbp6a5o36gwhffs8zoxmbuptici1jy";
const MAX_RESPONSE_TEXT_LENGTH: usize = 5_000;

fn subject_review() -> PubkyAppMarketplaceReview {
    let mut review = PubkyAppMarketplaceReview::new(
        AUTHOR.to_string(),
        1,
        "2026-08-21T00:00:00Z".to_string(),
        "2026-08-21T00:00:00Z".to_string(),
        String::new(),
        SELLER.to_string(),
        SELLER.to_string(),
        "0032SSN7Q4EVG".to_string(),
        PubkyAppReviewRole::BuyerReviewingSeller,
        PubkyAppReviewRatings { overall: 2, item_accuracy: None, shipping: None, communication: None },
        "Item arrived late.".to_string(),
        "a".repeat(64),
    );
    review.review_id = review.create_id();
    review
}

fn valid_response(review: &PubkyAppMarketplaceReview) -> PubkyAppReviewResponse {
    PubkyAppReviewResponse::new(
        review.subject_pubky.clone(),
        1,
        "2026-08-22T00:00:00Z".to_string(),
        "2026-08-22T00:00:00Z".to_string(),
        review.review_id.clone(),
        marketplace_review_uri_builder(review.owner_pubky.clone(), review.review_id.clone()),
        "Sorry about the delay — carrier lost the parcel; refunded shipping.".to_string(),
    )
}

#[test]
fn test_create_path_uses_review_id() {
    let review = subject_review();
    let response = valid_response(&review);
    assert_eq!(
        PubkyAppReviewResponse::create_path(&response.review_id),
        format!("/pub/pubky.app/marketplace/v1/review_responses/{}", review.review_id)
    );
}

#[test]
fn review_response_test_validate_valid() {
    let review = subject_review();
    let response = valid_response(&review);
    assert!(response.validate(Some(&review.review_id)).is_ok());
    assert!(response.is_authorized_response_to(&review));
}

#[test]
fn review_response_test_validate_path_id_mismatch() {
    let review = subject_review();
    let response = valid_response(&review);
    assert!(response.validate(Some("DIFFERENTID12345678901234")).is_err());
}

#[test]
fn test_validate_review_uri_id_mismatch() {
    let review = subject_review();
    let mut response = valid_response(&review);
    response.review_uri = marketplace_review_uri_builder(
        review.owner_pubky.clone(),
        "8Z8CWH8NVYQY39ZEBFGKQWWEKG".to_string(),
    );
    assert!(response.validate(Some(&review.review_id)).is_err());
}

#[test]
fn test_validate_review_uri_not_a_review() {
    let review = subject_review();
    let mut response = valid_response(&review);
    response.review_uri = format!("pubky://{AUTHOR}/pub/pubky.app/posts/{}", review.review_id);
    assert!(response.validate(Some(&review.review_id)).is_err());
}

#[test]
fn test_validate_rejects_self_hosted_review_uri() {
    let review = subject_review();
    let mut response = valid_response(&review);
    // A record claiming to respond to a review on the responder's own
    // homeserver is structurally impossible in the topology.
    response.review_uri =
        marketplace_review_uri_builder(response.owner_pubky.clone(), review.review_id.clone());
    assert!(response.validate(Some(&review.review_id)).is_err());
}

#[test]
fn test_structural_authorization_rejects_impostor() {
    let review = subject_review();
    let mut response = valid_response(&review);
    // An impostor publishes a response record under their own pubky:
    // shape-valid, but the structural check fails because
    // owner != subjectPubky.
    response.owner_pubky = AUTHOR.to_string();
    assert!(!response.is_authorized_response_to(&review));

    // Wrong review id also fails authorization.
    let mut response = valid_response(&review);
    response.review_id = "8Z8CWH8NVYQY39ZEBFGKQWWEKG".to_string();
    assert!(!response.is_authorized_response_to(&review));
}

#[test]
fn test_validate_text_bounds() {
    let review = subject_review();

    let mut response = valid_response(&review);
    response.text = "   ".to_string();
    let response = response.sanitize();
    assert!(response.validate(Some(&review.review_id)).is_err());

    let mut response = valid_response(&review);
    response.text = "a".repeat(MAX_RESPONSE_TEXT_LENGTH + 1);
    assert!(response.validate(Some(&review.review_id)).is_err());
}

#[test]
fn review_response_test_sanitize_trims_text() {
    let review = subject_review();
    let mut response = valid_response(&review);
    response.text = "  Thanks for the patience.  ".to_string();
    let response = response.sanitize();
    assert_eq!(response.text, "Thanks for the patience.");
}

#[test]
fn test_seller_reviewing_buyer_direction() {
    // Response to a seller_reviewing_buyer review: the buyer is the subject
    // and responds from their homeserver, symmetrically.
    let mut review = subject_review();
    review.role = PubkyAppReviewRole::SellerReviewingBuyer;
    review.owner_pubky = SELLER.to_string();
    review.subject_pubky = AUTHOR.to_string();
    review.review_id = review.create_id();

    let response = valid_response(&review);
    assert_eq!(response.owner_pubky, AUTHOR);
    assert!(response.validate(Some(&review.review_id)).is_ok());
    assert!(response.is_authorized_response_to(&review));
}

#[test]
fn review_response_error_messages() {
    let review = subject_review();
    let mut response = valid_response(&review);
    response.review_uri =
        marketplace_review_uri_builder(response.owner_pubky.clone(), review.review_id.clone());
    assert_eq!(
        response.validate(None).unwrap_err(),
        "Validation Error: reviewUri must not point at the responder's own homeserver"
    );
    let mut response = valid_response(&review);
    response.review_uri = format!("pubky://{AUTHOR}/pub/pubky.app/posts/{}", review.review_id);
    assert_eq!(
        response.validate(None).unwrap_err(),
        "Validation Error: reviewUri must be a canonical marketplace review URI"
    );
    let mut response = valid_response(&review);
    response.review_uri =
        marketplace_review_uri_builder(AUTHOR.to_string(), "OTHER_REVIEW".to_string());
    assert_eq!(
        response.validate(None).unwrap_err(),
        "Validation Error: reviewUri must reference the same reviewId as the record"
    );
    let response = valid_response(&review);
    assert_eq!(
        response.validate(Some("nope")).unwrap_err(),
        "Validation Error: reviewId does not match the response path ID"
    );
}

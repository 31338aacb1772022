use pubky_app_specs::{
    PubkyAppMarketplaceOrderReceipt, PubkyAppMoney, PubkyAppOrderReceiptDrop,
    PubkyAppOrderReceiptRole,
};

const BUYER: &str = "operrr8wsbpr3ue9d4qj41ge1kcc6r7fdiy6o3ugjrrhi4y77rdo";
const SELLER: &str = "pxnu33x7jtpx9ar1ytsi4yxbp6a5o36gwhffs8zoxmbuptici1jy";
const RECEIPT_ID: &str = "a7fc7d5d-0b2a-4083-b278-47193f8fe536";
const ORDER_ID: &str = "0e9c2c4a-91d6-4a4e-8db3-2f14c1e8b7aa";

fn valid_receipt() -> PubkyAppMarketplaceOrderReceipt {
    PubkyAppMarketplaceOrderReceipt::new(
        BUYER.to_string(),
        1,
        "2026-01-02T03:04:05Z".to_string(),
        "2026-01-02T03:04:05Z".to_string(),
        PubkyAppOrderReceiptRole::Buyer,
        RECEIPT_ID.to_string(),
        ORDER_ID.to_string(),
        BUYER.to_string(),
        SELLER.to_string(),
        PubkyAppMoney { amount_minor: 12_000, currency: "USD".to_string(), exponent: 2 },
        "2026-01-02T03:04:05Z".to_string(),
        "a".repeat(64),
    )
}

fn valid_drop_object() -> PubkyAppOrderReceiptDrop {
    PubkyAppOrderReceiptDrop { drop_id: "spring-drop-01".to_string(), edition: 7, of: 500 }
}

#[test]
fn order_receipt_test_create_path_is_private() {
    assert_eq!(
        PubkyAppMarketplaceOrderReceipt::create_path(RECEIPT_ID),
        format!("/priv/pubky.app/marketplace/v1/receipts/{RECEIPT_ID}")
    );
}

#[test]
fn order_receipt_test_validate_valid() {
    assert!(valid_receipt().validate(Some(RECEIPT_ID)).is_ok());
    assert!(valid_receipt().validate(None).is_ok());
}

#[test]
fn test_validate_valid_seller_copy() {
    let mut receipt = valid_receipt();
    receipt.role = PubkyAppOrderReceiptRole::Seller;
    receipt.owner_pubky = SELLER.to_string();
    assert!(receipt.validate(Some(RECEIPT_ID)).is_ok());
}

#[test]
fn order_receipt_test_validate_wrong_record_type() {
    let mut receipt = valid_receipt();
    receipt.record_type = "shop".to_string();
    assert!(receipt.validate(None).is_err());
}

#[test]
fn order_receipt_test_validate_path_id_mismatch() {
    let receipt = valid_receipt();
    assert!(receipt.validate(Some("0e9c2c4a-91d6-4a4e-8db3-2f14c1e8b7aa")).is_err());
}

#[test]
fn test_validate_owner_role_mismatch() {
    // role=buyer but the owner is the seller.
    let mut receipt = valid_receipt();
    receipt.owner_pubky = SELLER.to_string();
    assert!(receipt.validate(None).is_err());

    // role=seller but the owner is the buyer.
    let mut receipt = valid_receipt();
    receipt.role = PubkyAppOrderReceiptRole::Seller;
    assert!(receipt.validate(None).is_err());
}

#[test]
fn test_validate_rejects_same_buyer_and_seller() {
    let mut receipt = valid_receipt();
    receipt.seller_pubky = BUYER.to_string();
    assert!(receipt.validate(None).is_err());
}

#[test]
fn test_validate_rejects_bad_uuids() {
    let mut receipt = valid_receipt();
    receipt.receipt_id = "not-a-uuid".to_string();
    assert!(receipt.validate(None).is_err());

    let mut receipt = valid_receipt();
    receipt.order_id = "A7FC7D5D-0B2A-4083-B278-47193F8FE536".to_string();
    assert!(receipt.validate(None).is_err());

    let mut receipt = valid_receipt();
    receipt.order_id = "a7fc7d5d0b2a4083b27847193f8fe536".to_string();
    assert!(receipt.validate(None).is_err());
}

#[test]
fn test_validate_rejects_bad_pubkys() {
    let mut receipt = valid_receipt();
    receipt.buyer_pubky = "not-a-pubky".to_string();
    receipt.owner_pubky = "not-a-pubky".to_string();
    assert!(receipt.validate(None).is_err());

    let mut receipt = valid_receipt();
    receipt.seller_pubky = "not-a-pubky".to_string();
    assert!(receipt.validate(None).is_err());
}

#[test]
fn test_validate_rejects_bad_money() {
    let mut receipt = valid_receipt();
    receipt.total.amount_minor = 0;
    assert!(receipt.validate(None).is_err());

    let mut receipt = valid_receipt();
    receipt.total.currency = "usd".to_string();
    assert!(receipt.validate(None).is_err());

    let mut receipt = valid_receipt();
    receipt.total.exponent = 19;
    assert!(receipt.validate(None).is_err());
}

#[test]
fn order_receipt_test_validate_rejects_bad_timestamps() {
    // updatedAt precedes createdAt.
    let mut receipt = valid_receipt();
    receipt.created_at = "2026-01-03T00:00:00Z".to_string();
    assert!(receipt.validate(None).is_err());

    let mut receipt = valid_receipt();
    receipt.paid_at = "2026-01-02 03:04:05".to_string();
    assert!(receipt.validate(None).is_err());

    let mut receipt = valid_receipt();
    receipt.paid_at = "not a date".to_string();
    assert!(receipt.validate(None).is_err());
}

#[test]
fn test_validate_attestation_bounds_and_charset() {
    let mut receipt = valid_receipt();
    receipt.receipt_attestation = "too-short".to_string();
    assert!(receipt.validate(None).is_err());

    let mut receipt = valid_receipt();
    receipt.receipt_attestation = "a".repeat(4_097);
    assert!(receipt.validate(None).is_err());

    let mut receipt = valid_receipt();
    receipt.receipt_attestation = format!("{}!", "a".repeat(40));
    assert!(receipt.validate(None).is_err());
}

#[test]
fn test_validate_valid_with_drop_edition_pair() {
    let mut receipt = valid_receipt();
    receipt.edition_attestation = Some("b".repeat(64));
    receipt.drop = Some(valid_drop_object());
    assert!(receipt.validate(Some(RECEIPT_ID)).is_ok());
}

#[test]
fn test_validate_rejects_lone_edition_attestation_or_drop() {
    let mut receipt = valid_receipt();
    receipt.edition_attestation = Some("b".repeat(64));
    assert!(receipt.validate(None).is_err());

    let mut receipt = valid_receipt();
    receipt.drop = Some(valid_drop_object());
    assert!(receipt.validate(None).is_err());
}

#[test]
fn test_validate_edition_attestation_bounds_and_charset() {
    let mut receipt = valid_receipt();
    receipt.drop = Some(valid_drop_object());

    receipt.edition_attestation = Some("too-short".to_string());
    assert!(receipt.validate(None).is_err());

    receipt.edition_attestation = Some("b".repeat(4_097));
    assert!(receipt.validate(None).is_err());

    receipt.edition_attestation = Some(format!("{}!", "b".repeat(40)));
    assert!(receipt.validate(None).is_err());
}

#[test]
fn test_validate_drop_object_rules() {
    let base = || {
        let mut receipt = valid_receipt();
        receipt.edition_attestation = Some("b".repeat(64));
        receipt
    };

    let mut receipt = base();
    receipt.drop = Some(PubkyAppOrderReceiptDrop { drop_id: "has space".to_string(), ..valid_drop_object() });
    assert!(receipt.validate(None).is_err());

    let mut receipt = base();
    receipt.drop = Some(PubkyAppOrderReceiptDrop { edition: 0, ..valid_drop_object() });
    assert!(receipt.validate(None).is_err());

    let mut receipt = base();
    receipt.drop = Some(PubkyAppOrderReceiptDrop { edition: 8, of: 7, ..valid_drop_object() });
    assert!(receipt.validate(None).is_err());

    // edition == of is the last unit of the drop, valid.
    let mut receipt = base();
    receipt.drop = Some(PubkyAppOrderReceiptDrop { edition: 500, of: 500, ..valid_drop_object() });
    assert!(receipt.validate(None).is_ok());
}

#[test]
fn order_receipt_error_messages() {
    let mut receipt = valid_receipt();
    receipt.role = PubkyAppOrderReceiptRole::Seller;
    assert_eq!(
        receipt.validate(None).unwrap_err(),
        "Validation Error: ownerPubky must equal sellerPubky when role is 'seller'"
    );
    let mut receipt = valid_receipt();
    receipt.owner_pubky = SELLER.to_string();
    assert_eq!(
        receipt.validate(None).unwrap_err(),
        "Validation Error: ownerPubky must equal buyerPubky when role is 'buyer'"
    );
    let mut receipt = valid_receipt();
    receipt.seller_pubky = BUYER.to_string();
    assert_eq!(
        receipt.validate(None).unwrap_err(),
        "Validation Error: buyerPubky and sellerPubky must differ"
    );
    let mut receipt = valid_receipt();
    receipt.paid_at = "x".to_string();
    assert_eq!(
        receipt.validate(None).unwrap_err(),
        "Validation Error: paidAt must be an ISO-8601 datetime with offset"
    );
    let mut receipt = valid_receipt();
    receipt.drop = Some(valid_drop_object());
    assert_eq!(
        receipt.validate(None).unwrap_err(),
        "Validation Error: editionAttestation and drop must be present together"
    );
    let mut receipt = valid_receipt();
    receipt.edition_attestation = Some("b".repeat(64));
    receipt.drop = Some(PubkyAppOrderReceiptDrop { edition: 8, of: 7, ..valid_drop_object() });
    assert_eq!(
        receipt.validate(None).unwrap_err(),
        "Validation Error: drop of must not be below the edition number"
    );
    assert_eq!(PubkyAppOrderReceiptRole::Buyer.as_str(), "buyer");
}

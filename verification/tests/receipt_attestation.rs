use base32::{encode as base32_encode, Alphabet};
use ed25519_dalek::{Signer, SigningKey};
use pubky_app_specs::jws::{check_header, decode_payload, frame_compact};
use pubky_app_specs::receipt_attestation::validate_claims;
use pubky_app_specs::{
    base64url_encode, PubkyAppMarketplaceOrderReceipt, PubkyAppMoney,
    PubkyAppOrderReceiptAttestation, PubkyAppOrderReceiptAttestationClaims,
    PubkyAppOrderReceiptRole, ORDER_RECEIPT_ATTESTATION_TYP,
};
use serde_json::Value;

type JsonObject = serde_json::Map<String, Value>;

const BUYER: &str = "operrr8wsbpr3ue9d4qj41ge1kcc6r7fdiy6o3ugjrrhi4y77rdo";
const SELLER: &str = "pxnu33x7jtpx9ar1ytsi4yxbp6a5o36gwhffs8zoxmbuptici1jy";
const RECEIPT_ID: &str = "a7fc7d5d-0b2a-4083-b278-47193f8fe536";
const ORDER_ID: &str = "0e9c2c4a-91d6-4a4e-8db3-2f14c1e8b7aa";
const PAID_AT: &str = "2026-01-02T03:04:05Z";
const PAID_AT_EPOCH_SECONDS: i64 = 1_767_323_045;
const MIN_ATTESTATION_LENGTH: usize = 32;
const MAX_ATTESTATION_LENGTH: usize = 4_096;

fn attestor_key() -> SigningKey {
    SigningKey::from_bytes(&[7u8; 32])
}

fn attestor_pubky(key: &SigningKey) -> String {
    base32_encode(Alphabet::Z, key.verifying_key().as_bytes())
}

fn valid_claims(iss: &str) -> PubkyAppOrderReceiptAttestationClaims {
    PubkyAppOrderReceiptAttestationClaims {
        v: 1,
        iss: iss.to_string(),
        buyer: BUYER.to_string(),
        seller: SELLER.to_string(),
        order: ORDER_ID.to_string(),
        receipt: RECEIPT_ID.to_string(),
        total_minor: 12_000,
        currency: "USD".to_string(),
        exponent: 2,
        paid_at: PAID_AT.to_string(),
        iat: PAID_AT_EPOCH_SECONDS,
    }
}

fn json_string(s: &str) -> String {
    serde_json::to_string(s).unwrap()
}

/// The claims in their normative serialization order.
fn claims_json(c: &PubkyAppOrderReceiptAttestationClaims) -> String {
    format!(
        "{{\"v\":{},\"iss\":{},\"buyer\":{},\"seller\":{},\"order\":{},\"receipt\":{},\"total_minor\":{},\"currency\":{},\"exponent\":{},\"paid_at\":{},\"iat\":{}}}",
        c.v,
        json_string(&c.iss),
        json_string(&c.buyer),
        json_string(&c.seller),
        json_string(&c.order),
        json_string(&c.receipt),
        c.total_minor,
        json_string(&c.currency),
        c.exponent,
        json_string(&c.paid_at),
        c.iat
    )
}

fn header_json(alg: &str, typ: &str) -> String {
    format!("{{\"alg\":{},\"typ\":{}}}", json_string(alg), json_string(typ))
}

fn sign_raw(header: &str, payload: &str, key: &SigningKey) -> String {
    let header_b64 = base64url_encode(header.as_bytes());
    let payload_b64 = base64url_encode(payload.as_bytes());
    let signing_input = format!("{header_b64}.{payload_b64}");
    let signature = key.sign(signing_input.as_bytes());
    format!("{signing_input}.{}", base64url_encode(&signature.to_bytes()))
}

fn sign(claims: &PubkyAppOrderReceiptAttestationClaims, key: &SigningKey) -> String {
    sign_raw(&header_json("EdDSA", ORDER_RECEIPT_ATTESTATION_TYP), &claims_json(claims), key)
}

fn object(bytes: &[u8], what: &str, allowed: &[&str]) -> Result<JsonObject, String> {
    let value: Value = serde_json::from_slice(bytes)
        .map_err(|e| format!("Attestation Error: invalid {what}: {e}"))?;
    let map = match value {
        Value::Object(map) => map,
        _ => return Err(format!("Attestation Error: invalid {what}: not an object")),
    };
    if let Some(key) = map.keys().find(|k| !allowed.contains(&k.as_str())) {
        return Err(format!("Attestation Error: invalid {what}: unknown field `{key}`"));
    }
    Ok(map)
}

fn text(map: &JsonObject, key: &str) -> Result<String, String> {
    map.get(key).and_then(Value::as_str).map(str::to_string).ok_or(format!("Attestation Error: missing {key}"))
}

fn number(map: &JsonObject, key: &str) -> Result<i64, String> {
    map.get(key).and_then(Value::as_i64).ok_or(format!("Attestation Error: missing {key}"))
}

fn parse(compact: &str) -> Result<PubkyAppOrderReceiptAttestation, String> {
    let frame = frame_compact(compact)?;
    let header = object(&frame.header, "header", &["alg", "typ"])?;
    check_header(&text(&header, "alg")?, &text(&header, "typ")?, ORDER_RECEIPT_ATTESTATION_TYP)?;
    let payload = decode_payload(&frame)?;
    let c = object(
        &payload,
        "claims",
        &["v", "iss", "buyer", "seller", "order", "receipt", "total_minor", "currency", "exponent", "paid_at", "iat"],
    )?;
    let claims = PubkyAppOrderReceiptAttestationClaims {
        v: number(&c, "v")?,
        iss: text(&c, "iss")?,
        buyer: text(&c, "buyer")?,
        seller: text(&c, "seller")?,
        order: text(&c, "order")?,
        receipt: text(&c, "receipt")?,
        total_minor: number(&c, "total_minor")?,
        currency: text(&c, "currency")?,
        exponent: number(&c, "exponent")?,
        paid_at: text(&c, "paid_at")?,
        iat: number(&c, "iat")?,
    };
    PubkyAppOrderReceiptAttestation::from_parts(&frame, claims)
}

fn verify_for_order_receipt(
    record: &PubkyAppMarketplaceOrderReceipt,
) -> Result<PubkyAppOrderReceiptAttestation, String> {
    parse(&record.receipt_attestation)?.verify_parsed_for_order_receipt(record)
}

fn matching_receipt(attestation: &str) -> PubkyAppMarketplaceOrderReceipt {
    PubkyAppMarketplaceOrderReceipt::new(
        BUYER.to_string(),
        1,
        PAID_AT.to_string(),
        PAID_AT.to_string(),
        PubkyAppOrderReceiptRole::Buyer,
        RECEIPT_ID.to_string(),
        ORDER_ID.to_string(),
        BUYER.to_string(),
        SELLER.to_string(),
        PubkyAppMoney { amount_minor: 12_000, currency: "USD".to_string(), exponent: 2 },
        PAID_AT.to_string(),
        attestation.to_string(),
    )
}

#[test]
fn order_receipt_attestation_test_valid_attestation_full_recipe() {
    let key = attestor_key();
    let iss = attestor_pubky(&key);
    let claims = valid_claims(&iss);
    let jws = sign(&claims, &key);
    let receipt = matching_receipt(&jws);

    let attestation = verify_for_order_receipt(&receipt).expect("recipe verifies");
    assert_eq!(attestation.claims, claims);
    // The record's own field validation also accepts the JWS charset.
    assert!(receipt.validate(Some(RECEIPT_ID)).is_ok());
}

#[test]
fn order_receipt_attestation_test_deterministic_issuance() {
    // Fixed claim order + deterministic Ed25519: signing the same receipt
    // twice yields the identical compact JWS.
    let key = attestor_key();
    let claims = valid_claims(&attestor_pubky(&key));
    assert_eq!(sign(&claims, &key), sign(&claims, &key));
}

#[test]
fn order_receipt_attestation_test_wrong_key_fails_signature() {
    let key = attestor_key();
    let other_key = SigningKey::from_bytes(&[9u8; 32]);
    let claims = valid_claims(&attestor_pubky(&key));
    let jws = sign(&claims, &other_key);
    let attestation = parse(&jws).expect("structurally valid");
    assert!(attestation.verify_signature().is_err());
}

#[test]
fn order_receipt_attestation_test_tampered_payload_fails_signature() {
    let key = attestor_key();
    let claims = valid_claims(&attestor_pubky(&key));
    let jws = sign(&claims, &key);

    // Re-sign nothing: swap in a payload with a different total while
    // keeping the original signature bytes.
    let mut tampered_claims = claims.clone();
    tampered_claims.total_minor = 1;
    let parts: Vec<&str> = jws.split('.').collect();
    let tampered_payload = base64url_encode(claims_json(&tampered_claims).as_bytes());
    let tampered = format!("{}.{}.{}", parts[0], tampered_payload, parts[2]);

    let attestation = parse(&tampered).expect("structurally valid");
    assert!(attestation.verify_signature().is_err());
}

/// Signs the mutated claims and asserts they no longer bind to the
/// otherwise-matching record, even though the signature stays honest.
fn assert_binding_fails(claims: &PubkyAppOrderReceiptAttestationClaims, key: &SigningKey) {
    let jws = sign(claims, key);
    let receipt = matching_receipt(&jws);
    let attestation = parse(&jws).expect("structurally valid");
    attestation.verify_signature().expect("honest signature");
    assert!(
        attestation.verify_binding(&receipt).is_err(),
        "binding must fail for mutated claims: {claims:?}"
    );
}

#[test]
fn order_receipt_attestation_test_mismatched_bindings_fail_one_by_one() {
    let key = attestor_key();
    let iss = attestor_pubky(&key);

    // buyer/seller swapped relative to the record.
    let mut claims = valid_claims(&iss);
    claims.buyer = SELLER.to_string();
    claims.seller = BUYER.to_string();
    assert_binding_fails(&claims, &key);

    let mut claims = valid_claims(&iss);
    claims.order = "1e9c2c4a-91d6-4a4e-8db3-2f14c1e8b7aa".to_string();
    assert_binding_fails(&claims, &key);

    let mut claims = valid_claims(&iss);
    claims.receipt = "b7fc7d5d-0b2a-4083-b278-47193f8fe536".to_string();
    assert_binding_fails(&claims, &key);

    let mut claims = valid_claims(&iss);
    claims.total_minor = 12_001;
    assert_binding_fails(&claims, &key);

    let mut claims = valid_claims(&iss);
    claims.currency = "EUR".to_string();
    assert_binding_fails(&claims, &key);

    let mut claims = valid_claims(&iss);
    claims.exponent = 3;
    assert_binding_fails(&claims, &key);

    let mut claims = valid_claims(&iss);
    claims.paid_at = "2026-01-02T03:04:06Z".to_string();
    claims.iat = PAID_AT_EPOCH_SECONDS + 1;
    assert_binding_fails(&claims, &key);
}

#[test]
fn order_receipt_attestation_test_unknown_version_rejected() {
    let key = attestor_key();
    let mut claims = valid_claims(&attestor_pubky(&key));
    claims.v = 2;
    let jws = sign(&claims, &key);
    assert!(parse(&jws).is_err());
}

#[test]
fn order_receipt_attestation_test_wrong_header_rejected() {
    let key = attestor_key();
    let claims = valid_claims(&attestor_pubky(&key));
    for header in [
        header_json("ES256", ORDER_RECEIPT_ATTESTATION_TYP),
        header_json("EdDSA", "jwt"),
        // The public purchase attestation's typ is not this typ.
        header_json("EdDSA", "pubky-purchase-attestation+v1"),
        format!(
            "{{\"alg\":\"EdDSA\",\"typ\":{},\"kid\":\"1\"}}",
            json_string(ORDER_RECEIPT_ATTESTATION_TYP)
        ),
    ] {
        let jws = sign_raw(&header, &claims_json(&claims), &key);
        assert!(parse(&jws).is_err());
    }
}

#[test]
fn order_receipt_attestation_test_claim_format_violations_rejected() {
    let key = attestor_key();
    let iss = attestor_pubky(&key);

    let mut bad_iss = valid_claims(&iss);
    bad_iss.iss = "not-a-pubky".to_string();
    assert!(validate_claims(&bad_iss).is_err());

    let mut bad_order = valid_claims(&iss);
    bad_order.order = "A7FC7D5D-0B2A-4083-B278-47193F8FE536".to_string();
    assert!(validate_claims(&bad_order).is_err());

    let mut bad_receipt = valid_claims(&iss);
    bad_receipt.receipt = "a7fc7d5d0b2a4083b27847193f8fe536".to_string();
    assert!(validate_claims(&bad_receipt).is_err());

    let mut zero_total = valid_claims(&iss);
    zero_total.total_minor = 0;
    assert!(validate_claims(&zero_total).is_err());

    let mut bad_currency = valid_claims(&iss);
    bad_currency.currency = "usd".to_string();
    assert!(validate_claims(&bad_currency).is_err());

    let mut bad_exponent = valid_claims(&iss);
    bad_exponent.exponent = 19;
    assert!(validate_claims(&bad_exponent).is_err());

    // Offset form is a valid instant but not the canonical UTC
    // serialization: determinism requires exactly one form.
    let mut offset_paid_at = valid_claims(&iss);
    offset_paid_at.paid_at = "2026-01-02T04:04:05+01:00".to_string();
    assert!(validate_claims(&offset_paid_at).is_err());

    let mut not_a_date = valid_claims(&iss);
    not_a_date.paid_at = "not a date".to_string();
    assert!(validate_claims(&not_a_date).is_err());

    // iat must be derived from paid_at, never the signing wall clock.
    let mut drifted_iat = valid_claims(&iss);
    drifted_iat.iat = PAID_AT_EPOCH_SECONDS + 1;
    assert!(validate_claims(&drifted_iat).is_err());

    assert!(validate_claims(&valid_claims(&iss)).is_ok());
}

#[test]
fn order_receipt_attestation_test_malformed_compact_forms_rejected() {
    assert!(parse("").is_err());
    assert!(parse(&"a".repeat(64)).is_err());
    assert!(parse(&format!("{}.{}", "a".repeat(32), "b".repeat(32))).is_err());
    assert!(parse(&format!(
        "{}.{}.{}.{}",
        "a".repeat(16),
        "b".repeat(16),
        "c".repeat(16),
        "d".repeat(16)
    ))
    .is_err());
    // Padding is not tolerated in unpadded base64url.
    assert!(parse(&format!("{}=.{}.{}", "a".repeat(15), "b".repeat(16), "c".repeat(86))).is_err());
}

#[test]
fn order_receipt_attestation_test_size_within_spec_field_bounds() {
    let key = attestor_key();
    let claims = valid_claims(&attestor_pubky(&key));
    let jws = sign(&claims, &key);
    let length = jws.chars().count();
    assert!(
        (MIN_ATTESTATION_LENGTH..=MAX_ATTESTATION_LENGTH).contains(&length),
        "JWS length {length} outside the spec field bounds"
    );
}

#[test]
fn receipt_claim_messages_and_pre_epoch_instants() {
    let key = attestor_key();
    let iss = attestor_pubky(&key);
    let mut drifted = valid_claims(&iss);
    drifted.iat = PAID_AT_EPOCH_SECONDS + 1;
    assert_eq!(
        validate_claims(&drifted).unwrap_err(),
        "Attestation Error: iat must be the epoch seconds of the paid_at instant"
    );
    let mut offset = valid_claims(&iss);
    offset.paid_at = "2026-01-02T04:04:05+01:00".to_string();
    assert_eq!(
        validate_claims(&offset).unwrap_err(),
        "Attestation Error: paid_at must be an ISO-8601 UTC datetime (Z offset)"
    );
    let mut zero = valid_claims(&iss);
    zero.total_minor = 0;
    assert_eq!(
        validate_claims(&zero).unwrap_err(),
        "Attestation Error: total amountMinor must be a positive safe integer"
    );
    // Half a second before the epoch is second -1 (floor, not truncation).
    let mut early = valid_claims(&iss);
    early.paid_at = "1969-12-31T23:59:59.500Z".to_string();
    early.iat = -1;
    assert!(validate_claims(&early).is_ok());
    early.iat = 0;
    assert!(validate_claims(&early).is_err());
}

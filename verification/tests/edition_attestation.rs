use base32::{encode as base32_encode, Alphabet};
use ed25519_dalek::{Signer, SigningKey};
use pubky_app_specs::edition_attestation::{edition_attestation_of, validate_claims};
use pubky_app_specs::jws::{check_header, decode_payload, frame_compact};
use pubky_app_specs::{
    base64url_encode, PubkyAppDropEditionAttestation, PubkyAppDropEditionAttestationClaims,
    PubkyAppMarketplaceOrderReceipt, PubkyAppMoney, PubkyAppOrderReceiptDrop,
    PubkyAppOrderReceiptRole, DROP_EDITION_ATTESTATION_TYP,
};
use serde_json::Value;

type JsonObject = serde_json::Map<String, Value>;

const BUYER: &str = "operrr8wsbpr3ue9d4qj41ge1kcc6r7fdiy6o3ugjrrhi4y77rdo";
const SELLER: &str = "pxnu33x7jtpx9ar1ytsi4yxbp6a5o36gwhffs8zoxmbuptici1jy";
const RECEIPT_ID: &str = "a7fc7d5d-0b2a-4083-b278-47193f8fe536";
const ORDER_ID: &str = "0e9c2c4a-91d6-4a4e-8db3-2f14c1e8b7aa";
const DROP_ID: &str = "spring-drop-01";
const PAID_AT: &str = "2026-01-02T03:04:05Z";
const PAID_AT_EPOCH_SECONDS: i64 = 1_767_323_045;
const MIN_ATTESTATION_LENGTH: usize = 32;
const MAX_ATTESTATION_LENGTH: usize = 4_096;

fn attestor_key() -> SigningKey {
    SigningKey::from_bytes(&[7u8; 32])
}

fn attestor_pubky(key: &SigningKey) -> String {
    base32_encode(Alphabet::Z, key.verifying_key().as_bytes())
}

fn valid_claims(iss: &str) -> PubkyAppDropEditionAttestationClaims {
    PubkyAppDropEditionAttestationClaims {
        v: 1,
        iss: iss.to_string(),
        buyer: BUYER.to_string(),
        seller: SELLER.to_string(),
        drop: DROP_ID.to_string(),
        edition: 7,
        of: 500,
        receipt: RECEIPT_ID.to_string(),
        iat: PAID_AT_EPOCH_SECONDS,
    }
}

fn json_string(s: &str) -> String {
    serde_json::to_string(s).unwrap()
}

/// The claims in their normative serialization order.
fn claims_json(c: &PubkyAppDropEditionAttestationClaims) -> String {
    format!(
        "{{\"v\":{},\"iss\":{},\"buyer\":{},\"seller\":{},\"drop\":{},\"edition\":{},\"of\":{},\"receipt\":{},\"iat\":{}}}",
        c.v,
        json_string(&c.iss),
        json_string(&c.buyer),
        json_string(&c.seller),
        json_string(&c.drop),
        c.edition,
        c.of,
        json_string(&c.receipt),
        c.iat
    )
}

fn header_json(alg: &str, typ: &str) -> String {
    format!("{{\"alg\":{},\"typ\":{}}}", json_string(alg), json_string(typ))
}

fn sign_raw(header: &str, payload: &str, key: &SigningKey) -> String {
    let header_b64 = base64url_encode(header.as_bytes());
    let payload_b64 = base64url_encode(payload.as_bytes());
    let signing_input = format!("{header_b64}.{payload_b64}");
    let signature = key.sign(signing_input.as_bytes());
    format!("{signing_input}.{}", base64url_encode(&signature.to_bytes()))
}

fn sign(claims: &PubkyAppDropEditionAttestationClaims, key: &SigningKey) -> String {
    sign_raw(&header_json("EdDSA", DROP_EDITION_ATTESTATION_TYP), &claims_json(claims), key)
}

fn object(bytes: &[u8], what: &str, allowed: &[&str]) -> Result<JsonObject, String> {
    let value: Value = serde_json::from_slice(bytes)
        .map_err(|e| format!("Attestation Error: invalid {what}: {e}"))?;
    let map = match value {
        Value::Object(map) => map,
        _ => return Err(format!("Attestation Error: invalid {what}: not an object")),
    };
    if let Some(key) = map.keys().find(|k| !allowed.contains(&k.as_str())) {
        return Err(format!("Attestation Error: invalid {what}: unknown field `{key}`"));
    }
    Ok(map)
}

fn text(map: &JsonObject, key: &str) -> Result<String, String> {
    map.get(key).and_then(Value::as_str).map(str::to_string).ok_or(format!("Attestation Error: missing {key}"))
}

fn number(map: &JsonObject, key: &str) -> Result<i64, String> {
    map.get(key).and_then(Value::as_i64).ok_or(format!("Attestation Error: missing {key}"))
}

fn parse(compact: &str) -> Result<PubkyAppDropEditionAttestation, String> {
    let frame = frame_compact(compact)?;
    let header = object(&frame.header, "header", &["alg", "typ"])?;
    check_header(&text(&header, "alg")?, &text(&header, "typ")?, DROP_EDITION_ATTESTATION_TYP)?;
    let payload = decode_payload(&frame)?;
    let c = object(
        &payload,
        "claims",
        &["v", "iss", "buyer", "seller", "drop", "edition", "of", "receipt", "iat"],
    )?;
    let claims = PubkyAppDropEditionAttestationClaims {
        v: number(&c, "v")?,
        iss: text(&c, "iss")?,
        buyer: text(&c, "buyer")?,
        seller: text(&c, "seller")?,
        drop: text(&c, "drop")?,
        edition: number(&c, "edition")?,
        of: number(&c, "of")?,
        receipt: text(&c, "receipt")?,
        iat: number(&c, "iat")?,
    };
    PubkyAppDropEditionAttestation::from_parts(&frame, claims)
}

fn verify_edition_for_order_receipt(
    record: &PubkyAppMarketplaceOrderReceipt,
) -> Result<PubkyAppDropEditionAttestation, String> {
    let compact = edition_attestation_of(record)?;
    parse(compact)?.verify_parsed_edition_for_order_receipt(record)
}

fn matching_receipt(edition_attestation: &str) -> PubkyAppMarketplaceOrderReceipt {
    let mut receipt = PubkyAppMarketplaceOrderReceipt::new(
        BUYER.to_string(),
        1,
        PAID_AT.to_string(),
        PAID_AT.to_string(),
        PubkyAppOrderReceiptRole::Buyer,
        RECEIPT_ID.to_string(),
        ORDER_ID.to_string(),
        BUYER.to_string(),
        SELLER.to_string(),
        PubkyAppMoney { amount_minor: 12_000, currency: "USD".to_string(), exponent: 2 },
        PAID_AT.to_string(),
        "a".repeat(64),
    );
    receipt.edition_attestation = Some(edition_attestation.to_string());
    receipt.drop = Some(PubkyAppOrderReceiptDrop { drop_id: DROP_ID.to_string(), edition: 7, of: 500 });
    receipt
}

#[test]
fn drop_edition_attestation_test_valid_attestation_full_recipe() {
    let key = attestor_key();
    let iss = attestor_pubky(&key);
    let claims = valid_claims(&iss);
    let jws = sign(&claims, &key);
    let receipt = matching_receipt(&jws);

    let attestation = verify_edition_for_order_receipt(&receipt).expect("recipe verifies");
    assert_eq!(attestation.claims, claims);
    // The record's own field validation also accepts the JWS charset.
    assert!(receipt.validate(Some(RECEIPT_ID)).is_ok());
}

#[test]
fn test_recipe_requires_both_optional_fields() {
    let key = attestor_key();
    let jws = sign(&valid_claims(&attestor_pubky(&key)), &key);

    let mut no_attestation = matching_receipt(&jws);
    no_attestation.edition_attestation = None;
    assert!(verify_edition_for_order_receipt(&no_attestation).is_err());

    let mut no_drop = matching_receipt(&jws);
    no_drop.drop = None;
    assert!(verify_edition_for_order_receipt(&no_drop).is_err());
}

#[test]
fn drop_edition_attestation_test_deterministic_issuance() {
    let key = attestor_key();
    let claims = valid_claims(&attestor_pubky(&key));
    assert_eq!(sign(&claims, &key), sign(&claims, &key));
}

#[test]
fn drop_edition_attestation_test_wrong_key_fails_signature() {
    let key = attestor_key();
    let other_key = SigningKey::from_bytes(&[9u8; 32]);
    let claims = valid_claims(&attestor_pubky(&key));
    let jws = sign(&claims, &other_key);
    let attestation = parse(&jws).expect("structurally valid");
    assert!(attestation.verify_signature().is_err());
}

#[test]
fn drop_edition_attestation_test_tampered_payload_fails_signature() {
    let key = attestor_key();
    let claims = valid_claims(&attestor_pubky(&key));
    let jws = sign(&claims, &key);
    // Swap in a payload claiming a rarer edition while keeping the original
    // signature bytes.
    let mut tampered_claims = claims.clone();
    tampered_claims.edition = 1;
    let parts: Vec<&str> = jws.split('.').collect();
    let tampered_payload = base64url_encode(claims_json(&tampered_claims).as_bytes());
    let tampered = format!("{}.{}.{}", parts[0], tampered_payload, parts[2]);
    let attestation = parse(&tampered).expect("structurally valid");
    assert!(attestation.verify_signature().is_err());
}

fn assert_binding_fails(claims: &PubkyAppDropEditionAttestationClaims, key: &SigningKey) {
    let jws = sign(claims, key);
    let receipt = matching_receipt(&jws);
    let attestation = parse(&jws).expect("structurally valid");
    attestation.verify_signature().expect("honest signature");
    assert!(
        attestation.verify_binding(&receipt).is_err(),
        "binding must fail for mutated claims: {claims:?}"
    );
}

#[test]
fn drop_edition_attestation_test_mismatched_bindings_fail_one_by_one() {
    let key = attestor_key();
    let iss = attestor_pubky(&key);

    let mut claims = valid_claims(&iss);
    claims.buyer = SELLER.to_string();
    claims.seller = BUYER.to_string();
    assert_binding_fails(&claims, &key);

    let mut claims = valid_claims(&iss);
    claims.receipt = "b7fc7d5d-0b2a-4083-b278-47193f8fe536".to_string();
    assert_binding_fails(&claims, &key);

    let mut claims = valid_claims(&iss);
    claims.drop = "another-drop".to_string();
    assert_binding_fails(&claims, &key);

    let mut claims = valid_claims(&iss);
    claims.edition = 8;
    assert_binding_fails(&claims, &key);

    let mut claims = valid_claims(&iss);
    claims.of = 501;
    assert_binding_fails(&claims, &key);
}

#[test]
fn drop_edition_attestation_test_unknown_version_rejected() {
    let key = attestor_key();
    let mut claims = valid_claims(&attestor_pubky(&key));
    claims.v = 2;
    let jws = sign(&claims, &key);
    assert!(parse(&jws).is_err());
}

#[test]
fn drop_edition_attestation_test_wrong_header_rejected() {
    let key = attestor_key();
    let claims = valid_claims(&attestor_pubky(&key));
    for header in [
        header_json("ES256", DROP_EDITION_ATTESTATION_TYP),
        header_json("EdDSA", "jwt"),
        // The receipt attestation's typ is not this typ.
        header_json("EdDSA", "pubky-order-receipt+v1"),
        format!(
            "{{\"alg\":\"EdDSA\",\"typ\":{},\"kid\":\"1\"}}",
            json_string(DROP_EDITION_ATTESTATION_TYP)
        ),
    ] {
        let jws = sign_raw(&header, &claims_json(&claims), &key);
        assert!(parse(&jws).is_err());
    }
}

#[test]
fn drop_edition_attestation_test_claim_format_violations_rejected() {
    let key = attestor_key();
    let iss = attestor_pubky(&key);

    let mut bad_iss = valid_claims(&iss);
    bad_iss.iss = "not-a-pubky".to_string();
    assert!(validate_claims(&bad_iss).is_err());

    let mut bad_drop = valid_claims(&iss);
    bad_drop.drop = "has space".to_string();
    assert!(validate_claims(&bad_drop).is_err());

    let mut bad_receipt = valid_claims(&iss);
    bad_receipt.receipt = "a7fc7d5d0b2a4083b27847193f8fe536".to_string();
    assert!(validate_claims(&bad_receipt).is_err());

    let mut zero_edition = valid_claims(&iss);
    zero_edition.edition = 0;
    assert!(validate_claims(&zero_edition).is_err());

    // of below edition contradicts "edition out of of".
    let mut small_of = valid_claims(&iss);
    small_of.edition = 5;
    small_of.of = 4;
    assert!(validate_claims(&small_of).is_err());

    let mut zero_iat = valid_claims(&iss);
    zero_iat.iat = 0;
    assert!(validate_claims(&zero_iat).is_err());

    assert!(validate_claims(&valid_claims(&iss)).is_ok());
}

#[test]
fn drop_edition_attestation_test_malformed_compact_forms_rejected() {
    assert!(parse("").is_err());
    assert!(parse(&"a".repeat(64)).is_err());
    assert!(parse(&format!("{}.{}", "a".repeat(32), "b".repeat(32))).is_err());
    assert!(parse(&format!(
        "{}.{}.{}.{}",
        "a".repeat(16),
        "b".repeat(16),
        "c".repeat(16),
        "d".repeat(16)
    ))
    .is_err());
    // Padding is not tolerated in unpadded base64url.
    assert!(parse(&format!("{}=.{}.{}", "a".repeat(15), "b".repeat(16), "c".repeat(86))).is_err());
}

#[test]
fn drop_edition_attestation_test_size_within_spec_field_bounds() {
    let key = attestor_key();
    let claims = valid_claims(&attestor_pubky(&key));
    let jws = sign(&claims, &key);
    let length = jws.chars().count();
    assert!(
        (MIN_ATTESTATION_LENGTH..=MAX_ATTESTATION_LENGTH).contains(&length),
        "JWS length {length} outside the spec field bounds"
    );
}

#[test]
fn edition_messages() {
    let key = attestor_key();
    let jws = sign(&valid_claims(&attestor_pubky(&key)), &key);
    let mut no_attestation = matching_receipt(&jws);
    no_attestation.edition_attestation = None;
    assert_eq!(
        edition_attestation_of(&no_attestation).unwrap_err(),
        "Attestation Error: the receipt carries no editionAttestation"
    );
    let mut no_drop = matching_receipt(&jws);
    no_drop.drop = None;
    assert_eq!(
        edition_attestation_of(&no_drop).unwrap_err(),
        "Attestation Error: the receipt carries no drop object"
    );
    let mut small_of = valid_claims(&attestor_pubky(&key));
    small_of.edition = 5;
    small_of.of = 4;
    assert_eq!(
        validate_claims(&small_of).unwrap_err(),
        "Attestation Error: of must not be below the edition number"
    );
    // Without a drop object, the binding covers the receipt and parties only.
    let attestation = parse(&jws).unwrap();
    let mut receipt = matching_receipt(&jws);
    receipt.drop = None;
    assert!(attestation.verify_binding(&receipt).is_ok());
}

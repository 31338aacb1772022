use base32::{encode as base32_encode, Alphabet};
use ed25519_dalek::{Signer, SigningKey};
use pubky_app_specs::attestation::{attestation_error, validate_amount_band, validate_civil_date};
use pubky_app_specs::jws::{check_header, decode_payload, frame_compact};
use pubky_app_specs::purchase_attestation::validate_claims;
use pubky_app_specs::{
    base64url_encode, listing_uri_builder, PubkyAppMarketplaceReview,
    PubkyAppPurchaseAttestation, PubkyAppPurchaseAttestationClaims, PubkyAppReviewRatings,
    PubkyAppReviewRole, PURCHASE_ATTESTATION_TYP,
};
use serde_json::Value;

type JsonObject = serde_json::Map<String, Value>;

const AUTHOR: &str = "operrr8wsbpr3ue9d4qj41ge1kcc6r7fdiy6o3ugjrrhi4y77rdo";
const SELLER: &str = "pxnu33x7jtpx9ar1ytsi4yxbp6a5o36gwhffs8zoxmbuptici1jy";
const MIN_ATTESTATION_LENGTH: usize = 32;
const MAX_ATTESTATION_LENGTH: usize = 4_096;

fn attestor_key() -> SigningKey {
    SigningKey::from_bytes(&[7u8; 32])
}

fn attestor_pubky(key: &SigningKey) -> String {
    base32_encode(Alphabet::Z, key.verifying_key().as_bytes())
}

fn valid_claims(iss: &str) -> PubkyAppPurchaseAttestationClaims {
    PubkyAppPurchaseAttestationClaims {
        v: 1,
        iss: iss.to_string(),
        sub: AUTHOR.to_string(),
        cpk: SELLER.to_string(),
        role: "buyer_reviewing_seller".to_string(),
        listing: listing_uri_builder(SELLER.to_string(), "0032SSN7Q4EVG".to_string()),
        order_ref: "a".repeat(64),
        completed_on: "2026-08-21".to_string(),
        amount_band: Some("SAT:5".to_string()),
        iat: 1_787_654_321,
    }
}

fn json_string(s: &str) -> String {
    serde_json::to_string(s).unwrap()
}

/// The claims as an issuer serializes them (field order of the claim set).
fn claims_json(c: &PubkyAppPurchaseAttestationClaims) -> String {
    let band = match &c.amount_band {
        Some(b) => format!(",\"amount_band\":{}", json_string(b)),
        None => String::new(),
    };
    format!(
        "{{\"v\":{},\"iss\":{},\"sub\":{},\"cpk\":{},\"role\":{},\"listing\":{},\"order_ref\":{},\"completed_on\":{}{},\"iat\":{}}}",
        c.v,
        json_string(&c.iss),
        json_string(&c.sub),
        json_string(&c.cpk),
        json_string(&c.role),
        json_string(&c.listing),
        json_string(&c.order_ref),
        json_string(&c.completed_on),
        band,
        c.iat
    )
}

fn header_json(alg: &str, typ: &str) -> String {
    format!("{{\"alg\":{},\"typ\":{}}}", json_string(alg), json_string(typ))
}

fn sign_raw(header: &str, payload: &str, key: &SigningKey) -> String {
    let header_b64 = base64url_encode(header.as_bytes());
    let payload_b64 = base64url_encode(payload.as_bytes());
    let signing_input = format!("{header_b64}.{payload_b64}");
    let signature = key.sign(signing_input.as_bytes());
    format!("{signing_input}.{}", base64url_encode(&signature.to_bytes()))
}

fn sign(claims: &PubkyAppPurchaseAttestationClaims, key: &SigningKey) -> String {
    sign_raw(&header_json("EdDSA", PURCHASE_ATTESTATION_TYP), &claims_json(claims), key)
}

fn object(bytes: &[u8], what: &str, allowed: &[&str]) -> Result<JsonObject, String> {
    let value: Value = serde_json::from_slice(bytes)
        .map_err(|e| format!("Attestation Error: invalid {what}: {e}"))?;
    let map = match value {
        Value::Object(map) => map,
        _ => return Err(format!("Attestation Error: invalid {what}: not an object")),
    };
    if let Some(key) = map.keys().find(|k| !allowed.contains(&k.as_str())) {
        return Err(format!("Attestation Error: invalid {what}: unknown field `{key}`"));
    }
    Ok(map)
}

fn text(map: &JsonObject, key: &str) -> Result<String, String> {
    map.get(key)
        .and_then(Value::as_str)
        .map(str::to_string)
        .ok_or(format!("Attestation Error: missing {key}"))
}

fn number(map: &JsonObject, key: &str) -> Result<i64, String> {
    map.get(key).and_then(Value::as_i64).ok_or(format!("Attestation Error: missing {key}"))
}

/// Parses a compact JWS the way a verifier does: framing and checks by the
/// library, the closed JSON header and claim set read here.
fn parse(compact: &str) -> Result<PubkyAppPurchaseAttestation, String> {
    let frame = frame_compact(compact)?;
    let header = object(&frame.header, "header", &["alg", "typ"])?;
    check_header(&text(&header, "alg")?, &text(&header, "typ")?, PURCHASE_ATTESTATION_TYP)?;
    let payload = decode_payload(&frame)?;
    let claims = object(
        &payload,
        "claims",
        &["v", "iss", "sub", "cpk", "role", "listing", "order_ref", "completed_on", "amount_band", "iat"],
    )?;
    let claims = PubkyAppPurchaseAttestationClaims {
        v: number(&claims, "v")?,
        iss: text(&claims, "iss")?,
        sub: text(&claims, "sub")?,
        cpk: text(&claims, "cpk")?,
        role: text(&claims, "role")?,
        listing: text(&claims, "listing")?,
        order_ref: text(&claims, "order_ref")?,
        completed_on: text(&claims, "completed_on")?,
        amount_band: claims.get("amount_band").and_then(Value::as_str).map(str::to_string),
        iat: number(&claims, "iat")?,
    };
    PubkyAppPurchaseAttestation::from_parts(&frame, claims)
}

fn verify_for_review(review: &PubkyAppMarketplaceReview) -> Result<PubkyAppPurchaseAttestation, String> {
    parse(&review.eligibility_attestation)?.verify_parsed_for_review(review)
}

fn matching_review(attestation: &str) -> PubkyAppMarketplaceReview {
    let mut review = PubkyAppMarketplaceReview::new(
        AUTHOR.to_string(),
        1,
        "2026-08-21T00:00:00Z".to_string(),
        "2026-08-21T00:00:00Z".to_string(),
        String::new(),
        SELLER.to_string(),
        SELLER.to_string(),
        "0032SSN7Q4EVG".to_string(),
        PubkyAppReviewRole::BuyerReviewingSeller,
        PubkyAppReviewRatings { overall: 5, item_accuracy: None, shipping: None, communication: None },
        "Great seller, fast shipping.".to_string(),
        attestation.to_string(),
    );
    review.review_id = review.create_id();
    review
}

#[test]
fn marketplace_attestation_test_valid_attestation_full_recipe() {
    let key = attestor_key();
    let iss = attestor_pubky(&key);
    let claims = valid_claims(&iss);
    let jws = sign(&claims, &key);
    let review = matching_review(&jws);

    let attestation = verify_for_review(&review).expect("recipe verifies");
    assert_eq!(attestation.claims, claims);
    // The record's own field validation also accepts the JWS charset.
    let id = review.review_id.clone();
    assert!(review.validate(Some(&id)).is_ok());
}

#[test]
fn marketplace_attestation_test_wrong_key_fails_signature() {
    let key = attestor_key();
    let other_key = SigningKey::from_bytes(&[9u8; 32]);
    // Claims name the honest attestor, but the signature is forged with
    // another key.
    let claims = valid_claims(&attestor_pubky(&key));
    let jws = sign(&claims, &other_key);
    let attestation = parse(&jws).expect("structurally valid");
    assert!(attestation.verify_signature().is_err());
    assert_eq!(
        attestation.verify_signature().unwrap_err(),
        "Attestation Error: signature verification failed"
    );
}

#[test]
fn test_mismatched_binding_fails() {
    let key = attestor_key();
    let iss = attestor_pubky(&key);

    // sub names a different author than the record owner.
    let mut claims = valid_claims(&iss);
    claims.sub = SELLER.to_string();
    claims.cpk = AUTHOR.to_string();
    let jws = sign(&claims, &key);
    let review = matching_review(&jws);
    let attestation = parse(&jws).expect("structurally valid");
    attestation.verify_signature().expect("honest signature");
    assert!(attestation.verify_binding(&review).is_err());

    // listing names a different listing than the record.
    let mut claims = valid_claims(&iss);
    claims.listing = listing_uri_builder(SELLER.to_string(), "0032SSN7Q4EVH".into());
    let jws = sign(&claims, &key);
    let review = matching_review(&jws);
    let attestation = parse(&jws).expect("structurally valid");
    assert!(attestation.verify_binding(&review).is_err());

    // role differs from the record's role.
    let mut claims = valid_claims(&iss);
    claims.role = "seller_reviewing_buyer".to_string();
    let jws = sign(&claims, &key);
    let review = matching_review(&jws);
    let attestation = parse(&jws).expect("structurally valid");
    assert!(attestation.verify_binding(&review).is_err());
}

#[test]
fn marketplace_attestation_test_unknown_version_rejected() {
    let key = attestor_key();
    let mut claims = valid_claims(&attestor_pubky(&key));
    claims.v = 2;
    let jws = sign(&claims, &key);
    assert!(parse(&jws).is_err());
}

#[test]
fn marketplace_attestation_test_wrong_header_rejected() {
    let key = attestor_key();
    let claims = valid_claims(&attestor_pubky(&key));
    for header in [
        header_json("ES256", PURCHASE_ATTESTATION_TYP),
        header_json("EdDSA", "jwt"),
        format!(
            "{{\"alg\":\"EdDSA\",\"typ\":{},\"kid\":\"1\"}}",
            json_string(PURCHASE_ATTESTATION_TYP)
        ),
    ] {
        let jws = sign_raw(&header, &claims_json(&claims), &key);
        assert!(parse(&jws).is_err());
    }
}

#[test]
fn marketplace_attestation_test_claim_format_violations_rejected() {
    let key = attestor_key();
    let iss = attestor_pubky(&key);

    let mut bad_order_ref = valid_claims(&iss);
    bad_order_ref.order_ref = "UPPERCASE".repeat(8);
    assert!(validate_claims(&bad_order_ref).is_err());

    let mut bad_date = valid_claims(&iss);
    bad_date.completed_on = "2026-02-30".to_string();
    assert!(validate_claims(&bad_date).is_err());

    let mut timestamp_not_date = valid_claims(&iss);
    timestamp_not_date.completed_on = "2026-08-21T10:00:00Z".to_string();
    assert!(validate_claims(&timestamp_not_date).is_err());

    let mut bad_band = valid_claims(&iss);
    bad_band.amount_band = Some("sat:5".to_string());
    assert!(validate_claims(&bad_band).is_err());

    let mut bad_band_magnitude = valid_claims(&iss);
    bad_band_magnitude.amount_band = Some("SAT:19".to_string());
    assert!(validate_claims(&bad_band_magnitude).is_err());

    let mut band_without_magnitude = valid_claims(&iss);
    band_without_magnitude.amount_band = Some("SAT".to_string());
    assert!(validate_claims(&band_without_magnitude).is_err());

    let mut bad_listing = valid_claims(&iss);
    bad_listing.listing = format!("pubky://{SELLER}/pub/pubky.app/posts/0032SSN7Q4EVG");
    assert!(validate_claims(&bad_listing).is_err());

    let mut bad_iss = valid_claims(&iss);
    bad_iss.iss = "not-a-pubky".to_string();
    assert!(validate_claims(&bad_iss).is_err());

    let mut band_absent = valid_claims(&iss);
    band_absent.amount_band = None;
    assert!(validate_claims(&band_absent).is_ok());
}

#[test]
fn marketplace_attestation_test_malformed_compact_forms_rejected() {
    assert!(parse("").is_err());
    assert!(parse(&"a".repeat(64)).is_err());
    assert!(parse(&format!("{}.{}", "a".repeat(32), "b".repeat(32))).is_err());
    assert!(parse(&format!(
        "{}.{}.{}.{}",
        "a".repeat(16),
        "b".repeat(16),
        "c".repeat(16),
        "d".repeat(16)
    ))
    .is_err());
    // Padding is not tolerated in unpadded base64url.
    assert!(parse(&format!("{}=.{}.{}", "a".repeat(15), "b".repeat(16), "c".repeat(86))).is_err());
}

#[test]
fn marketplace_attestation_test_size_within_spec_field_bounds() {
    let key = attestor_key();
    let claims = valid_claims(&attestor_pubky(&key));
    let jws = sign(&claims, &key);
    let length = jws.chars().count();
    assert!(
        (MIN_ATTESTATION_LENGTH..=MAX_ATTESTATION_LENGTH).contains(&length),
        "JWS length {length} outside the spec field bounds"
    );
}

#[test]
fn framing_messages() {
    assert_eq!(
        frame_compact("").err().unwrap(),
        "Attestation Error: compact JWS must be 32-4096 characters"
    );
    assert_eq!(
        frame_compact(&format!("{}!", "a".repeat(40))).err().unwrap(),
        "Attestation Error: compact JWS must only contain characters [A-Za-z0-9._~-]"
    );
    assert_eq!(
        frame_compact(&"a".repeat(64)).err().unwrap(),
        "Attestation Error: compact JWS must have exactly three segments"
    );
    assert_eq!(
        frame_compact(&format!("{}.{}.{}", "a".repeat(17), "b".repeat(16), "c".repeat(16)))
            .err()
            .unwrap(),
        "Attestation Error: header is not valid base64url"
    );
    let key = attestor_key();
    let jws = sign(&valid_claims(&attestor_pubky(&key)), &key);
    let frame = frame_compact(&jws).unwrap();
    let parts: Vec<&str> = jws.split('.').collect();
    assert_eq!(frame.header_b64, parts[0]);
    assert_eq!(frame.payload_b64, parts[1]);
    assert_eq!(frame.signature_b64, parts[2]);
    assert_eq!(frame.header, header_json("EdDSA", PURCHASE_ATTESTATION_TYP).into_bytes());
    assert_eq!(
        check_header("EdDSA", "jwt", PURCHASE_ATTESTATION_TYP).unwrap_err(),
        "Attestation Error: typ must be pubky-purchase-attestation+v1"
    );
    assert_eq!(check_header("none", "jwt", "x").unwrap_err(), "Attestation Error: alg must be EdDSA");
}

#[test]
fn claim_messages_are_attestation_messages() {
    let key = attestor_key();
    let mut claims = valid_claims(&attestor_pubky(&key));
    claims.cpk = "nope".to_string();
    assert_eq!(
        validate_claims(&claims).unwrap_err(),
        "Attestation Error: cpk must be a 52-character z-base-32 pubky"
    );
    assert_eq!(
        attestation_error("Validation Error: x; Validation Error: y".to_string()),
        "Attestation Error: x; Attestation Error: y"
    );
    assert_eq!(attestation_error("no prefix".to_string()), "no prefix");
}

#[test]
fn civil_dates_and_bands() {
    assert!(validate_civil_date("2024-02-29").is_ok());
    assert!(validate_civil_date("2023-02-29").is_err());
    assert!(validate_civil_date("2024-13-01").is_err());
    assert!(validate_civil_date("2024-1-01").is_err());
    assert_eq!(
        validate_civil_date("x").unwrap_err(),
        "Attestation Error: completed_on must be a YYYY-MM-DD date"
    );
    for good in ["SAT:5", "USD:0", "USD:18", "USD:05", "USD:+5", "BTC2:1"] {
        assert!(validate_amount_band(good).is_ok(), "{good}");
    }
    for bad in ["SAT:19", "SAT:", "SAT:+", "SAT:-1", "SA:5", "sat:5", "1SAT:5", "SAT:5:5", "SAT:123"] {
        assert!(validate_amount_band(bad).is_err(), "{bad}");
    }
}

#[test]
fn tampered_payload_breaks_the_signature() {
    let key = attestor_key();
    let claims = valid_claims(&attestor_pubky(&key));
    let jws = sign(&claims, &key);
    let mut tampered_claims = claims.clone();
    tampered_claims.iat += 1;
    let parts: Vec<&str> = jws.split('.').collect();
    let tampered = format!(
        "{}.{}.{}",
        parts[0],
        base64url_encode(claims_json(&tampered_claims).as_bytes()),
        parts[2]
    );
    let attestation = parse(&tampered).expect("structurally valid");
    assert!(attestation.verify_signature().is_err());
    // An issuer that is not a curve point is refused as a key.
    let mut bad_iss = claims.clone();
    bad_iss.iss = "y".repeat(52);
    let bad = parse(&sign(&bad_iss, &key));
    if let Ok(attestation) = bad {
        assert!(attestation.verify_signature().is_err());
    }
}

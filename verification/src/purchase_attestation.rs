//! The marketplace purchase attestation: a durable, publicly verifiable
//! compact JWS (`alg: EdDSA`) embedded in a review record's
//! `eligibilityAttestation` field.
//!
//! Verification recipe: frame the compact serialization
//! ([`crate::jws::frame_compact`]), read the closed header and claim set
//! from their JSON and assemble them with
//! [`PubkyAppPurchaseAttestation::from_parts`]; then verify the issuer's
//! signature ([`PubkyAppPurchaseAttestation::verify_signature`]) and the
//! claim bindings against the review record
//! ([`PubkyAppPurchaseAttestation::verify_binding`]). Whether `iss` is
//! trusted remains the verifier's own policy.
use vstd::prelude::*;
use crate::attestation::{
    amount_band_check, as_attestation, attestation_error, civil_date_check, validate_amount_band,
    validate_civil_date,
};
use crate::jws::{
    decode_signature, frame_signing_input, issuer_signature_check, signature_segment_check,
    signing_input, verify_issuer_signature, JwsFrame,
};
use crate::marketplace::{
    pubky_holds, entity_id_holds, lemma_field_checks_iff,
    hex_hash_check, pubky_check, validate_hex_hash, validate_pubky, MAX_SAFE_INTEGER,
};
use crate::review::{review_role_name, PubkyAppMarketplaceReview, PubkyAppReviewRole};
use crate::text::{and_then, outcome, owned, str_eq};
use crate::uri::{canonical_record_uri, listing_uri, listing_uri_builder, parse_listing_uri};

verus! {

/// The exact JOSE `typ` value of a v1 purchase attestation.
pub const PURCHASE_ATTESTATION_TYP: &'static str = "pubky-purchase-attestation+v1";

/// The only claim-set version accepted.
pub const PURCHASE_ATTESTATION_VERSION: i64 = 1;

/// The `v: 1` claim set of a purchase attestation.
///
/// `completed_on` is day-granularity, `order_ref` an attestor-salted hash
/// and `amount_band` an optional log-decade band: never exact amounts,
/// addresses or payment ids.
#[derive(Debug, Clone, PartialEq, Eq)]
pub struct PubkyAppPurchaseAttestationClaims {
    /// Claim-set version; always `1`.
    pub v: i64,
    /// Attestor pubky (z-base-32 of the Ed25519 verification key).
    pub iss: String,
    /// Author pubky; must equal the review record's `ownerPubky`.
    pub sub: String,
    /// Counterparty pubky; must equal the review record's `subjectPubky`.
    pub cpk: String,
    /// Review role, `buyer_reviewing_seller` or `seller_reviewing_buyer`.
    pub role: String,
    /// Canonical listing URI.
    pub listing: String,
    /// Attestor-salted BLAKE3 of the private order UUID, lowercase hex.
    pub order_ref: String,
    /// Order completion date, day granularity (`YYYY-MM-DD`).
    pub completed_on: String,
    /// Optional log-decade amount band, `{CURRENCY}:{floor(log10(minor))}`.
    pub amount_band: Option<String>,
    /// Issuance time, seconds since the UNIX epoch.
    pub iat: i64,
}

/// The outcome of checking the role claim.
pub open spec fn role_claim_check(role: Seq<char>) -> Result<(), Seq<char>> {
    if role == "buyer_reviewing_seller"@ || role == "seller_reviewing_buyer"@ {
        Ok(())
    } else {
        Err("Attestation Error: role must be buyer_reviewing_seller or seller_reviewing_buyer"@)
    }
}

/// The outcome of checking the listing claim.
pub open spec fn listing_claim_check(listing: Seq<char>) -> Result<(), Seq<char>> {
    if canonical_record_uri(listing, "marketplace/v1/listings/"@) is Some {
        Ok(())
    } else {
        Err("Attestation Error: listing must be a canonical listing URI"@)
    }
}

/// The outcome of checking the optional amount band.
pub open spec fn band_claim_check(band: Option<String>) -> Result<(), Seq<char>> {
    match band {
        Some(b) => amount_band_check(b@),
        None => Ok(()),
    }
}

/// The outcome of checking an epoch-seconds issuance time.
pub open spec fn iat_check(iat: i64) -> Result<(), Seq<char>> {
    if 1 <= iat <= MAX_SAFE_INTEGER {
        Ok(())
    } else {
        Err("Attestation Error: iat must be a positive safe integer"@)
    }
}

/// The outcome of validating a purchase claim set.
pub open spec fn purchase_claims_check(c: PubkyAppPurchaseAttestationClaims) -> Result<(), Seq<char>> {
    if c.v != PURCHASE_ATTESTATION_VERSION {
        Err("Attestation Error: v must be 1"@)
    } else {
        and_then(
            as_attestation(pubky_check(c.iss@, "iss"@)),
            and_then(
                as_attestation(pubky_check(c.sub@, "sub"@)),
                and_then(
                    as_attestation(pubky_check(c.cpk@, "cpk"@)),
                    and_then(
                        role_claim_check(c.role@),
                        and_then(
                            listing_claim_check(c.listing@),
                            and_then(
                                as_attestation(hex_hash_check(c.order_ref@, "order_ref"@)),
                                and_then(
                                    civil_date_check(c.completed_on@),
                                    and_then(band_claim_check(c.amount_band), iat_check(c.iat)),
                                ),
                            ),
                        ),
                    ),
                ),
            ),
        )
    }
}

/// Runs a field check and restates its message as an attestation message.
pub fn attest(r: Result<(), String>) -> (out: Result<(), String>)
    ensures
        outcome(out) == as_attestation(outcome(r)),
{
    match r {
        Ok(()) => Ok(()),
        Err(e) => Err(attestation_error(e)),
    }
}

/// The claims a valid purchase attestation carries: version 1, issuer,
/// author and counterparty pubkys, one of the two review roles, a
/// 64-character lowercase hex order reference and a positive safe issuance
/// time.
pub open spec fn purchase_claims_hold(c: PubkyAppPurchaseAttestationClaims) -> bool {
    &&& c.v == 1
    &&& pubky_holds(c.iss@)
    &&& pubky_holds(c.sub@)
    &&& pubky_holds(c.cpk@)
    &&& (c.role@ == "buyer_reviewing_seller"@ || c.role@ == "seller_reviewing_buyer"@)
    &&& c.order_ref@.len() == 64
    &&& 1 <= c.iat <= MAX_SAFE_INTEGER
}

/// Validates a purchase claim set: version, pubkys, role, canonical listing
/// URI, order reference, completion date, amount band and issuance time.
pub fn validate_claims(claims: &PubkyAppPurchaseAttestationClaims) -> (r: Result<(), String>)
    ensures
        outcome(r) == purchase_claims_check(*claims),
        r is Ok ==> purchase_claims_hold(*claims),
{
    proof {
        lemma_field_checks_iff(claims.iss@, "iss"@);
        lemma_field_checks_iff(claims.sub@, "sub"@);
        lemma_field_checks_iff(claims.cpk@, "cpk"@);
    }
    if claims.v != PURCHASE_ATTESTATION_VERSION {
        return Err(owned("Attestation Error: v must be 1"));
    }
    attest(validate_pubky(claims.iss.as_str(), "iss"))?;
    attest(validate_pubky(claims.sub.as_str(), "sub"))?;
    attest(validate_pubky(claims.cpk.as_str(), "cpk"))?;
    if !str_eq(claims.role.as_str(), "buyer_reviewing_seller") && !str_eq(
        claims.role.as_str(),
        "seller_reviewing_buyer",
    ) {
        return Err(
            owned(
                "Attestation Error: role must be buyer_reviewing_seller or seller_reviewing_buyer",
            ),
        );
    }
    if parse_listing_uri(claims.listing.as_str()).is_none() {
        return Err(owned("Attestation Error: listing must be a canonical listing URI"));
    }
    attest(validate_hex_hash(claims.order_ref.as_str(), "order_ref"))?;
    validate_civil_date(claims.completed_on.as_str())?;
    match &claims.amount_band {
        Some(band) => validate_amount_band(band.as_str())?,
        None => {},
    }
    if !(1 <= claims.iat && claims.iat <= MAX_SAFE_INTEGER) {
        return Err(owned("Attestation Error: iat must be a positive safe integer"));
    }
    Ok(())
}

impl PubkyAppPurchaseAttestationClaims {
    /// Validates the claim set (the path id plays no part).
    pub fn validate(&self, _id: Option<&str>) -> (r: Result<(), String>)
        ensures
            outcome(r) == purchase_claims_check(*self),
    {
        validate_claims(self)
    }
}

/// A parsed, structurally valid purchase attestation. Being parsed does not
/// mean the signature was checked: see
/// [`PubkyAppPurchaseAttestation::verify_signature`].
#[derive(Debug, Clone, PartialEq, Eq)]
pub struct PubkyAppPurchaseAttestation {
    pub claims: PubkyAppPurchaseAttestationClaims,
    /// The exact text the signature covers: `header_b64 || '.' || payload_b64`.
    signing_input: String,
    signature: [u8; 64],
}

/// The outcome of binding a purchase claim set to a review record.
pub open spec fn purchase_binding_check(
    c: PubkyAppPurchaseAttestationClaims,
    review: PubkyAppMarketplaceReview,
) -> Result<(), Seq<char>> {
    if c.sub@ != review.owner_pubky@ {
        Err("Attestation Error: sub does not match the review owner"@)
    } else if c.cpk@ != review.subject_pubky@ {
        Err("Attestation Error: cpk does not match the review subject"@)
    } else if c.listing@ != listing_uri(review.listing_owner_pubky@, review.listing_id@) {
        Err("Attestation Error: listing does not match the reviewed listing"@)
    } else if c.role@ != review_role_name(review.role) {
        Err("Attestation Error: role does not match the review role"@)
    } else {
        Ok(())
    }
}

/// The claims name this review's purchase: `sub` is the review's owner,
/// `cpk` its subject, `listing` the canonical URI of the reviewed listing
/// and `role` the review's role.
pub open spec fn purchase_binds(c: PubkyAppPurchaseAttestationClaims, review: PubkyAppMarketplaceReview) -> bool {
    &&& c.sub@ == review.owner_pubky@
    &&& c.cpk@ == review.subject_pubky@
    &&& c.listing@ == listing_uri(review.listing_owner_pubky@, review.listing_id@)
    &&& c.role@ == review_role_name(review.role)
}

/// A claim set binds to a record exactly when every bound claim equals the
/// record's field.
pub proof fn lemma_purchase_binds_iff(c: PubkyAppPurchaseAttestationClaims, review: PubkyAppMarketplaceReview)
    ensures
        purchase_binding_check(c, review) is Ok <==> purchase_binds(c, review),
{
}

/// The outcome of assembling an attestation from its claim set and its
/// signature segment: the claims are checked first.
pub open spec fn assembly_check(c: PubkyAppPurchaseAttestationClaims, signature_b64: Seq<char>) -> Result<(), Seq<char>> {
    match purchase_claims_check(c) {
        Err(e) => Err(e),
        Ok(_) => match signature_segment_check(signature_b64) {
            Err(e) => Err(e),
            Ok(_) => Ok(()),
        },
    }
}

impl PubkyAppPurchaseAttestation {
    /// The parsed claim set.
    pub closed spec fn parsed_claims(&self) -> PubkyAppPurchaseAttestationClaims {
        self.claims
    }

    /// The text the signature covers.
    pub closed spec fn signed_text(&self) -> Seq<char> {
        self.signing_input@
    }

    /// The 64 signature bytes.
    pub closed spec fn signature_bytes(&self) -> Seq<u8> {
        self.signature@
    }

    /// Assembles a parsed attestation from a framed compact JWS whose
    /// header has been checked and whose payload gave `claims`: validates
    /// the claims, then decodes the 64-byte signature.
    pub fn from_parts(frame: &JwsFrame, claims: PubkyAppPurchaseAttestationClaims) -> (r: Result<
        Self,
        String,
    >)
        ensures
            match r {
                Ok(a) => assembly_check(claims, frame.signature_b64@) is Ok && a.parsed_claims() == claims
                    && a.signed_text() == signing_input(frame.header_b64@, frame.payload_b64@)
                    && signature_segment_check(frame.signature_b64@) == Ok::<Seq<u8>, Seq<char>>(
                    a.signature_bytes(),
                ),
                Err(e) => assembly_check(claims, frame.signature_b64@) == Err::<(), Seq<char>>(
                    e@,
                ),
            },
    {
        validate_claims(&claims)?;
        let signature = decode_signature(frame.signature_b64.as_str())?;
        Ok(PubkyAppPurchaseAttestation {
            claims,
            signing_input: frame_signing_input(frame),
            signature,
        })
    }

    /// Verifies the Ed25519 signature against the issuer key carried in the
    /// `iss` claim.
    pub fn verify_signature(&self) -> (r: Result<(), String>)
        ensures
            outcome(r) == issuer_signature_check(
                self.parsed_claims().iss@,
                vstd::utf8::encode_utf8(self.signed_text()),
                self.signature_bytes(),
            ),
    {
        verify_issuer_signature(self.claims.iss.as_str(), self.signing_input.as_str(), &self.signature)
    }

    /// Checks that the claims cover exactly this review record: `sub` is
    /// the record owner, `cpk` the subject, `listing` the canonical listing
    /// URI and `role` the record role.
    pub fn verify_binding(&self, review: &PubkyAppMarketplaceReview) -> (r: Result<(), String>)
        ensures
            outcome(r) == purchase_binding_check(self.parsed_claims(), *review),
            r is Ok <==> purchase_binds(self.parsed_claims(), *review),
    {
        proof {
            lemma_purchase_binds_iff(self.parsed_claims(), *review);
        }
        if !str_eq(self.claims.sub.as_str(), review.owner_pubky.as_str()) {
            return Err(owned("Attestation Error: sub does not match the review owner"));
        }
        if !str_eq(self.claims.cpk.as_str(), review.subject_pubky.as_str()) {
            return Err(owned("Attestation Error: cpk does not match the review subject"));
        }
        let uri = listing_uri_builder(review.listing_owner_pubky.clone(), review.listing_id.clone());
        if !str_eq(self.claims.listing.as_str(), uri.as_str()) {
            return Err(owned("Attestation Error: listing does not match the reviewed listing"));
        }
        if !str_eq(self.claims.role.as_str(), review.role.as_str()) {
            return Err(owned("Attestation Error: role does not match the review role"));
        }
        Ok(())
    }

    /// The verification recipe after parsing: the signature, then the
    /// bindings to the review record. Accepted only when the issuer's
    /// signature verifies and every binding holds.
    pub fn verify_parsed_for_review(self, review: &PubkyAppMarketplaceReview) -> (r: Result<
        Self,
        String,
    >)
        ensures
            outcome(
                match r {
                    Ok(_) => Ok(()),
                    Err(e) => Err(e),
                },
            ) == and_then(
                issuer_signature_check(
                    self.parsed_claims().iss@,
                    vstd::utf8::encode_utf8(self.signed_text()),
                    self.signature_bytes(),
                ),
                purchase_binding_check(self.parsed_claims(), *review),
            ),
            r is Ok ==> r->Ok_0 == self,
            r is Ok ==> purchase_binds(self.parsed_claims(), *review),
    {
        proof {
            lemma_purchase_binds_iff(self.parsed_claims(), *review);
        }
        self.verify_signature()?;
        self.verify_binding(review)?;
        Ok(self)
    }
}

/// The attestation covers the purchase, not the review's text: two review
/// records that agree on owner, subject, reviewed listing and role are
/// bound by exactly the same claim sets, whatever their text, ratings,
/// revision or timestamps.
pub proof fn lemma_binding_ignores_review_content(
    c: PubkyAppPurchaseAttestationClaims,
    r1: PubkyAppMarketplaceReview,
    r2: PubkyAppMarketplaceReview,
)
    requires
        r1.owner_pubky@ == r2.owner_pubky@,
        r1.subject_pubky@ == r2.subject_pubky@,
        r1.listing_owner_pubky@ == r2.listing_owner_pubky@,
        r1.listing_id@ == r2.listing_id@,
        r1.role == r2.role,
    ensures
        purchase_binding_check(c, r1) == purchase_binding_check(c, r2),
{
}

} // verus!

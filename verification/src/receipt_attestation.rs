//! The order receipt attestation: an offline-verifiable compact JWS
//! (`alg: EdDSA`) embedded in a private order receipt's
//! `receiptAttestation` field.
//!
//! Issuance is deterministic per receipt: `paid_at` is the exact UTC instant
//! of payment confirmation and `iat` the epoch seconds of that same instant,
//! never the signing wall clock. The `order` claim is the raw order UUID:
//! receipts are private documents held by the trade parties only.
use vstd::prelude::*;
use crate::attestation::as_attestation;
use crate::jws::{
    decode_signature, frame_signing_input, issuer_signature_check, signature_segment_check,
    signing_input, verify_issuer_signature, JwsFrame,
};
use crate::marketplace::{
    pubky_holds, lemma_field_checks_iff, is_uuid, MAX_SAFE_INTEGER,
    money_positive_check, parse_rfc3339_millis, pubky_check, rfc3339_millis, uuid_check,
    validate_pubky, validate_uuid, PubkyAppMoney,
};
use crate::order_receipt::PubkyAppMarketplaceOrderReceipt;
use crate::purchase_attestation::attest;
use crate::text::{and_then, chars_of, outcome, owned, str_eq};

verus! {

/// The exact JOSE `typ` value of a v1 order receipt attestation.
pub const ORDER_RECEIPT_ATTESTATION_TYP: &'static str = "pubky-order-receipt+v1";

/// The only claim-set version accepted.
pub const ORDER_RECEIPT_ATTESTATION_VERSION: i64 = 1;

/// The `v: 1` claim set of an order receipt attestation, in its normative
/// serialization order.
#[derive(Debug, Clone, PartialEq, Eq)]
pub struct PubkyAppOrderReceiptAttestationClaims {
    /// Claim-set version; always `1`.
    pub v: i64,
    /// Attestor pubky (z-base-32 of the Ed25519 verification key).
    pub iss: String,
    /// Buyer pubky; must equal the receipt's `buyerPubky`.
    pub buyer: String,
    /// Seller pubky; must equal the receipt's `sellerPubky`.
    pub seller: String,
    /// Raw order UUID; must equal the receipt's `orderId`.
    pub order: String,
    /// Receipt UUID; must equal the receipt's `receiptId`.
    pub receipt: String,
    /// Order total in integer minor units; must equal the receipt total's
    /// `amountMinor`. Positive.
    pub total_minor: i64,
    /// Uppercase asset code; must equal the receipt total's `currency`.
    pub currency: String,
    /// Decimal places between minor and major units; must equal the
    /// receipt total's `exponent`.
    pub exponent: i64,
    /// ISO-8601 UTC datetime (`Z` offset) of payment confirmation; must
    /// equal the receipt's `paidAt`.
    pub paid_at: String,
    /// Epoch seconds of the `paid_at` instant.
    pub iat: i64,
}

/// The money value the total claims spell.
pub open spec fn claimed_total(c: PubkyAppOrderReceiptAttestationClaims) -> PubkyAppMoney {
    PubkyAppMoney { amount_minor: c.total_minor, currency: c.currency, exponent: c.exponent }
}

/// A datetime in UTC: it parses and ends with `Z`.
pub open spec fn is_utc_datetime(s: Seq<char>) -> bool {
    rfc3339_millis(s) is Some && s.len() > 0 && s.last() == 'Z'
}

/// The outcome of checking `paid_at` and `iat`: `iat` is the epoch seconds
/// (floor of the milliseconds over 1000) of the `paid_at` instant.
pub open spec fn paid_at_check(paid_at: Seq<char>, iat: int) -> Result<(), Seq<char>> {
    if !is_utc_datetime(paid_at) {
        Err("Attestation Error: paid_at must be an ISO-8601 UTC datetime (Z offset)"@)
    } else if iat != rfc3339_millis(paid_at)->0 / 1000 {
        Err("Attestation Error: iat must be the epoch seconds of the paid_at instant"@)
    } else {
        Ok(())
    }
}

/// The outcome of validating a receipt claim set.
pub open spec fn receipt_claims_check(c: PubkyAppOrderReceiptAttestationClaims) -> Result<(), Seq<char>> {
    if c.v != ORDER_RECEIPT_ATTESTATION_VERSION {
        Err("Attestation Error: v must be 1"@)
    } else {
        and_then(
            as_attestation(pubky_check(c.iss@, "iss"@)),
            and_then(
                as_attestation(pubky_check(c.buyer@, "buyer"@)),
                and_then(
                    as_attestation(pubky_check(c.seller@, "seller"@)),
                    and_then(
                        as_attestation(uuid_check(c.order@, "order"@)),
                        and_then(
                            as_attestation(uuid_check(c.receipt@, "receipt"@)),
                            and_then(
                                as_attestation(money_positive_check(claimed_total(c), "total"@)),
                                paid_at_check(c.paid_at@, c.iat as int),
                            ),
                        ),
                    ),
                ),
            ),
        )
    }
}

/// Euclidean division by 1000 (the floor for negative instants too).
fn epoch_seconds(millis: i64) -> (r: i128)
    ensures
        r == millis / 1000,
{
    let m = millis as i128;
    if m >= 0 {
        m / 1000
    } else {
        let q = (-m + 999) / 1000;
        assert(-q == m / 1000) by (nonlinear_arith)
            requires
                m < 0,
                q == (-m + 999) / 1000,
        ;
        -q
    }
}

/// The claims a valid receipt attestation carries: version 1, issuer,
/// buyer and seller pubkys, order and receipt UUIDs, and a positive safe
/// total.
pub open spec fn receipt_claims_hold(c: PubkyAppOrderReceiptAttestationClaims) -> bool {
    &&& c.v == 1
    &&& pubky_holds(c.iss@)
    &&& pubky_holds(c.buyer@)
    &&& pubky_holds(c.seller@)
    &&& is_uuid(c.order@)
    &&& is_uuid(c.receipt@)
    &&& 1 <= c.total_minor <= MAX_SAFE_INTEGER
}

/// Validates a receipt claim set: version, pubkys, UUIDs, the total under
/// the money rules, the UTC payment instant and `iat` derived from it.
pub fn validate_claims(claims: &PubkyAppOrderReceiptAttestationClaims) -> (r: Result<(), String>)
    ensures
        outcome(r) == receipt_claims_check(*claims),
        r is Ok ==> is_utc_datetime(claims.paid_at@) && claims.iat == rfc3339_millis(
            claims.paid_at@,
        )->0 / 1000,
        r is Ok ==> receipt_claims_hold(*claims),
{
    proof {
        lemma_field_checks_iff(claims.iss@, "iss"@);
        lemma_field_checks_iff(claims.buyer@, "buyer"@);
        lemma_field_checks_iff(claims.seller@, "seller"@);
    }
    if claims.v != ORDER_RECEIPT_ATTESTATION_VERSION {
        return Err(owned("Attestation Error: v must be 1"));
    }
    attest(validate_pubky(claims.iss.as_str(), "iss"))?;
    attest(validate_pubky(claims.buyer.as_str(), "buyer"))?;
    attest(validate_pubky(claims.seller.as_str(), "seller"))?;
    attest(validate_uuid(claims.order.as_str(), "order"))?;
    attest(validate_uuid(claims.receipt.as_str(), "receipt"))?;
    let total = PubkyAppMoney {
        amount_minor: claims.total_minor,
        currency: claims.currency.clone(),
        exponent: claims.exponent,
    };
    attest(total.validate_positive("total"))?;
    let chars = chars_of(claims.paid_at.as_str());
    let millis = match parse_rfc3339_millis(claims.paid_at.as_str()) {
        Ok(m) => m,
        Err(_) => {
            return Err(
                owned("Attestation Error: paid_at must be an ISO-8601 UTC datetime (Z offset)"),
            )
        },
    };
    if !(chars.len() > 0 && chars[chars.len() - 1] == 'Z') {
        return Err(
            owned("Attestation Error: paid_at must be an ISO-8601 UTC datetime (Z offset)"),
        );
    }
    if claims.iat as i128 != epoch_seconds(millis) {
        return Err(
            owned("Attestation Error: iat must be the epoch seconds of the paid_at instant"),
        );
    }
    Ok(())
}

impl PubkyAppOrderReceiptAttestationClaims {
    /// Validates the claim set (the path id plays no part).
    pub fn validate(&self, _id: Option<&str>) -> (r: Result<(), String>)
        ensures
            outcome(r) == receipt_claims_check(*self),
    {
        validate_claims(self)
    }
}

/// A parsed, structurally valid order receipt attestation. Being parsed
/// does not mean the signature was checked.
#[derive(Debug, Clone, PartialEq, Eq)]
pub struct PubkyAppOrderReceiptAttestation {
    pub claims: PubkyAppOrderReceiptAttestationClaims,
    /// The exact text the signature covers: `header_b64 || '.' || payload_b64`.
    signing_input: String,
    signature: [u8; 64],
}

/// The outcome of binding a receipt claim set to a receipt record.
pub open spec fn receipt_binding_check(
    c: PubkyAppOrderReceiptAttestationClaims,
    r: PubkyAppMarketplaceOrderReceipt,
) -> Result<(), Seq<char>> {
    if c.buyer@ != r.buyer_pubky@ {
        Err("Attestation Error: buyer does not match the receipt buyer"@)
    } else if c.seller@ != r.seller_pubky@ {
        Err("Attestation Error: seller does not match the receipt seller"@)
    } else if c.order@ != r.order_id@ {
        Err("Attestation Error: order does not match the receipt order"@)
    } else if c.receipt@ != r.receipt_id@ {
        Err("Attestation Error: receipt does not match the receipt id"@)
    } else if c.total_minor != r.total.amount_minor {
        Err("Attestation Error: total_minor does not match the receipt total"@)
    } else if c.currency@ != r.total.currency@ {
        Err("Attestation Error: currency does not match the receipt total"@)
    } else if c.exponent != r.total.exponent {
        Err("Attestation Error: exponent does not match the receipt total"@)
    } else if c.paid_at@ != r.paid_at@ {
        Err("Attestation Error: paid_at does not match the receipt paidAt"@)
    } else {
        Ok(())
    }
}

/// The claims name this receipt: buyer, seller, order, receipt id, the
/// total (amount, currency and exponent) and the payment instant.
pub open spec fn receipt_binds(c: PubkyAppOrderReceiptAttestationClaims, r: PubkyAppMarketplaceOrderReceipt) -> bool {
    &&& c.buyer@ == r.buyer_pubky@
    &&& c.seller@ == r.seller_pubky@
    &&& c.order@ == r.order_id@
    &&& c.receipt@ == r.receipt_id@
    &&& c.total_minor == r.total.amount_minor
    &&& c.currency@ == r.total.currency@
    &&& c.exponent == r.total.exponent
    &&& c.paid_at@ == r.paid_at@
}

/// A claim set binds to a record exactly when every bound claim equals the
/// record's field.
pub proof fn lemma_receipt_binds_iff(c: PubkyAppOrderReceiptAttestationClaims, record: PubkyAppMarketplaceOrderReceipt)
    ensures
        receipt_binding_check(c, record) is Ok <==> receipt_binds(c, record),
{
}

/// The outcome of assembling an attestation from its claim set and its
/// signature segment: the claims are checked first.
pub open spec fn receipt_assembly_check(c: PubkyAppOrderReceiptAttestationClaims, signature_b64: Seq<char>) -> Result<(), Seq<char>> {
    match receipt_claims_check(c) {
        Err(e) => Err(e),
        Ok(_) => match signature_segment_check(signature_b64) {
            Err(e) => Err(e),
            Ok(_) => Ok(()),
        },
    }
}

impl PubkyAppOrderReceiptAttestation {
    /// The parsed claim set.
    pub closed spec fn parsed_claims(&self) -> PubkyAppOrderReceiptAttestationClaims {
        self.claims
    }

    /// The text the signature covers.
    pub closed spec fn signed_text(&self) -> Seq<char> {
        self.signing_input@
    }

    /// The 64 signature bytes.
    pub closed spec fn signature_bytes(&self) -> Seq<u8> {
        self.signature@
    }

    /// Assembles a parsed attestation from a framed compact JWS whose
    /// header has been checked and whose payload gave `claims`: validates
    /// the claims, then decodes the 64-byte signature.
    pub fn from_parts(frame: &JwsFrame, claims: PubkyAppOrderReceiptAttestationClaims) -> (r:
        Result<Self, String>)
        ensures
            match r {
                Ok(a) => receipt_assembly_check(claims, frame.signature_b64@) is Ok
                    && a.parsed_claims() == claims && a.signed_text() == signing_input(
                    frame.header_b64@,
                    frame.payload_b64@,
                ) && signature_segment_check(frame.signature_b64@) == Ok::<Seq<u8>, Seq<char>>(
                    a.signature_bytes(),
                ),
                Err(e) => receipt_assembly_check(claims, frame.signature_b64@) == Err::<
                    (),
                    Seq<char>,
                >(e@),
            },
    {
        validate_claims(&claims)?;
        let signature = decode_signature(frame.signature_b64.as_str())?;
        Ok(PubkyAppOrderReceiptAttestation {
            claims,
            signing_input: frame_signing_input(frame),
            signature,
        })
    }

    /// Verifies the Ed25519 signature against the issuer key carried in the
    /// `iss` claim.
    pub fn verify_signature(&self) -> (r: Result<(), String>)
        ensures
            outcome(r) == issuer_signature_check(
                self.parsed_claims().iss@,
                vstd::utf8::encode_utf8(self.signed_text()),
                self.signature_bytes(),
            ),
    {
        verify_issuer_signature(self.claims.iss.as_str(), self.signing_input.as_str(), &self.signature)
    }

    /// Checks that the claims cover exactly this receipt record: parties,
    /// ids, total and payment instant.
    pub fn verify_binding(&self, record: &PubkyAppMarketplaceOrderReceipt) -> (r: Result<(), String>)
        ensures
            outcome(r) == receipt_binding_check(self.parsed_claims(), *record),
            r is Ok <==> receipt_binds(self.parsed_claims(), *record),
    {
        proof {
            lemma_receipt_binds_iff(self.parsed_claims(), *record);
        }
        if !str_eq(self.claims.buyer.as_str(), record.buyer_pubky.as_str()) {
            return Err(owned("Attestation Error: buyer does not match the receipt buyer"));
        }
        if !str_eq(self.claims.seller.as_str(), record.seller_pubky.as_str()) {
            return Err(owned("Attestation Error: seller does not match the receipt seller"));
        }
        if !str_eq(self.claims.order.as_str(), record.order_id.as_str()) {
            return Err(owned("Attestation Error: order does not match the receipt order"));
        }
        if !str_eq(self.claims.receipt.as_str(), record.receipt_id.as_str()) {
            return Err(owned("Attestation Error: receipt does not match the receipt id"));
        }
        if self.claims.total_minor != record.total.amount_minor {
            return Err(owned("Attestation Error: total_minor does not match the receipt total"));
        }
        if !str_eq(self.claims.currency.as_str(), record.total.currency.as_str()) {
            return Err(owned("Attestation Error: currency does not match the receipt total"));
        }
        if self.claims.exponent != record.total.exponent {
            return Err(owned("Attestation Error: exponent does not match the receipt total"));
        }
        if !str_eq(self.claims.paid_at.as_str(), record.paid_at.as_str()) {
            return Err(owned("Attestation Error: paid_at does not match the receipt paidAt"));
        }
        Ok(())
    }

    /// The verification recipe after parsing: the signature, then the
    /// bindings to the receipt record.
    pub fn verify_parsed_for_order_receipt(self, record: &PubkyAppMarketplaceOrderReceipt) -> (r:
        Result<Self, String>)
        ensures
            outcome(
                match r {
                    Ok(_) => Ok(()),
                    Err(e) => Err(e),
                },
            ) == and_then(
                issuer_signature_check(
                    self.parsed_claims().iss@,
                    vstd::utf8::encode_utf8(self.signed_text()),
                    self.signature_bytes(),
                ),
                receipt_binding_check(self.parsed_claims(), *record),
            ),
            r is Ok ==> r->Ok_0 == self,
            r is Ok ==> receipt_binds(self.parsed_claims(), *record),
    {
        proof {
            lemma_receipt_binds_iff(self.parsed_claims(), *record);
        }
        self.verify_signature()?;
        self.verify_binding(record)?;
        Ok(self)
    }
}

} // verus!

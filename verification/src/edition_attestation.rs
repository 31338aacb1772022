//! The drop edition attestation: an offline-verifiable compact JWS
//! (`alg: EdDSA`) embedded in a private order receipt's
//! `editionAttestation` field. It attests that one order bought edition
//! `edition` out of `of` total units of the seller's drop.
use vstd::prelude::*;
use crate::attestation::as_attestation;
use crate::jws::{
    decode_signature, frame_signing_input, issuer_signature_check, signature_segment_check,
    signing_input, verify_issuer_signature, JwsFrame,
};
use crate::marketplace::{
    pubky_holds, entity_id_holds, lemma_field_checks_iff,
    entity_id_check, pubky_check, uuid_check, validate_entity_id, validate_pubky, validate_uuid,
    MAX_SAFE_INTEGER,
};
use crate::order_receipt::PubkyAppMarketplaceOrderReceipt;
use crate::purchase_attestation::{attest, iat_check};
use crate::text::{and_then, outcome, owned, str_eq};

verus! {

/// The exact JOSE `typ` value of a v1 drop edition attestation.
pub const DROP_EDITION_ATTESTATION_TYP: &'static str = "pubky-drop-edition+v1";

/// The only claim-set version accepted.
pub const DROP_EDITION_ATTESTATION_VERSION: i64 = 1;

/// The `v: 1` claim set of a drop edition attestation, in its normative
/// serialization order.
#[derive(Debug, Clone, PartialEq, Eq)]
pub struct PubkyAppDropEditionAttestationClaims {
    /// Claim-set version; always `1`.
    pub v: i64,
    /// Attestor pubky (z-base-32 of the Ed25519 verification key).
    pub iss: String,
    /// Buyer pubky; must equal the receipt's `buyerPubky`.
    pub buyer: String,
    /// Seller pubky (the drop owner); must equal the receipt's `sellerPubky`.
    pub seller: String,
    /// The drop's entity id; must equal the receipt's `drop.dropId`.
    pub drop: String,
    /// This order's edition number, 1-based; must equal `drop.edition`.
    pub edition: i64,
    /// The drop's `totalQuantity` at issuance; never below `edition`. Must
    /// equal `drop.of`.
    pub of: i64,
    /// Receipt UUID; must equal the receipt's `receiptId`.
    pub receipt: String,
    /// Epoch seconds, derived from the receipt's payment instant.
    pub iat: i64,
}

/// The outcome of validating a drop edition claim set.
pub open spec fn edition_claims_check(c: PubkyAppDropEditionAttestationClaims) -> Result<(), Seq<char>> {
    if c.v != DROP_EDITION_ATTESTATION_VERSION {
        Err("Attestation Error: v must be 1"@)
    } else {
        and_then(
            as_attestation(pubky_check(c.iss@, "iss"@)),
            and_then(
                as_attestation(pubky_check(c.buyer@, "buyer"@)),
                and_then(
                    as_attestation(pubky_check(c.seller@, "seller"@)),
                    and_then(
                        as_attestation(entity_id_check(c.drop@, "drop"@)),
                        if !(1 <= c.edition <= MAX_SAFE_INTEGER) {
                            Err("Attestation Error: edition must be a positive safe integer"@)
                        } else if c.of < c.edition {
                            Err("Attestation Error: of must not be below the edition number"@)
                        } else if !(1 <= c.of <= MAX_SAFE_INTEGER) {
                            Err("Attestation Error: of must be a positive safe integer"@)
                        } else {
                            and_then(
                                as_attestation(uuid_check(c.receipt@, "receipt"@)),
                                iat_check(c.iat),
                            )
                        },
                    ),
                ),
            ),
        )
    }
}

/// The claims a valid edition attestation carries: version 1, issuer,
/// buyer and seller pubkys, a path-safe drop id, an edition number within
/// its positive safe total, and a positive safe issuance time.
pub open spec fn edition_claims_hold(c: PubkyAppDropEditionAttestationClaims) -> bool {
    &&& c.v == 1
    &&& pubky_holds(c.iss@)
    &&& pubky_holds(c.buyer@)
    &&& pubky_holds(c.seller@)
    &&& entity_id_holds(c.drop@)
    &&& 1 <= c.edition <= c.of <= MAX_SAFE_INTEGER
    &&& 1 <= c.iat <= MAX_SAFE_INTEGER
}

/// Validates a drop edition claim set: version, pubkys, drop id, edition
/// within its total, receipt UUID and issuance time.
pub fn validate_claims(claims: &PubkyAppDropEditionAttestationClaims) -> (r: Result<(), String>)
    ensures
        outcome(r) == edition_claims_check(*claims),
        r is Ok ==> 1 <= claims.edition <= claims.of,
        r is Ok ==> edition_claims_hold(*claims),
{
    proof {
        lemma_field_checks_iff(claims.iss@, "iss"@);
        lemma_field_checks_iff(claims.buyer@, "buyer"@);
        lemma_field_checks_iff(claims.seller@, "seller"@);
        lemma_field_checks_iff(claims.drop@, "drop"@);
    }
    if claims.v != DROP_EDITION_ATTESTATION_VERSION {
        return Err(owned("Attestation Error: v must be 1"));
    }
    attest(validate_pubky(claims.iss.as_str(), "iss"))?;
    attest(validate_pubky(claims.buyer.as_str(), "buyer"))?;
    attest(validate_pubky(claims.seller.as_str(), "seller"))?;
    attest(validate_entity_id(claims.drop.as_str(), "drop"))?;
    if !(1 <= claims.edition && claims.edition <= MAX_SAFE_INTEGER) {
        return Err(owned("Attestation Error: edition must be a positive safe integer"));
    }
    if claims.of < claims.edition {
        return Err(owned("Attestation Error: of must not be below the edition number"));
    }
    if !(1 <= claims.of && claims.of <= MAX_SAFE_INTEGER) {
        return Err(owned("Attestation Error: of must be a positive safe integer"));
    }
    attest(validate_uuid(claims.receipt.as_str(), "receipt"))?;
    if !(1 <= claims.iat && claims.iat <= MAX_SAFE_INTEGER) {
        return Err(owned("Attestation Error: iat must be a positive safe integer"));
    }
    Ok(())
}

impl PubkyAppDropEditionAttestationClaims {
    /// Validates the claim set (the path id plays no part).
    pub fn validate(&self, _id: Option<&str>) -> (r: Result<(), String>)
        ensures
            outcome(r) == edition_claims_check(*self),
    {
        validate_claims(self)
    }
}

/// A parsed, structurally valid drop edition attestation. Being parsed does
/// not mean the signature was checked.
#[derive(Debug, Clone, PartialEq, Eq)]
pub struct PubkyAppDropEditionAttestation {
    pub claims: PubkyAppDropEditionAttestationClaims,
    /// The exact text the signature covers: `header_b64 || '.' || payload_b64`.
    signing_input: String,
    signature: [u8; 64],
}

/// The outcome of binding a drop edition claim set to a receipt record:
/// receipt id and parties always, and the drop display object when the
/// record carries one.
pub open spec fn edition_binding_check(
    c: PubkyAppDropEditionAttestationClaims,
    r: PubkyAppMarketplaceOrderReceipt,
) -> Result<(), Seq<char>> {
    if c.receipt@ != r.receipt_id@ {
        Err("Attestation Error: receipt does not match the receipt id"@)
    } else if c.buyer@ != r.buyer_pubky@ {
        Err("Attestation Error: buyer does not match the receipt buyer"@)
    } else if c.seller@ != r.seller_pubky@ {
        Err("Attestation Error: seller does not match the receipt seller"@)
    } else {
        match r.drop {
            None => Ok(()),
            Some(d) => if c.drop@ != d.drop_id@ {
                Err("Attestation Error: drop does not match the receipt drop"@)
            } else if c.edition != d.edition {
                Err("Attestation Error: edition does not match the receipt drop edition"@)
            } else if c.of != d.of {
                Err("Attestation Error: of does not match the receipt drop total"@)
            } else {
                Ok(())
            },
        }
    }
}

/// The claims name this receipt's edition: receipt id, buyer and seller,
/// and, when the receipt carries a drop, its drop id, edition and total.
pub open spec fn edition_binds(c: PubkyAppDropEditionAttestationClaims, r: PubkyAppMarketplaceOrderReceipt) -> bool {
    &&& c.receipt@ == r.receipt_id@
    &&& c.buyer@ == r.buyer_pubky@
    &&& c.seller@ == r.seller_pubky@
    &&& (r.drop matches Some(d) ==> c.drop@ == d.drop_id@ && c.edition == d.edition && c.of == d.of)
}

/// A claim set binds to a record exactly when every bound claim equals the
/// record's field.
pub proof fn lemma_edition_binds_iff(c: PubkyAppDropEditionAttestationClaims, record: PubkyAppMarketplaceOrderReceipt)
    ensures
        edition_binding_check(c, record) is Ok <==> edition_binds(c, record),
{
}

/// The outcome of assembling an attestation from its claim set and its
/// signature segment: the claims are checked first.
pub open spec fn edition_assembly_check(c: PubkyAppDropEditionAttestationClaims, signature_b64: Seq<char>) -> Result<(), Seq<char>> {
    match edition_claims_check(c) {
        Err(e) => Err(e),
        Ok(_) => match signature_segment_check(signature_b64) {
            Err(e) => Err(e),
            Ok(_) => Ok(()),
        },
    }
}

/// What the recipe needs of the receipt before parsing: its
/// `editionAttestation`, and its `drop` object.
pub open spec fn edition_presence_check(r: PubkyAppMarketplaceOrderReceipt) -> Result<Seq<char>, Seq<char>> {
    match r.edition_attestation {
        None => Err("Attestation Error: the receipt carries no editionAttestation"@),
        Some(a) => if r.drop is None {
            Err("Attestation Error: the receipt carries no drop object"@)
        } else {
            Ok(a@)
        },
    }
}

/// The compact JWS the recipe parses: the receipt's `editionAttestation`,
/// provided that the receipt also carries its `drop` object.
pub fn edition_attestation_of(record: &PubkyAppMarketplaceOrderReceipt) -> (r: Result<&str, String>)
    ensures
        match r {
            Ok(a) => edition_presence_check(*record) == Ok::<Seq<char>, Seq<char>>(a@),
            Err(e) => edition_presence_check(*record) == Err::<Seq<char>, Seq<char>>(e@),
        },
{
    match &record.edition_attestation {
        None => Err(owned("Attestation Error: the receipt carries no editionAttestation")),
        Some(a) => {
            if record.drop.is_none() {
                return Err(owned("Attestation Error: the receipt carries no drop object"));
            }
            Ok(a.as_str())
        },
    }
}

impl PubkyAppDropEditionAttestation {
    /// The parsed claim set.
    pub closed spec fn parsed_claims(&self) -> PubkyAppDropEditionAttestationClaims {
        self.claims
    }

    /// The text the signature covers.
    pub closed spec fn signed_text(&self) -> Seq<char> {
        self.signing_input@
    }

    /// The 64 signature bytes.
    pub closed spec fn signature_bytes(&self) -> Seq<u8> {
        self.signature@
    }

    /// Assembles a parsed attestation from a framed compact JWS whose
    /// header has been checked and whose payload gave `claims`: validates
    /// the claims, then decodes the 64-byte signature.
    pub fn from_parts(frame: &JwsFrame, claims: PubkyAppDropEditionAttestationClaims) -> (r:
        Result<Self, String>)
        ensures
            match r {
                Ok(a) => edition_assembly_check(claims, frame.signature_b64@) is Ok
                    && a.parsed_claims() == claims && a.signed_text() == signing_input(
                    frame.header_b64@,
                    frame.payload_b64@,
                ) && signature_segment_check(frame.signature_b64@) == Ok::<Seq<u8>, Seq<char>>(
                    a.signature_bytes(),
                ),
                Err(e) => edition_assembly_check(claims, frame.signature_b64@) == Err::<
                    (),
                    Seq<char>,
                >(e@),
            },
    {
        validate_claims(&claims)?;
        let signature = decode_signature(frame.signature_b64.as_str())?;
        Ok(PubkyAppDropEditionAttestation {
            claims,
            signing_input: frame_signing_input(frame),
            signature,
        })
    }

    /// Verifies the Ed25519 signature against the issuer key carried in the
    /// `iss` claim.
    pub fn verify_signature(&self) -> (r: Result<(), String>)
        ensures
            outcome(r) == issuer_signature_check(
                self.parsed_claims().iss@,
                vstd::utf8::encode_utf8(self.signed_text()),
                self.signature_bytes(),
            ),
    {
        verify_issuer_signature(self.claims.iss.as_str(), self.signing_input.as_str(), &self.signature)
    }

    /// Checks that the claims cover exactly this receipt record.
    pub fn verify_binding(&self, record: &PubkyAppMarketplaceOrderReceipt) -> (r: Result<(), String>)
        ensures
            outcome(r) == edition_binding_check(self.parsed_claims(), *record),
            r is Ok <==> edition_binds(self.parsed_claims(), *record),
    {
        proof {
            lemma_edition_binds_iff(self.parsed_claims(), *record);
        }
        if !str_eq(self.claims.receipt.as_str(), record.receipt_id.as_str()) {
            return Err(owned("Attestation Error: receipt does not match the receipt id"));
        }
        if !str_eq(self.claims.buyer.as_str(), record.buyer_pubky.as_str()) {
            return Err(owned("Attestation Error: buyer does not match the receipt buyer"));
        }
        if !str_eq(self.claims.seller.as_str(), record.seller_pubky.as_str()) {
            return Err(owned("Attestation Error: seller does not match the receipt seller"));
        }
        match &record.drop {
            None => {},
            Some(d) => {
                if !str_eq(self.claims.drop.as_str(), d.drop_id.as_str()) {
                    return Err(owned("Attestation Error: drop does not match the receipt drop"));
                }
                if self.claims.edition != d.edition {
                    return Err(
                        owned("Attestation Error: edition does not match the receipt drop edition"),
                    );
                }
                if self.claims.of != d.of {
                    return Err(owned("Attestation Error: of does not match the receipt drop total"));
                }
            },
        }
        Ok(())
    }

    /// The verification recipe after parsing: the signature, then the
    /// bindings to the receipt record.
    pub fn verify_parsed_edition_for_order_receipt(
        self,
        record: &PubkyAppMarketplaceOrderReceipt,
    ) -> (r: Result<Self, String>)
        ensures
            outcome(
                match r {
                    Ok(_) => Ok(()),
                    Err(e) => Err(e),
                },
            ) == and_then(
                issuer_signature_check(
                    self.parsed_claims().iss@,
                    vstd::utf8::encode_utf8(self.signed_text()),
                    self.signature_bytes(),
                ),
                edition_binding_check(self.parsed_claims(), *record),
            ),
            r is Ok ==> r->Ok_0 == self,
            r is Ok ==> edition_binds(self.parsed_claims(), *record),
    {
        proof {
            lemma_edition_binds_iff(self.parsed_claims(), *record);
        }
        self.verify_signature()?;
        self.verify_binding(record)?;
        Ok(self)
    }
}

} // verus!

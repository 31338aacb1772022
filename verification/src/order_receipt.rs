//! A private, portable order receipt: a trade party's own durable copy of a
//! completed order, written to their own homeserver.
//!
//! URI: `/priv/pubky.app/marketplace/v1/receipts/:receipt_id`. The embedded
//! `receiptAttestation` is an offline-verifiable compact JWS; a drop order
//! also carries an `editionAttestation` together with its `drop` display
//! object.
use vstd::prelude::*;
use crate::attestation::{attestation_field_check, validate_attestation_field};
use crate::marketplace::{
    pubky_holds, lemma_field_checks_iff, is_uuid,
    base_record_holds, lemma_base_record_iff,
    base_record_check, entity_id_check, money_positive_check, parse_rfc3339_millis,
    pubky_check, rfc3339_error, rfc3339_millis, uuid_check, validate_base_record,
    validate_entity_id, validate_pubky, validate_uuid, PubkyAppMoney, MARKETPLACE_SCHEMA_VERSION,
    MAX_SAFE_INTEGER,
};
use crate::text::{and_then, concat2, opt_str_view, outcome, owned, str_eq};
use crate::uri::{build_private_marketplace_path, private_marketplace_path};

verus! {

/// Record discriminator of order receipts.
pub const ORDER_RECEIPT_RECORD_TYPE: &'static str = "order_receipt";

/// The record owner's side of the order.
#[derive(Debug, Clone, Copy, PartialEq, Eq, Structural)]
pub enum PubkyAppOrderReceiptRole {
    Buyer,
    Seller,
}

/// The wire name of a receipt role.
pub open spec fn receipt_role_name(role: PubkyAppOrderReceiptRole) -> Seq<char> {
    match role {
        PubkyAppOrderReceiptRole::Buyer => "buyer"@,
        PubkyAppOrderReceiptRole::Seller => "seller"@,
    }
}

impl PubkyAppOrderReceiptRole {
    /// The role's wire name.
    pub fn as_str(&self) -> (r: &'static str)
        ensures
            r@ == receipt_role_name(*self),
    {
        match self {
            PubkyAppOrderReceiptRole::Buyer => "buyer",
            PubkyAppOrderReceiptRole::Seller => "seller",
        }
    }
}

/// The drop display object of a receipt: which drop the order was part of
/// and which numbered edition, out of the drop's total at issuance, the
/// buyer received.
#[derive(Debug, Clone, PartialEq, Eq)]
pub struct PubkyAppOrderReceiptDrop {
    /// The drop's entity id.
    pub drop_id: String,
    /// This order's edition number, 1-based.
    pub edition: i64,
    /// The drop's `totalQuantity` at issuance; never below `edition`.
    pub of: i64,
}

/// The outcome of validating a drop display object.
pub open spec fn receipt_drop_check(d: PubkyAppOrderReceiptDrop) -> Result<(), Seq<char>> {
    and_then(
        entity_id_check(d.drop_id@, "drop dropId"@),
        if !(1 <= d.edition <= MAX_SAFE_INTEGER) {
            Err("Validation Error: drop edition must be a positive safe integer"@)
        } else if !(1 <= d.of <= MAX_SAFE_INTEGER) {
            Err("Validation Error: drop of must be a positive safe integer"@)
        } else if d.of < d.edition {
            Err("Validation Error: drop of must not be below the edition number"@)
        } else {
            Ok(())
        },
    )
}

impl PubkyAppOrderReceiptDrop {
    /// Validates the drop display object.
    pub fn validate(&self) -> (r: Result<(), String>)
        ensures
            outcome(r) == receipt_drop_check(*self),
    {
        validate_entity_id(self.drop_id.as_str(), "drop dropId")?;
        if !(1 <= self.edition && self.edition <= MAX_SAFE_INTEGER) {
            return Err(owned("Validation Error: drop edition must be a positive safe integer"));
        }
        if !(1 <= self.of && self.of <= MAX_SAFE_INTEGER) {
            return Err(owned("Validation Error: drop of must be a positive safe integer"));
        }
        if self.of < self.edition {
            return Err(owned("Validation Error: drop of must not be below the edition number"));
        }
        Ok(())
    }
}

/// A private, portable order receipt.
#[derive(Debug, Clone, PartialEq)]
pub struct PubkyAppMarketplaceOrderReceipt {
    /// Marketplace contract version, always `1`.
    pub schema_version: i64,
    /// Record discriminator, always `"order_receipt"`.
    pub record_type: String,
    /// z-base-32 pubky of the record owner (a trade party; see `role`).
    pub owner_pubky: String,
    /// Monotonically increasing record revision, starting at 1.
    pub revision: i64,
    /// ISO-8601 creation datetime with offset.
    pub created_at: String,
    /// ISO-8601 last-update datetime with offset. Must not precede `created_at`.
    pub updated_at: String,
    /// The record owner's role in the order; `ownerPubky` must equal the
    /// matching party pubky.
    pub role: PubkyAppOrderReceiptRole,
    /// The transaction service's receipt UUID; must equal the path id.
    pub receipt_id: String,
    /// The order UUID the receipt settles.
    pub order_id: String,
    /// z-base-32 pubky of the buyer.
    pub buyer_pubky: String,
    /// z-base-32 pubky of the seller.
    pub seller_pubky: String,
    /// Order total in integer minor units.
    pub total: PubkyAppMoney,
    /// ISO-8601 datetime of payment confirmation / receipt creation.
    pub paid_at: String,
    /// Compact JWS attesting the receipt.
    pub receipt_attestation: String,
    /// Optional compact JWS attesting the drop edition; present exactly
    /// when `drop` is present.
    pub edition_attestation: Option<String>,
    /// Optional drop display object; present exactly when
    /// `editionAttestation` is present.
    pub drop: Option<PubkyAppOrderReceiptDrop>,
}

/// The pubky of the party a role names.
pub open spec fn party_of(r: PubkyAppMarketplaceOrderReceipt) -> Seq<char> {
    match r.role {
        PubkyAppOrderReceiptRole::Buyer => r.buyer_pubky@,
        PubkyAppOrderReceiptRole::Seller => r.seller_pubky@,
    }
}

/// The outcome of checking the drop-edition pair.
pub open spec fn edition_pair_check(r: PubkyAppMarketplaceOrderReceipt) -> Result<(), Seq<char>> {
    match (r.edition_attestation, r.drop) {
        (Some(a), Some(d)) => and_then(
            attestation_field_check(a@, "editionAttestation"@),
            receipt_drop_check(d),
        ),
        (None, None) => Ok(()),
        _ => Err("Validation Error: editionAttestation and drop must be present together"@),
    }
}

/// The fields a valid receipt keeps: UUID receipt and order ids, the path
/// id (when given) as its receipt id, distinct buyer and seller pubkys, a
/// positive safe total, a payment instant that parses, and an embedded
/// receipt attestation of 32-4096 compact-JWS characters.
pub open spec fn receipt_fields_hold(r: PubkyAppMarketplaceOrderReceipt, id: Option<Seq<char>>) -> bool {
    &&& is_uuid(r.receipt_id@)
    &&& is_uuid(r.order_id@)
    &&& (id matches Some(i) ==> r.receipt_id@ == i)
    &&& pubky_holds(r.buyer_pubky@)
    &&& pubky_holds(r.seller_pubky@)
    &&& r.buyer_pubky@ != r.seller_pubky@
    &&& 1 <= r.total.amount_minor <= MAX_SAFE_INTEGER
    &&& rfc3339_millis(r.paid_at@) is Some
    &&& 32 <= r.receipt_attestation@.len() <= 4096
    &&& crate::text::all_jws_chars(r.receipt_attestation@)
}

/// The outcome of validating a receipt against an optional path id.
pub open spec fn receipt_check(r: PubkyAppMarketplaceOrderReceipt, id: Option<Seq<char>>) -> Result<(), Seq<char>> {
    let path_check = match id {
        Some(i) => if r.receipt_id@ != i {
            Err("Validation Error: receiptId does not match the receipt path ID"@)
        } else {
            Ok(())
        },
        None => Ok(()),
    };
    and_then(
        path_check,
        and_then(
            base_record_check(
                r.schema_version as int,
                r.record_type@,
                ORDER_RECEIPT_RECORD_TYPE@,
                r.owner_pubky@,
                r.revision as int,
                r.created_at@,
                r.updated_at@,
            ),
            and_then(
                uuid_check(r.receipt_id@, "receiptId"@),
                and_then(
                    uuid_check(r.order_id@, "orderId"@),
                    and_then(
                        pubky_check(r.buyer_pubky@, "buyerPubky"@),
                        and_then(
                            pubky_check(r.seller_pubky@, "sellerPubky"@),
                            if r.buyer_pubky@ == r.seller_pubky@ {
                                Err("Validation Error: buyerPubky and sellerPubky must differ"@)
                            } else if r.owner_pubky@ != party_of(r) {
                                Err(
                                    "Validation Error: ownerPubky must equal "@ + receipt_role_name(
                                        r.role,
                                    ) + "Pubky when role is '"@ + receipt_role_name(r.role)
                                        + "'"@,
                                )
                            } else {
                                and_then(
                                    money_positive_check(r.total, "total"@),
                                    if rfc3339_millis(r.paid_at@) is None {
                                        Err("Validation Error: paidAt "@ + rfc3339_error())
                                    } else {
                                        and_then(
                                            attestation_field_check(
                                                r.receipt_attestation@,
                                                "receiptAttestation"@,
                                            ),
                                            edition_pair_check(r),
                                        )
                                    },
                                )
                            },
                        ),
                    ),
                ),
            ),
        ),
    )
}

impl PubkyAppMarketplaceOrderReceipt {
    /// Creates a new receipt; the drop-edition pair starts absent.
    pub fn new(
        owner_pubky: String,
        revision: i64,
        created_at: String,
        updated_at: String,
        role: PubkyAppOrderReceiptRole,
        receipt_id: String,
        order_id: String,
        buyer_pubky: String,
        seller_pubky: String,
        total: PubkyAppMoney,
        paid_at: String,
        receipt_attestation: String,
    ) -> (r: Self)
        ensures
            r.schema_version == MARKETPLACE_SCHEMA_VERSION,
            r.record_type@ == ORDER_RECEIPT_RECORD_TYPE@,
            r.owner_pubky == owner_pubky,
            r.revision == revision,
            r.created_at == created_at,
            r.updated_at == updated_at,
            r.role == role,
            r.receipt_id == receipt_id,
            r.order_id == order_id,
            r.buyer_pubky == buyer_pubky,
            r.seller_pubky == seller_pubky,
            r.total == total,
            r.paid_at == paid_at,
            r.receipt_attestation == receipt_attestation,
            r.edition_attestation is None,
            r.drop is None,
    {
        PubkyAppMarketplaceOrderReceipt {
            schema_version: MARKETPLACE_SCHEMA_VERSION,
            record_type: owned(ORDER_RECEIPT_RECORD_TYPE),
            owner_pubky,
            revision,
            created_at,
            updated_at,
            role,
            receipt_id,
            order_id,
            buyer_pubky,
            seller_pubky,
            total,
            paid_at,
            receipt_attestation,
            edition_attestation: None,
            drop: None,
        }
    }

    /// The receipt's private path:
    /// `/priv/pubky.app/marketplace/v1/receipts/<id>`.
    pub fn create_path(id: &str) -> (r: String)
        ensures
            r@ == private_marketplace_path("receipts/"@, id@),
    {
        build_private_marketplace_path("receipts/", id)
    }

    fn validate_edition_pair(&self) -> (r: Result<(), String>)
        ensures
            outcome(r) == edition_pair_check(*self),
    {
        match (&self.edition_attestation, &self.drop) {
            (Some(a), Some(d)) => {
                validate_attestation_field(a.as_str(), "editionAttestation")?;
                d.validate()
            },
            (None, None) => Ok(()),
            _ => Err(
                owned("Validation Error: editionAttestation and drop must be present together"),
            ),
        }
    }

    /// Validates the receipt, and its match with the path id when one is
    /// given. A valid receipt names two different parties, is owned by the
    /// party its role names, and carries the drop-edition pair whole or
    /// not at all.
    pub fn validate(&self, id: Option<&str>) -> (r: Result<(), String>)
        ensures
            outcome(r) == receipt_check(*self, opt_str_view(id)),
            r is Ok ==> self.buyer_pubky@ != self.seller_pubky@,
            r is Ok ==> self.owner_pubky@ == party_of(*self),
            r is Ok ==> (self.edition_attestation is Some <==> self.drop is Some),
            r is Ok && self.drop is Some ==> self.drop->0.edition <= self.drop->0.of,
            r is Ok ==> base_record_holds(
                self.schema_version as int,
                self.record_type@,
                ORDER_RECEIPT_RECORD_TYPE@,
                self.owner_pubky@,
                self.revision as int,
                self.created_at@,
                self.updated_at@,
            ),
            r is Ok ==> receipt_fields_hold(*self, opt_str_view(id)),
    {
        proof {
            lemma_field_checks_iff(self.buyer_pubky@, "buyerPubky"@);
            lemma_field_checks_iff(self.seller_pubky@, "sellerPubky"@);
        }
        proof {
            lemma_base_record_iff(
                self.schema_version as int,
                self.record_type@,
                ORDER_RECEIPT_RECORD_TYPE@,
                self.owner_pubky@,
                self.revision as int,
                self.created_at@,
                self.updated_at@,
            );
        }
        match id {
            Some(i) => {
                if !str_eq(self.receipt_id.as_str(), i) {
                    return Err(
                        owned("Validation Error: receiptId does not match the receipt path ID"),
                    );
                }
            },
            None => {},
        }
        validate_base_record(
            self.schema_version,
            self.record_type.as_str(),
            ORDER_RECEIPT_RECORD_TYPE,
            self.owner_pubky.as_str(),
            self.revision,
            self.created_at.as_str(),
            self.updated_at.as_str(),
        )?;
        validate_uuid(self.receipt_id.as_str(), "receiptId")?;
        validate_uuid(self.order_id.as_str(), "orderId")?;
        validate_pubky(self.buyer_pubky.as_str(), "buyerPubky")?;
        validate_pubky(self.seller_pubky.as_str(), "sellerPubky")?;
        if str_eq(self.buyer_pubky.as_str(), self.seller_pubky.as_str()) {
            return Err(owned("Validation Error: buyerPubky and sellerPubky must differ"));
        }
        let expected_owner = match self.role {
            PubkyAppOrderReceiptRole::Buyer => self.buyer_pubky.as_str(),
            PubkyAppOrderReceiptRole::Seller => self.seller_pubky.as_str(),
        };
        if !str_eq(self.owner_pubky.as_str(), expected_owner) {
            let mut message = concat2("Validation Error: ownerPubky must equal ", self.role.as_str());
            message.append("Pubky when role is '");
            message.append(self.role.as_str());
            message.append("'");
            return Err(message);
        }
        self.total.validate_positive("total")?;
        match parse_rfc3339_millis(self.paid_at.as_str()) {
            Ok(_) => {},
            Err(e) => return Err(concat2("Validation Error: paidAt ", e.as_str())),
        }
        validate_attestation_field(self.receipt_attestation.as_str(), "receiptAttestation")?;
        self.validate_edition_pair()
    }
}

} // verus!

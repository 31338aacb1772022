//! The marketplace review of a trade counterparty.
//!
//! URI: `/pub/pubky.app/marketplace/v1/reviews/:review_id`, where the review
//! id is the content-hash identifier of
//! `{reviewed_listing_uri}:{subject_pubky}:{role}` and must match the
//! record's `reviewId` field.
use vstd::prelude::*;
use crate::attestation::{attestation_field_check, validate_attestation_field};
use crate::crypto::{hash_id, id_match_check, validate_hash_id};
use crate::marketplace::{
    pubky_holds, entity_id_holds, lemma_field_checks_iff,
    base_record_holds, lemma_base_record_iff,
    base_record_check, entity_id_check, pubky_check, validate_base_record, validate_entity_id,
    validate_pubky, MARKETPLACE_SCHEMA_VERSION,
};
use crate::text::{and_then, char_count, concat2, owned, outcome, trim, trim_str};
use crate::uri::{build_public_path, listing_uri, listing_uri_builder, public_path};

verus! {

/// Record discriminator of reviews.
pub const REVIEW_RECORD_TYPE: &'static str = "review";

/// Which side of the trade the review covers.
#[derive(Debug, Clone, Copy, PartialEq, Eq, Structural)]
pub enum PubkyAppReviewRole {
    BuyerReviewingSeller,
    SellerReviewingBuyer,
}

/// The wire name of a review role.
pub open spec fn review_role_name(role: PubkyAppReviewRole) -> Seq<char> {
    match role {
        PubkyAppReviewRole::BuyerReviewingSeller => "buyer_reviewing_seller"@,
        PubkyAppReviewRole::SellerReviewingBuyer => "seller_reviewing_buyer"@,
    }
}

impl PubkyAppReviewRole {
    /// The role's wire name.
    pub fn as_str(&self) -> (r: &'static str)
        ensures
            r@ == review_role_name(*self),
    {
        match self {
            PubkyAppReviewRole::BuyerReviewingSeller => "buyer_reviewing_seller",
            PubkyAppReviewRole::SellerReviewingBuyer => "seller_reviewing_buyer",
        }
    }
}

/// Star ratings on a 1-5 integer scale. Only `overall` is required.
#[derive(Debug, Clone, PartialEq)]
pub struct PubkyAppReviewRatings {
    pub overall: i64,
    pub item_accuracy: Option<i64>,
    pub shipping: Option<i64>,
    pub communication: Option<i64>,
}

/// A rating, when present, lies on the 1-5 scale.
pub open spec fn rating_in_scale(rating: Option<i64>) -> bool {
    match rating {
        Some(v) => 1 <= v <= 5,
        None => true,
    }
}

/// The outcome of validating the ratings.
pub open spec fn ratings_check(r: PubkyAppReviewRatings) -> Result<(), Seq<char>> {
    if rating_in_scale(Some(r.overall)) && rating_in_scale(r.item_accuracy) && rating_in_scale(
        r.shipping,
    ) && rating_in_scale(r.communication) {
        Ok(())
    } else {
        Err("Validation Error: ratings must be integers between 1 and 5"@)
    }
}

fn rating_ok(rating: Option<i64>) -> (r: bool)
    ensures
        r == rating_in_scale(rating),
{
    match rating {
        Some(v) => 1 <= v && v <= 5,
        None => true,
    }
}

/// A rating of 1 to 5 stars.
pub open spec fn stars(v: i64) -> bool {
    1 <= v && v <= 5
}

/// Every rating given is 1 to 5 stars: the overall rating and each of the
/// item-accuracy, shipping and communication ratings that is present.
pub open spec fn ratings_on_scale(r: PubkyAppReviewRatings) -> bool {
    &&& stars(r.overall)
    &&& (r.item_accuracy matches Some(v) ==> stars(v))
    &&& (r.shipping matches Some(v) ==> stars(v))
    &&& (r.communication matches Some(v) ==> stars(v))
}

/// Ratings validate exactly when every rating given is 1 to 5 stars.
pub proof fn lemma_ratings_valid_iff_on_scale(r: PubkyAppReviewRatings)
    ensures
        ratings_check(r) is Ok <==> ratings_on_scale(r),
{
}

impl PubkyAppReviewRatings {
    /// Checks that every present rating lies on the 1-5 scale.
    pub fn validate(&self) -> (r: Result<(), String>)
        ensures
            outcome(r) == ratings_check(*self),
            r is Ok <==> ratings_on_scale(*self),
    {
        proof {
            lemma_ratings_valid_iff_on_scale(*self);
        }
        if rating_ok(Some(self.overall)) && rating_ok(self.item_accuracy) && rating_ok(
            self.shipping,
        ) && rating_ok(self.communication) {
            Ok(())
        } else {
            Err(owned("Validation Error: ratings must be integers between 1 and 5"))
        }
    }
}

/// Represents a marketplace review of a trade counterparty.
#[derive(Debug, Clone, PartialEq)]
pub struct PubkyAppMarketplaceReview {
    /// Marketplace contract version, always `1`.
    pub schema_version: i64,
    /// Record discriminator, always `"review"`.
    pub record_type: String,
    /// z-base-32 pubky of the review author.
    pub owner_pubky: String,
    /// Monotonically increasing record revision, starting at 1.
    pub revision: i64,
    /// ISO-8601 creation datetime with offset.
    pub created_at: String,
    /// ISO-8601 last-update datetime with offset. Must not precede `created_at`.
    pub updated_at: String,
    /// Must match the hash ID in the record's path.
    pub review_id: String,
    /// z-base-32 pubky of the user being reviewed.
    pub subject_pubky: String,
    /// z-base-32 pubky of the seller who owns the reviewed listing.
    pub listing_owner_pubky: String,
    /// Identifier of the reviewed listing.
    pub listing_id: String,
    pub role: PubkyAppReviewRole,
    pub ratings: PubkyAppReviewRatings,
    pub text: String,
    /// Opaque proof that the author is eligible to review this trade.
    pub eligibility_attestation: String,
}

/// The text a review's identifier hashes:
/// `{reviewed_listing_uri}:{subject_pubky}:{role}`.
pub open spec fn review_id_data(r: PubkyAppMarketplaceReview) -> Seq<char> {
    listing_uri(r.listing_owner_pubky@, r.listing_id@) + ":"@ + r.subject_pubky@ + ":"@
        + review_role_name(r.role)
}

/// The outcome of checking the review text's length.
pub open spec fn review_text_check(text: Seq<char>) -> Result<(), Seq<char>> {
    if 1 <= text.len() <= 5000 {
        Ok(())
    } else {
        Err("Validation Error: review text must be 1-5000 characters"@)
    }
}

/// The outcome of validating a review against an optional path id.
pub open spec fn review_check(r: PubkyAppMarketplaceReview, id: Option<Seq<char>>) -> Result<(), Seq<char>> {
    let path_check = match id {
        None => Ok(()),
        Some(i) => and_then(
            id_match_check(hash_id(review_id_data(r)), i),
            if r.review_id@ == i {
                Ok(())
            } else {
                Err("Validation Error: reviewId does not match the review path ID"@)
            },
        ),
    };
    and_then(
        path_check,
        and_then(
            base_record_check(
                r.schema_version as int,
                r.record_type@,
                REVIEW_RECORD_TYPE@,
                r.owner_pubky@,
                r.revision as int,
                r.created_at@,
                r.updated_at@,
            ),
            and_then(
                entity_id_check(r.review_id@, "reviewId"@),
                and_then(
                    pubky_check(r.subject_pubky@, "subjectPubky"@),
                    and_then(
                        pubky_check(r.listing_owner_pubky@, "listingOwnerPubky"@),
                        and_then(
                            entity_id_check(r.listing_id@, "listingId"@),
                            and_then(
                                ratings_check(r.ratings),
                                and_then(
                                    review_text_check(r.text@),
                                    attestation_field_check(
                                        r.eligibility_attestation@,
                                        "eligibilityAttestation"@,
                                    ),
                                ),
                            ),
                        ),
                    ),
                ),
            ),
        ),
    )
}

/// The fields a valid review keeps: path-safe review and listing ids,
/// subject and listing-owner pubkys, every rating on the 1-5 scale, a text
/// of 1-5000 characters and an embedded attestation of 32-4096 compact-JWS
/// characters.
pub open spec fn review_fields_hold(r: PubkyAppMarketplaceReview) -> bool {
    &&& entity_id_holds(r.review_id@)
    &&& pubky_holds(r.subject_pubky@)
    &&& pubky_holds(r.listing_owner_pubky@)
    &&& entity_id_holds(r.listing_id@)
    &&& ratings_on_scale(r.ratings)
    &&& 1 <= r.text@.len() <= 5000
    &&& 32 <= r.eligibility_attestation@.len() <= 4096
    &&& crate::text::all_jws_chars(r.eligibility_attestation@)
}

/// A review that validates keeps its fields (see `review_fields_hold`).
pub proof fn lemma_valid_review_fields(r: PubkyAppMarketplaceReview, id: Option<Seq<char>>)
    requires
        review_check(r, id) is Ok,
    ensures
        review_fields_hold(r),
{
    lemma_field_checks_iff(r.review_id@, "reviewId"@);
    lemma_field_checks_iff(r.subject_pubky@, "subjectPubky"@);
    lemma_field_checks_iff(r.listing_owner_pubky@, "listingOwnerPubky"@);
    lemma_field_checks_iff(r.listing_id@, "listingId"@);
    lemma_ratings_valid_iff_on_scale(r.ratings);
}

impl PubkyAppMarketplaceReview {
    /// Creates a new review, sanitized.
    pub fn new(
        owner_pubky: String,
        revision: i64,
        created_at: String,
        updated_at: String,
        review_id: String,
        subject_pubky: String,
        listing_owner_pubky: String,
        listing_id: String,
        role: PubkyAppReviewRole,
        ratings: PubkyAppReviewRatings,
        text: String,
        eligibility_attestation: String,
    ) -> (r: Self)
        ensures
            r.schema_version == MARKETPLACE_SCHEMA_VERSION,
            r.record_type@ == REVIEW_RECORD_TYPE@,
            r.owner_pubky == owner_pubky,
            r.revision == revision,
            r.created_at == created_at,
            r.updated_at == updated_at,
            r.review_id == review_id,
            r.subject_pubky == subject_pubky,
            r.listing_owner_pubky == listing_owner_pubky,
            r.listing_id == listing_id,
            r.role == role,
            r.ratings == ratings,
            r.text@ == trim(text@),
            r.eligibility_attestation == eligibility_attestation,
    {
        PubkyAppMarketplaceReview {
            schema_version: MARKETPLACE_SCHEMA_VERSION,
            record_type: owned(REVIEW_RECORD_TYPE),
            owner_pubky,
            revision,
            created_at,
            updated_at,
            review_id,
            subject_pubky,
            listing_owner_pubky,
            listing_id,
            role,
            ratings,
            text,
            eligibility_attestation,
        }.sanitize()
    }

    /// The review with its text trimmed.
    pub fn sanitize(self) -> (r: Self)
        ensures
            r.text@ == trim(self.text@),
            r.schema_version == self.schema_version,
            r.record_type == self.record_type,
            r.owner_pubky == self.owner_pubky,
            r.revision == self.revision,
            r.created_at == self.created_at,
            r.updated_at == self.updated_at,
            r.review_id == self.review_id,
            r.subject_pubky == self.subject_pubky,
            r.listing_owner_pubky == self.listing_owner_pubky,
            r.listing_id == self.listing_id,
            r.role == self.role,
            r.ratings == self.ratings,
            r.eligibility_attestation == self.eligibility_attestation,
    {
        let text = trim_str(self.text.as_str());
        PubkyAppMarketplaceReview { text, ..self }
    }

    /// The path of review `id`: `/pub/pubky.app/marketplace/v1/reviews/<id>`.
    pub fn create_path(id: &str) -> (r: String)
        ensures
            r@ == public_path("marketplace/v1/reviews/"@, id@),
    {
        build_public_path("marketplace/v1/reviews/", id)
    }

    /// The text the review identifier hashes:
    /// `{reviewed_listing_uri}:{subject_pubky}:{role}`.
    pub fn get_id_data(&self) -> (r: String)
        ensures
            r@ == review_id_data(*self),
    {
        let uri = listing_uri_builder(self.listing_owner_pubky.clone(), self.listing_id.clone());
        let mut r = concat2(uri.as_str(), ":");
        r.append(self.subject_pubky.as_str());
        r.append(":");
        r.append(self.role.as_str());
        r
    }

    /// The review identifier: the content hash of [`Self::get_id_data`].
    pub fn create_id(&self) -> (r: String)
        ensures
            r@ == hash_id(review_id_data(*self)),
    {
        crate::crypto::create_hash_id(self.get_id_data().as_str())
    }

    /// Checks that `id` is this review's identifier.
    pub fn validate_id(&self, id: &str) -> (r: Result<(), String>)
        ensures
            outcome(r) == id_match_check(hash_id(review_id_data(*self)), id@),
    {
        validate_hash_id(self.get_id_data().as_str(), id)
    }

    /// Validates the review, and its match with the path id when one is
    /// given. A valid review under a path id carries that id, and the id is
    /// the content hash of the reviewed listing, subject and role.
    pub fn validate(&self, id: Option<&str>) -> (r: Result<(), String>)
        ensures
            outcome(r) == review_check(*self, crate::text::opt_str_view(id)),
            r is Ok && id is Some ==> self.review_id@ == id->0@ && id->0@ == hash_id(
                review_id_data(*self),
            ),
            r is Ok ==> ratings_on_scale(self.ratings),
            r is Ok ==> review_fields_hold(*self),
            r is Ok ==> base_record_holds(
                self.schema_version as int,
                self.record_type@,
                REVIEW_RECORD_TYPE@,
                self.owner_pubky@,
                self.revision as int,
                self.created_at@,
                self.updated_at@,
            ),
    {
        proof {
            lemma_base_record_iff(
                self.schema_version as int,
                self.record_type@,
                REVIEW_RECORD_TYPE@,
                self.owner_pubky@,
                self.revision as int,
                self.created_at@,
                self.updated_at@,
            );
        }
        proof {
            lemma_ratings_valid_iff_on_scale(self.ratings);
            if review_check(*self, crate::text::opt_str_view(id)) is Ok {
                lemma_valid_review_fields(*self, crate::text::opt_str_view(id));
            }
        }
        match id {
            Some(i) => {
                self.validate_id(i)?;
                if !crate::text::str_eq(self.review_id.as_str(), i) {
                    return Err(
                        owned("Validation Error: reviewId does not match the review path ID"),
                    );
                }
            },
            None => {},
        }
        validate_base_record(
            self.schema_version,
            self.record_type.as_str(),
            REVIEW_RECORD_TYPE,
            self.owner_pubky.as_str(),
            self.revision,
            self.created_at.as_str(),
            self.updated_at.as_str(),
        )?;
        validate_entity_id(self.review_id.as_str(), "reviewId")?;
        validate_pubky(self.subject_pubky.as_str(), "subjectPubky")?;
        validate_pubky(self.listing_owner_pubky.as_str(), "listingOwnerPubky")?;
        validate_entity_id(self.listing_id.as_str(), "listingId")?;
        self.ratings.validate()?;
        let text_length = char_count(self.text.as_str());
        if !(1 <= text_length && text_length <= 5000) {
            return Err(owned("Validation Error: review text must be 1-5000 characters"));
        }
        validate_attestation_field(self.eligibility_attestation.as_str(), "eligibilityAttestation")
    }
}

/// A review's identifier hashes only the reviewed listing, the subject and
/// the role: revising the text, ratings, attestation or timestamps keeps the
/// identifier.
pub proof fn lemma_review_id_ignores_content(r1: PubkyAppMarketplaceReview, r2: PubkyAppMarketplaceReview)
    requires
        r1.listing_owner_pubky@ == r2.listing_owner_pubky@,
        r1.listing_id@ == r2.listing_id@,
        r1.subject_pubky@ == r2.subject_pubky@,
        r1.role == r2.role,
    ensures
        review_id_data(r1) == review_id_data(r2),
        hash_id(review_id_data(r1)) == hash_id(review_id_data(r2)),
{
}

} // verus!

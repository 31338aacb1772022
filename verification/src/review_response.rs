//! A response to a marketplace review, published by the review's subject on
//! their own homeserver.
//!
//! URI: `/pub/pubky.app/marketplace/v1/review_responses/:review_id`. The
//! path id equals the subject review's id, which caps responses at one per
//! review (revisable via `revision`). Authorization is structural: a
//! response counts only when its owner is the subject of the review it
//! answers.
use vstd::prelude::*;
use crate::marketplace::{
    entity_id_holds, lemma_field_checks_iff,
    base_record_holds, lemma_base_record_iff,
    base_record_check, entity_id_check, is_pubky, validate_base_record, validate_entity_id,
    MARKETPLACE_SCHEMA_VERSION,
};
use crate::review::{review_check, PubkyAppMarketplaceReview};
use crate::text::{and_then, char_count, opt_str_view, outcome, owned, str_eq, trim, trim_str};
use crate::uri::{
    build_public_path, canonical_record_uri, is_entity_id, lemma_canonical_record_uri_of_built,
    marketplace_review_uri_builder, parse_review_uri, public_path, review_uri,
};

verus! {

/// Record discriminator of review responses.
pub const REVIEW_RESPONSE_RECORD_TYPE: &'static str = "review_response";

/// A response to a marketplace review.
#[derive(Debug, Clone, PartialEq)]
pub struct PubkyAppReviewResponse {
    /// Marketplace contract version, always `1`.
    pub schema_version: i64,
    /// Record discriminator, always `"review_response"`.
    pub record_type: String,
    /// z-base-32 pubky of the responder (the review's subject).
    pub owner_pubky: String,
    /// Monotonically increasing record revision, starting at 1.
    pub revision: i64,
    /// ISO-8601 creation datetime with offset.
    pub created_at: String,
    /// ISO-8601 last-update datetime with offset. Must not precede `created_at`.
    pub updated_at: String,
    /// The subject review's id; must equal the id in the record's path.
    pub review_id: String,
    /// Full canonical URI of the subject review on the author's homeserver.
    pub review_uri: String,
    pub text: String,
}

/// The structural authorization rule: the response's owner is the review's
/// subject, its id is the review's id and its `reviewUri` names that exact
/// review on the author's homeserver.
pub open spec fn is_authorized(response: PubkyAppReviewResponse, review: PubkyAppMarketplaceReview) -> bool {
    &&& response.owner_pubky@ == review.subject_pubky@
    &&& response.review_id@ == review.review_id@
    &&& response.review_uri@ == review_uri(review.owner_pubky@, review.review_id@)
}

/// The outcome of checking the `reviewUri` of a response.
pub open spec fn response_uri_check(response: PubkyAppReviewResponse) -> Result<(), Seq<char>> {
    match canonical_record_uri(response.review_uri@, "marketplace/v1/reviews/"@) {
        None => Err("Validation Error: reviewUri must be a canonical marketplace review URI"@),
        Some((owner, id)) => if id != response.review_id@ {
            Err("Validation Error: reviewUri must reference the same reviewId as the record"@)
        } else if owner == response.owner_pubky@ {
            Err("Validation Error: reviewUri must not point at the responder's own homeserver"@)
        } else {
            Ok(())
        },
    }
}

/// The outcome of checking the response text's length.
pub open spec fn response_text_check(text: Seq<char>) -> Result<(), Seq<char>> {
    if 1 <= text.len() <= 5000 {
        Ok(())
    } else {
        Err("Validation Error: response text must be 1-5000 characters"@)
    }
}

/// The outcome of validating a response against an optional path id.
pub open spec fn response_check(r: PubkyAppReviewResponse, id: Option<Seq<char>>) -> Result<(), Seq<char>> {
    let path_check = match id {
        Some(i) => if r.review_id@ != i {
            Err("Validation Error: reviewId does not match the response path ID"@)
        } else {
            Ok(())
        },
        None => Ok(()),
    };
    and_then(
        path_check,
        and_then(
            base_record_check(
                r.schema_version as int,
                r.record_type@,
                REVIEW_RESPONSE_RECORD_TYPE@,
                r.owner_pubky@,
                r.revision as int,
                r.created_at@,
                r.updated_at@,
            ),
            and_then(
                entity_id_check(r.review_id@, "reviewId"@),
                and_then(response_uri_check(r), response_text_check(r.text@)),
            ),
        ),
    )
}

/// The fields a valid response keeps: a path-safe review id that the path
/// id (when given) equals, a text of 1-5000 characters, and a review URI
/// that is the canonical URI of that review on another homeserver than the
/// responder's.
pub open spec fn response_fields_hold(r: PubkyAppReviewResponse, id: Option<Seq<char>>) -> bool {
    &&& entity_id_holds(r.review_id@)
    &&& (id matches Some(i) ==> r.review_id@ == i)
    &&& 1 <= r.text@.len() <= 5000
    &&& match canonical_record_uri(r.review_uri@, "marketplace/v1/reviews/"@) {
        Some((owner, review_id)) => review_id == r.review_id@ && owner != r.owner_pubky@,
        None => false,
    }
}

impl PubkyAppReviewResponse {
    /// Creates a new response, sanitized.
    pub fn new(
        owner_pubky: String,
        revision: i64,
        created_at: String,
        updated_at: String,
        review_id: String,
        review_uri: String,
        text: String,
    ) -> (r: Self)
        ensures
            r.schema_version == MARKETPLACE_SCHEMA_VERSION,
            r.record_type@ == REVIEW_RESPONSE_RECORD_TYPE@,
            r.owner_pubky == owner_pubky,
            r.revision == revision,
            r.created_at == created_at,
            r.updated_at == updated_at,
            r.review_id == review_id,
            r.review_uri == review_uri,
            r.text@ == trim(text@),
    {
        PubkyAppReviewResponse {
            schema_version: MARKETPLACE_SCHEMA_VERSION,
            record_type: owned(REVIEW_RESPONSE_RECORD_TYPE),
            owner_pubky,
            revision,
            created_at,
            updated_at,
            review_id,
            review_uri,
            text,
        }.sanitize()
    }

    /// The response with its text trimmed.
    pub fn sanitize(self) -> (r: Self)
        ensures
            r.text@ == trim(self.text@),
            r.schema_version == self.schema_version,
            r.record_type == self.record_type,
            r.owner_pubky == self.owner_pubky,
            r.revision == self.revision,
            r.created_at == self.created_at,
            r.updated_at == self.updated_at,
            r.review_id == self.review_id,
            r.review_uri == self.review_uri,
    {
        let text = trim_str(self.text.as_str());
        PubkyAppReviewResponse { text, ..self }
    }

    /// The path of the response to review `id`.
    pub fn create_path(id: &str) -> (r: String)
        ensures
            r@ == public_path("marketplace/v1/review_responses/"@, id@),
    {
        build_public_path("marketplace/v1/review_responses/", id)
    }

    /// The structural authorization rule indexers apply.
    pub fn is_authorized_response_to(&self, review: &PubkyAppMarketplaceReview) -> (r: bool)
        ensures
            r == is_authorized(*self, *review),
    {
        str_eq(self.owner_pubky.as_str(), review.subject_pubky.as_str()) && str_eq(
            self.review_id.as_str(),
            review.review_id.as_str(),
        ) && str_eq(
            self.review_uri.as_str(),
            marketplace_review_uri_builder(
                review.owner_pubky.clone(),
                review.review_id.clone(),
            ).as_str(),
        )
    }

    /// Validates the response, and its match with the path id when one is
    /// given.
    pub fn validate(&self, id: Option<&str>) -> (r: Result<(), String>)
        ensures
            outcome(r) == response_check(*self, opt_str_view(id)),
            r is Ok ==> base_record_holds(
                self.schema_version as int,
                self.record_type@,
                REVIEW_RESPONSE_RECORD_TYPE@,
                self.owner_pubky@,
                self.revision as int,
                self.created_at@,
                self.updated_at@,
            ),
            r is Ok ==> response_fields_hold(*self, opt_str_view(id)),
    {
        proof {
            lemma_field_checks_iff(self.review_id@, "reviewId"@);
        }
        proof {
            lemma_base_record_iff(
                self.schema_version as int,
                self.record_type@,
                REVIEW_RESPONSE_RECORD_TYPE@,
                self.owner_pubky@,
                self.revision as int,
                self.created_at@,
                self.updated_at@,
            );
        }
        match id {
            Some(i) => {
                if !str_eq(self.review_id.as_str(), i) {
                    return Err(
                        owned("Validation Error: reviewId does not match the response path ID"),
                    );
                }
            },
            None => {},
        }
        validate_base_record(
            self.schema_version,
            self.record_type.as_str(),
            REVIEW_RESPONSE_RECORD_TYPE,
            self.owner_pubky.as_str(),
            self.revision,
            self.created_at.as_str(),
            self.updated_at.as_str(),
        )?;
        validate_entity_id(self.review_id.as_str(), "reviewId")?;
        match parse_review_uri(self.review_uri.as_str()) {
            None => {
                return Err(
                    owned("Validation Error: reviewUri must be a canonical marketplace review URI"),
                );
            },
            Some((owner, rid)) => {
                if !str_eq(rid.as_str(), self.review_id.as_str()) {
                    return Err(
                        owned(
                            "Validation Error: reviewUri must reference the same reviewId as the record",
                        ),
                    );
                }
                if str_eq(owner.as_str(), self.owner_pubky.as_str()) {
                    return Err(
                        owned(
                            "Validation Error: reviewUri must not point at the responder's own homeserver",
                        ),
                    );
                }
            },
        }
        let text_length = char_count(self.text.as_str());
        if !(1 <= text_length && text_length <= 5000) {
            return Err(owned("Validation Error: response text must be 1-5000 characters"));
        }
        Ok(())
    }
}

/// An impostor's response is never authorized: only the review's subject
/// can answer it.
pub proof fn lemma_only_subject_is_authorized(
    response: PubkyAppReviewResponse,
    review: PubkyAppMarketplaceReview,
)
    requires
        response.owner_pubky@ != review.subject_pubky@,
    ensures
        !is_authorized(response, review),
{
}

/// A subject never answers their own record: when a valid response is
/// authorized for a valid review, the review's author differs from its
/// subject (the review lives on the author's homeserver, the response on
/// the subject's).
pub proof fn lemma_authorized_response_crosses_homeservers(
    response: PubkyAppReviewResponse,
    review: PubkyAppMarketplaceReview,
)
    requires
        response_check(response, None) is Ok,
        review_check(review, None) is Ok,
        is_authorized(response, review),
    ensures
        review.owner_pubky@ != review.subject_pubky@,
        response.owner_pubky@ != review.owner_pubky@,
{
    assert(is_pubky(review.owner_pubky@));
    assert(is_entity_id(review.review_id@));
    lemma_canonical_record_uri_of_built(
        review.owner_pubky@,
        "marketplace/v1/reviews/"@,
        review.review_id@,
    );
}

} // verus!

//! A marketplace drop: a seller's scheduled, limited-quantity release
//! bundling one or more of their own listings.
//!
//! URI: `/pub/pubky.app/marketplace/v1/drops/:drop_id`. `startsAt` and
//! `endsAt` are the seller's declared schedule; the transaction service
//! enforces the real sale window and stock counters.
use vstd::prelude::*;
use crate::marketplace::{
    entity_id_holds, lemma_field_checks_iff,
    base_record_holds, lemma_base_record_iff,
    base_record_check, entity_id_check, marketplace_media_prefix, marketplace_uri_check,
    media_prefix, parse_rfc3339_millis, rfc3339_error, rfc3339_millis, validate_base_record,
    validate_entity_id, validate_marketplace_uri, MARKETPLACE_SCHEMA_VERSION,
};
use crate::text::{
    all_distinct, and_then, char_count, concat2, each_check, ensure_unique, has_prefix,
    lemma_each_check_end, lemma_each_check_step, opt_str_view, outcome, owned, starts_with,
    str_eq, trim, trim_str, unique_check, views, lemma_each_check_all,
};
use crate::uri::{build_public_path, public_path};

verus! {

/// Record discriminator of drops.
pub const DROP_RECORD_TYPE: &'static str = "drop";

/// How a drop sells. This version defines only first-come, first-served.
#[derive(Debug, Clone, Copy, PartialEq, Eq, Structural)]
pub enum PubkyAppDropFormat {
    Fcfs,
}

/// How much remaining-stock detail the seller wants the public projection
/// to reveal while the drop runs (declared here, enforced server-side).
#[derive(Debug, Clone, Copy, PartialEq, Eq, Structural)]
pub enum PubkyAppDropStockDisplay {
    Exact,
    Bands,
    Hidden,
}

/// A marketplace drop.
#[derive(Debug, Clone, PartialEq)]
pub struct PubkyAppMarketplaceDrop {
    /// Marketplace contract version, always `1`.
    pub schema_version: i64,
    /// Record discriminator, always `"drop"`.
    pub record_type: String,
    /// z-base-32 pubky of the seller.
    pub owner_pubky: String,
    /// Monotonically increasing record revision, starting at 1.
    pub revision: i64,
    /// ISO-8601 creation datetime with offset.
    pub created_at: String,
    /// ISO-8601 last-update datetime with offset. Must not precede `created_at`.
    pub updated_at: String,
    /// Must match the entity id in the record's path.
    pub drop_id: String,
    pub title: String,
    pub description: String,
    /// Promotional media URIs, owned by the drop's seller.
    pub media: Vec<String>,
    pub format: PubkyAppDropFormat,
    /// ISO-8601 datetime with offset: the seller's declared start.
    pub starts_at: String,
    /// Optional ISO-8601 datetime with offset, strictly after `starts_at`.
    pub ends_at: Option<String>,
    /// The seller's own listings bundled into the drop: 1-20 unique ids.
    pub listing_ids: Vec<String>,
    /// Total units across the drop, 1-1000000.
    pub total_quantity: i64,
    /// Per-buyer purchase cap, 1-100; never above `total_quantity`.
    pub per_buyer_limit: i64,
    /// The seller's declared stock-visibility policy.
    pub stock_display: PubkyAppDropStockDisplay,
}

/// The rule each media entry of a drop owned by `owner` obeys.
pub open spec fn drop_media_rule(owner: Seq<char>) -> spec_fn(String) -> Result<(), Seq<char>> {
    |url: String|
        and_then(
            marketplace_uri_check(url@, "drop media entry"@),
            if has_prefix(url@, media_prefix(owner)) {
                Ok(())
            } else {
                Err("Validation Error: drop media must be owned by the drop seller"@)
            },
        )
}

/// The rule each listing id of a drop obeys.
pub open spec fn drop_listing_rule() -> spec_fn(String) -> Result<(), Seq<char>> {
    |id: String| entity_id_check(id@, "listingIds entry"@)
}

/// The outcome of checking the drop's schedule.
pub open spec fn schedule_check(starts_at: Seq<char>, ends_at: Option<String>) -> Result<(), Seq<char>> {
    match rfc3339_millis(starts_at) {
        None => Err("Validation Error: startsAt "@ + rfc3339_error()),
        Some(starts) => match ends_at {
            None => Ok(()),
            Some(e) => match rfc3339_millis(e@) {
                None => Err("Validation Error: endsAt "@ + rfc3339_error()),
                Some(ends) => if ends <= starts {
                    Err("Validation Error: endsAt must be strictly after startsAt"@)
                } else {
                    Ok(())
                },
            },
        },
    }
}

/// The outcome of checking the drop's quantities.
pub open spec fn quantity_check(total_quantity: i64, per_buyer_limit: i64) -> Result<(), Seq<char>> {
    if !(1 <= total_quantity <= 1_000_000) {
        Err("Validation Error: totalQuantity must be between 1 and 1000000"@)
    } else if !(1 <= per_buyer_limit <= 100) {
        Err("Validation Error: perBuyerLimit must be between 1 and 100"@)
    } else if per_buyer_limit > total_quantity {
        Err("Validation Error: perBuyerLimit must not exceed totalQuantity"@)
    } else {
        Ok(())
    }
}

/// The outcome of validating a drop against an optional path id.
pub open spec fn drop_check(d: PubkyAppMarketplaceDrop, id: Option<Seq<char>>) -> Result<(), Seq<char>> {
    let path_check = match id {
        Some(i) => and_then(
            entity_id_check(i, "drop path id"@),
            if d.drop_id@ != i {
                Err("Validation Error: dropId does not match the drop path ID"@)
            } else {
                Ok(())
            },
        ),
        None => Ok(()),
    };
    and_then(
        path_check,
        and_then(
            base_record_check(
                d.schema_version as int,
                d.record_type@,
                DROP_RECORD_TYPE@,
                d.owner_pubky@,
                d.revision as int,
                d.created_at@,
                d.updated_at@,
            ),
            and_then(
                entity_id_check(d.drop_id@, "dropId"@),
                and_then(
                    if 1 <= d.title@.len() <= 120 {
                        Ok(())
                    } else {
                        Err("Validation Error: drop title must be 1-120 characters"@)
                    },
                    and_then(
                        if d.description@.len() <= 2000 {
                            Ok(())
                        } else {
                            Err("Validation Error: drop description exceeds maximum length of 2000"@)
                        },
                        and_then(
                            if d.media@.len() > 10 {
                                Err("Validation Error: drop supports at most 10 media entries"@)
                            } else {
                                Ok(())
                            },
                            and_then(
                                each_check(d.media@, drop_media_rule(d.owner_pubky@)),
                                and_then(
                                    unique_check(views(d.media@), "drop media entries"@),
                                    and_then(
                                        schedule_check(d.starts_at@, d.ends_at),
                                        and_then(
                                            if !(1 <= d.listing_ids@.len() <= 20) {
                                                Err(
                                                    "Validation Error: drop requires 1-20 listingIds"@,
                                                )
                                            } else {
                                                Ok(())
                                            },
                                            and_then(
                                                each_check(d.listing_ids@, drop_listing_rule()),
                                                and_then(
                                                    unique_check(views(d.listing_ids@), "listingIds"@),
                                                    quantity_check(d.total_quantity, d.per_buyer_limit),
                                                ),
                                            ),
                                        ),
                                    ),
                                ),
                            ),
                        ),
                    ),
                ),
            ),
        ),
    )
}

/// The fields a valid drop keeps: a path-safe drop id that the path id
/// (when given) equals, a title of 1-120 characters, a description of at
/// most 2000, at most 10 media entries, a start that parses, 1-20
/// path-safe listing ids, a total of 1-1000000 units and a per-buyer limit
/// of 1-100.
pub open spec fn drop_fields_hold(d: PubkyAppMarketplaceDrop, id: Option<Seq<char>>) -> bool {
    &&& entity_id_holds(d.drop_id@)
    &&& (id matches Some(i) ==> d.drop_id@ == i)
    &&& 1 <= d.title@.len() <= 120
    &&& d.description@.len() <= 2000
    &&& d.media@.len() <= 10
    &&& rfc3339_millis(d.starts_at@) is Some
    &&& 1 <= d.listing_ids@.len() <= 20
    &&& (forall|i: int| 0 <= i < d.listing_ids@.len() ==> entity_id_holds(
        (#[trigger] d.listing_ids@[i])@,
    ))
    &&& 1 <= d.total_quantity <= 1_000_000
    &&& 1 <= d.per_buyer_limit <= 100
}

/// A drop that validates keeps its fields (see `drop_fields_hold`).
pub proof fn lemma_valid_drop_fields(d: PubkyAppMarketplaceDrop, id: Option<Seq<char>>)
    requires
        drop_check(d, id) is Ok,
    ensures
        drop_fields_hold(d, id),
{
    lemma_field_checks_iff(d.drop_id@, "dropId"@);
    assert forall|i: int| 0 <= i < d.listing_ids@.len() implies entity_id_holds(
        (#[trigger] d.listing_ids@[i])@,
    ) by {
        lemma_each_check_all(d.listing_ids@, drop_listing_rule(), i);
        lemma_field_checks_iff(d.listing_ids@[i]@, "listingIds entry"@);
    }
}

impl PubkyAppMarketplaceDrop {
    /// Creates a new drop, sanitized.
    pub fn new(
        owner_pubky: String,
        revision: i64,
        created_at: String,
        updated_at: String,
        drop_id: String,
        title: String,
        description: String,
        media: Vec<String>,
        format: PubkyAppDropFormat,
        starts_at: String,
        ends_at: Option<String>,
        listing_ids: Vec<String>,
        total_quantity: i64,
        per_buyer_limit: i64,
        stock_display: PubkyAppDropStockDisplay,
    ) -> (r: Self)
        ensures
            r.schema_version == MARKETPLACE_SCHEMA_VERSION,
            r.record_type@ == DROP_RECORD_TYPE@,
            r.owner_pubky == owner_pubky,
            r.revision == revision,
            r.created_at == created_at,
            r.updated_at == updated_at,
            r.drop_id == drop_id,
            r.title@ == trim(title@),
            r.description@ == trim(description@),
            r.media == media,
            r.format == format,
            r.starts_at == starts_at,
            r.ends_at == ends_at,
            r.listing_ids == listing_ids,
            r.total_quantity == total_quantity,
            r.per_buyer_limit == per_buyer_limit,
            r.stock_display == stock_display,
    {
        PubkyAppMarketplaceDrop {
            schema_version: MARKETPLACE_SCHEMA_VERSION,
            record_type: owned(DROP_RECORD_TYPE),
            owner_pubky,
            revision,
            created_at,
            updated_at,
            drop_id,
            title,
            description,
            media,
            format,
            starts_at,
            ends_at,
            listing_ids,
            total_quantity,
            per_buyer_limit,
            stock_display,
        }.sanitize()
    }

    /// The drop with its title and description trimmed.
    pub fn sanitize(self) -> (r: Self)
        ensures
            r.title@ == trim(self.title@),
            r.description@ == trim(self.description@),
            r.schema_version == self.schema_version,
            r.record_type == self.record_type,
            r.owner_pubky == self.owner_pubky,
            r.revision == self.revision,
            r.created_at == self.created_at,
            r.updated_at == self.updated_at,
            r.drop_id == self.drop_id,
            r.media == self.media,
            r.format == self.format,
            r.starts_at == self.starts_at,
            r.ends_at == self.ends_at,
            r.listing_ids == self.listing_ids,
            r.total_quantity == self.total_quantity,
            r.per_buyer_limit == self.per_buyer_limit,
            r.stock_display == self.stock_display,
    {
        let title = trim_str(self.title.as_str());
        let description = trim_str(self.description.as_str());
        PubkyAppMarketplaceDrop { title, description, ..self }
    }

    /// The path of drop `id`: `/pub/pubky.app/marketplace/v1/drops/<id>`.
    pub fn create_path(id: &str) -> (r: String)
        ensures
            r@ == public_path("marketplace/v1/drops/"@, id@),
    {
        build_public_path("marketplace/v1/drops/", id)
    }

    fn check_media_entries(&self) -> (r: Result<(), String>)
        ensures
            outcome(r) == each_check(self.media@, drop_media_rule(self.owner_pubky@)),
    {
        let prefix = marketplace_media_prefix(self.owner_pubky.as_str());
        let ghost f = drop_media_rule(self.owner_pubky@);
        assert(self.media@.skip(0) =~= self.media@);
        let mut i: usize = 0;
        while i < self.media.len()
            invariant
                i <= self.media.len(),
                prefix@ == media_prefix(self.owner_pubky@),
                f == drop_media_rule(self.owner_pubky@),
                each_check(self.media@, f) == each_check(self.media@.skip(i as int), f),
            decreases self.media.len() - i,
        {
            proof {
                lemma_each_check_step(self.media@, f, i as int);
            }
            let url = &self.media[i];
            validate_marketplace_uri(url.as_str(), "drop media entry")?;
            if !starts_with(url.as_str(), prefix.as_str()) {
                return Err(owned("Validation Error: drop media must be owned by the drop seller"));
            }
            i = i + 1;
        }
        proof {
            lemma_each_check_end(self.media@, f);
        }
        Ok(())
    }

    fn check_listing_ids(&self) -> (r: Result<(), String>)
        ensures
            outcome(r) == each_check(self.listing_ids@, drop_listing_rule()),
    {
        let ghost f = drop_listing_rule();
        assert(self.listing_ids@.skip(0) =~= self.listing_ids@);
        let mut i: usize = 0;
        while i < self.listing_ids.len()
            invariant
                i <= self.listing_ids.len(),
                f == drop_listing_rule(),
                each_check(self.listing_ids@, f) == each_check(self.listing_ids@.skip(i as int), f),
            decreases self.listing_ids.len() - i,
        {
            proof {
                lemma_each_check_step(self.listing_ids@, f, i as int);
            }
            validate_entity_id(self.listing_ids[i].as_str(), "listingIds entry")?;
            i = i + 1;
        }
        proof {
            lemma_each_check_end(self.listing_ids@, f);
        }
        Ok(())
    }

    fn check_schedule(&self) -> (r: Result<(), String>)
        ensures
            outcome(r) == schedule_check(self.starts_at@, self.ends_at),
    {
        let starts = match parse_rfc3339_millis(self.starts_at.as_str()) {
            Ok(v) => v,
            Err(e) => return Err(concat2("Validation Error: startsAt ", e.as_str())),
        };
        match &self.ends_at {
            None => Ok(()),
            Some(ends_at) => {
                let ends = match parse_rfc3339_millis(ends_at.as_str()) {
                    Ok(v) => v,
                    Err(e) => return Err(concat2("Validation Error: endsAt ", e.as_str())),
                };
                if ends <= starts {
                    return Err(owned("Validation Error: endsAt must be strictly after startsAt"));
                }
                Ok(())
            },
        }
    }

    /// Validates the drop, and its match with the path id when one is
    /// given. A valid drop caps each buyer at no more than its total, has
    /// unique media and listing ids, and ends (when it declares an end)
    /// strictly after it starts.
    pub fn validate(&self, id: Option<&str>) -> (r: Result<(), String>)
        ensures
            outcome(r) == drop_check(*self, opt_str_view(id)),
            r is Ok ==> 1 <= self.per_buyer_limit <= self.total_quantity,
            r is Ok ==> all_distinct(views(self.listing_ids@)) && all_distinct(views(self.media@)),
            r is Ok && self.ends_at is Some ==> rfc3339_millis(self.starts_at@)->0 < rfc3339_millis(
                self.ends_at->0@,
            )->0,
            r is Ok ==> base_record_holds(
                self.schema_version as int,
                self.record_type@,
                DROP_RECORD_TYPE@,
                self.owner_pubky@,
                self.revision as int,
                self.created_at@,
                self.updated_at@,
            ),
            r is Ok ==> drop_fields_hold(*self, opt_str_view(id)),
    {
        proof {
            if drop_check(*self, opt_str_view(id)) is Ok {
                lemma_valid_drop_fields(*self, opt_str_view(id));
            }
        }
        proof {
            lemma_base_record_iff(
                self.schema_version as int,
                self.record_type@,
                DROP_RECORD_TYPE@,
                self.owner_pubky@,
                self.revision as int,
                self.created_at@,
                self.updated_at@,
            );
        }
        match id {
            Some(i) => {
                validate_entity_id(i, "drop path id")?;
                if !str_eq(self.drop_id.as_str(), i) {
                    return Err(owned("Validation Error: dropId does not match the drop path ID"));
                }
            },
            None => {},
        }
        validate_base_record(
            self.schema_version,
            self.record_type.as_str(),
            DROP_RECORD_TYPE,
            self.owner_pubky.as_str(),
            self.revision,
            self.created_at.as_str(),
            self.updated_at.as_str(),
        )?;
        validate_entity_id(self.drop_id.as_str(), "dropId")?;
        let title_length = char_count(self.title.as_str());
        if !(1 <= title_length && title_length <= 120) {
            return Err(owned("Validation Error: drop title must be 1-120 characters"));
        }
        if char_count(self.description.as_str()) > 2000 {
            return Err(
                owned("Validation Error: drop description exceeds maximum length of 2000"),
            );
        }
        if self.media.len() > 10 {
            return Err(owned("Validation Error: drop supports at most 10 media entries"));
        }
        self.check_media_entries()?;
        ensure_unique(&self.media, "drop media entries")?;
        self.check_schedule()?;
        if !(1 <= self.listing_ids.len() && self.listing_ids.len() <= 20) {
            return Err(owned("Validation Error: drop requires 1-20 listingIds"));
        }
        self.check_listing_ids()?;
        ensure_unique(&self.listing_ids, "listingIds")?;
        if !(1 <= self.total_quantity && self.total_quantity <= 1_000_000) {
            return Err(owned("Validation Error: totalQuantity must be between 1 and 1000000"));
        }
        if !(1 <= self.per_buyer_limit && self.per_buyer_limit <= 100) {
            return Err(owned("Validation Error: perBuyerLimit must be between 1 and 100"));
        }
        if self.per_buyer_limit > self.total_quantity {
            return Err(owned("Validation Error: perBuyerLimit must not exceed totalQuantity"));
        }
        Ok(())
    }
}

} // verus!

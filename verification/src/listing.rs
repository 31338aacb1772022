//! A marketplace listing: one item for sale, with its media, variants,
//! sale format, fulfillment, shipping, return policy and optional digital
//! lock.
//!
//! URI: `/pub/pubky.app/marketplace/v1/listings/:listing_id`, where the
//! path id follows the marketplace entity-id convention and must match the
//! record's `listingId`.
use vstd::prelude::*;
use crate::listing_parts::{
    attribute_key_check, attribute_value_check, attribute_value_trimmed, category_check,
    digital_lock_check, media_check, package_check, primary_price_of, return_policy_check,
    sale_check, sale_terms_hold, lemma_valid_sale_terms, media_holds, shipping_option_holds,
    package_holds, return_policy_holds, digital_lock_holds, lemma_valid_media,
    lemma_valid_shipping_option, lemma_valid_digital_lock, shipping_check, shipping_id, shipping_sanitized, trimmed_pairs, pair_views,
    lists_map_sorted, pairs_map, variant_sanitized, lemma_variant_sanitize_twice,
    lemma_shipping_sanitize_twice, lemma_attribute_value_trim_twice,
    validate_attribute_key, validate_kebab_case_category, variant_check,
    PubkyAppDigitalLock, PubkyAppFulfillmentMethod, PubkyAppListingAttributeValue,
    PubkyAppListingCondition, PubkyAppListingMedia, PubkyAppListingMediaKind,
    PubkyAppListingPackage, PubkyAppListingSale, PubkyAppListingState, PubkyAppListingVariant,
    PubkyAppReturnPolicy, PubkyAppShippingOption,
};
use crate::marketplace::{
    base_record_holds, lemma_base_record_iff,
    base_record_check, entity_id_check, location_check, marketplace_media_prefix, media_prefix,
    same_asset_spec, validate_base_record, validate_entity_id, PubkyAppMarketplaceLocation,
    PubkyAppMoney, MARKETPLACE_SCHEMA_VERSION,
};
use crate::text::{
    all_distinct, and_then, char_count, each_check, ensure_unique, has_prefix,
    lemma_each_check_end, lemma_each_check_step, opt_str_view, opt_view, outcome, owned,
    starts_with, str_eq, trim, trim_opt, trim_opt_spec, trim_str, unique_check, views,
    keys_ascending, keys_distinct, check_keys_ascending, lemma_keys_ascending_distinct,
    lemma_trim_idempotent, lemma_each_check_all, all_ascii_upper,
};
use crate::uri::{build_public_path, public_path};

verus! {

/// Record discriminator of listings.
pub const LISTING_RECORD_TYPE: &'static str = "listing";

/// A marketplace listing. `attributes`, when present, holds the category
/// attributes as (key, value) pairs in ascending key order, each key once;
/// `validate` rejects any other order.
#[derive(Debug, Clone, PartialEq)]
pub struct PubkyAppListing {
    pub schema_version: i64,
    pub record_type: String,
    pub owner_pubky: String,
    pub revision: i64,
    pub created_at: String,
    pub updated_at: String,
    pub listing_id: String,
    pub state: PubkyAppListingState,
    pub title: String,
    pub description: String,
    pub taxonomy_version: i64,
    pub category_id: String,
    pub attributes: Option<Vec<(String, PubkyAppListingAttributeValue)>>,
    pub condition: PubkyAppListingCondition,
    pub condition_details: Option<String>,
    pub tags: Vec<String>,
    pub location: PubkyAppMarketplaceLocation,
    pub media: Vec<PubkyAppListingMedia>,
    pub variants: Vec<PubkyAppListingVariant>,
    pub sale: PubkyAppListingSale,
    pub fulfillment_methods: Vec<PubkyAppFulfillmentMethod>,
    pub package: Option<PubkyAppListingPackage>,
    pub shipping_options: Vec<PubkyAppShippingOption>,
    pub return_policy: PubkyAppReturnPolicy,
    pub digital_lock: Option<PubkyAppDigitalLock>,
    pub adult_only: bool,
}

// ---------------------------------------------------------------------------
// Views over the listing's parts
// ---------------------------------------------------------------------------

/// The ids of the media entries, in order.
pub open spec fn media_ids_of(m: Seq<PubkyAppListingMedia>) -> Seq<Seq<char>> {
    m.map_values(|x: PubkyAppListingMedia| x.id@)
}

/// The ids of the variants, in order.
pub open spec fn variant_ids_of(v: Seq<PubkyAppListingVariant>) -> Seq<Seq<char>> {
    v.map_values(|x: PubkyAppListingVariant| x.id@)
}

/// The ids of the shipping options, in order.
pub open spec fn shipping_ids_of(o: Seq<PubkyAppShippingOption>) -> Seq<Seq<char>> {
    o.map_values(|x: PubkyAppShippingOption| shipping_id(x))
}

/// The SKUs the variants declare, in order.
pub open spec fn present_skus(v: Seq<PubkyAppListingVariant>) -> Seq<Seq<char>>
    decreases v.len(),
{
    if v.len() == 0 {
        Seq::empty()
    } else {
        let rest = present_skus(v.drop_last());
        match v.last().sku {
            Some(s) => rest.push(s@),
            None => rest,
        }
    }
}

/// The number of image entries.
pub open spec fn image_count(m: Seq<PubkyAppListingMedia>) -> nat
    decreases m.len(),
{
    if m.len() == 0 {
        0
    } else {
        image_count(m.drop_last()) + if m.last().kind == PubkyAppListingMediaKind::Image {
            1nat
        } else {
            0nat
        }
    }
}

/// Every media id a variant references names a media entry.
pub open spec fn variant_media_known(l: PubkyAppListing) -> bool {
    forall|i: int, j: int|
        0 <= i < l.variants@.len() && 0 <= j < l.variants@[i].media_ids@.len()
            ==> media_ids_of(l.media@).contains(#[trigger] l.variants@[i].media_ids@[j]@)
}

/// Some enabled variant has stock.
pub open spec fn has_available_variant(v: Seq<PubkyAppListingVariant>) -> bool {
    exists|i: int| 0 <= i < v.len() && #[trigger] v[i].enabled && v[i].quantity > 0
}

/// Every variant price override uses the asset of `primary`.
pub open spec fn overrides_share_asset(v: Seq<PubkyAppListingVariant>, primary: PubkyAppMoney) -> bool {
    forall|i: int|
        0 <= i < v.len() && (#[trigger] v[i]).price_override is Some ==> same_asset_spec(
            v[i].price_override->0,
            primary,
        )
}

/// No fulfillment method occurs twice.
pub open spec fn methods_distinct(m: Seq<PubkyAppFulfillmentMethod>) -> bool {
    forall|i: int, j: int| 0 <= i < j < m.len() ==> #[trigger] m[i] != #[trigger] m[j]
}

// ---------------------------------------------------------------------------
// Sections of the validation
// ---------------------------------------------------------------------------

/// The rule each attribute (key, value) pair obeys.
pub open spec fn attribute_rule() -> spec_fn((String, PubkyAppListingAttributeValue)) -> Result<(), Seq<char>> {
    |p: (String, PubkyAppListingAttributeValue)|
        and_then(attribute_key_check(p.0@), attribute_value_check(p.1, p.0@))
}

/// The outcome of checking the category attributes.
pub open spec fn attributes_check(a: Option<Vec<(String, PubkyAppListingAttributeValue)>>) -> Result<(), Seq<char>> {
    match a {
        None => Ok(()),
        Some(v) => if v@.len() > 20 {
            Err("Validation Error: listing supports at most 20 attributes"@)
        } else if !keys_ascending(v@) {
            Err("Validation Error: attribute keys must be unique and in ascending order"@)
        } else {
            each_check(v@, attribute_rule())
        },
    }
}

/// The rule each tag obeys.
pub open spec fn tag_rule() -> spec_fn(String) -> Result<(), Seq<char>> {
    |t: String|
        if 1 <= t@.len() <= 40 {
            Ok(())
        } else {
            Err("Validation Error: listing tags must be 1-40 characters"@)
        }
}

/// The outcome of the descriptive fields: taxonomy, title, description,
/// category, attributes, condition details, tags and location.
pub open spec fn header_section_check(l: PubkyAppListing) -> Result<(), Seq<char>> {
    if !(1 <= l.taxonomy_version <= 1_000_000) {
        Err("Validation Error: taxonomyVersion must be between 1 and 1000000"@)
    } else if !(3 <= l.title@.len() <= 80) {
        Err("Validation Error: listing title must be 3-80 characters"@)
    } else if !(1 <= l.description@.len() <= 10_000) {
        Err("Validation Error: listing description must be 1-10000 characters"@)
    } else {
        and_then(
            category_check(l.category_id@),
            and_then(
                attributes_check(l.attributes),
                and_then(
                    match l.condition_details {
                        Some(d) => if d@.len() > 1000 {
                            Err(
                                "Validation Error: conditionDetails exceeds maximum length of 1000"@,
                            )
                        } else {
                            Ok(())
                        },
                        None => Ok(()),
                    },
                    and_then(
                        if l.tags@.len() > 10 {
                            Err("Validation Error: listing supports at most 10 tags"@)
                        } else {
                            Ok(())
                        },
                        and_then(
                            each_check(l.tags@, tag_rule()),
                            and_then(
                                unique_check(views(l.tags@), "tags"@),
                                location_check(
                                    l.location.country_code@,
                                    opt_view(l.location.region),
                                ),
                            ),
                        ),
                    ),
                ),
            ),
        )
    }
}

/// The rule each media entry of a listing owned by `owner` obeys.
pub open spec fn listing_media_rule(owner: Seq<char>) -> spec_fn(PubkyAppListingMedia) -> Result<(), Seq<char>> {
    |m: PubkyAppListingMedia|
        and_then(
            media_check(m),
            if has_prefix(m.url@, media_prefix(owner)) {
                Ok(())
            } else {
                Err("Validation Error: listing media must be owned by the listing seller"@)
            },
        )
}

/// The outcome of the media rules.
pub open spec fn media_section_check(l: PubkyAppListing) -> Result<(), Seq<char>> {
    if !(1 <= l.media@.len() <= 13) {
        Err("Validation Error: listing requires 1-13 media entries"@)
    } else {
        and_then(
            each_check(l.media@, listing_media_rule(l.owner_pubky@)),
            and_then(
                unique_check(media_ids_of(l.media@), "media ids"@),
                if !(1 <= image_count(l.media@) <= 12) {
                    Err("Validation Error: listings require 1-12 images"@)
                } else if l.media@.len() - image_count(l.media@) > 1 {
                    Err("Validation Error: listings support at most 1 video"@)
                } else {
                    Ok(())
                },
            ),
        )
    }
}

/// The rule each variant obeys on its own.
pub open spec fn variant_rule() -> spec_fn(PubkyAppListingVariant) -> Result<(), Seq<char>> {
    |v: PubkyAppListingVariant| variant_check(v)
}

/// The outcome of the variant rules.
pub open spec fn variant_section_check(l: PubkyAppListing) -> Result<(), Seq<char>> {
    if !(1 <= l.variants@.len() <= 100) {
        Err("Validation Error: listing requires 1-100 variants"@)
    } else {
        and_then(
            each_check(l.variants@, variant_rule()),
            and_then(
                unique_check(variant_ids_of(l.variants@), "variant ids"@),
                and_then(
                    unique_check(present_skus(l.variants@), "variant SKUs"@),
                    if !variant_media_known(l) {
                        Err("Validation Error: variant references unknown media"@)
                    } else if l.state == PubkyAppListingState::Active && !has_available_variant(
                        l.variants@,
                    ) {
                        Err(
                            "Validation Error: an active listing requires available intended quantity"@,
                        )
                    } else {
                        Ok(())
                    },
                ),
            ),
        )
    }
}

/// The outcome of the sale rules.
pub open spec fn sale_section_check(l: PubkyAppListing) -> Result<(), Seq<char>> {
    and_then(
        sale_check(l.sale),
        if l.sale is Auction && l.variants@.len() != 1 {
            Err("Validation Error: auction listings require exactly one variant"@)
        } else if !overrides_share_asset(l.variants@, primary_price_of(l.sale)) {
            Err("Validation Error: variant price must use the listing asset and exponent"@)
        } else {
            Ok(())
        },
    )
}

/// The rule each shipping option obeys, given the listing's primary price.
pub open spec fn shipping_rule(primary: PubkyAppMoney) -> spec_fn(PubkyAppShippingOption) -> Result<(), Seq<char>> {
    |o: PubkyAppShippingOption|
        and_then(
            shipping_check(o),
            match o {
                PubkyAppShippingOption::Flat { price, .. } => if same_asset_spec(price, primary) {
                    Ok(())
                } else {
                    Err(
                        "Validation Error: shipping price must use the listing asset and exponent"@,
                    )
                },
                _ => Ok(()),
            },
        )
}

/// The outcome of the fulfillment and shipping rules.
pub open spec fn fulfillment_section_check(l: PubkyAppListing) -> Result<(), Seq<char>> {
    if !(1 <= l.fulfillment_methods@.len() <= 3) {
        Err("Validation Error: listing requires 1-3 fulfillment methods"@)
    } else if !methods_distinct(l.fulfillment_methods@) {
        Err("Validation Error: fulfillment methods must be unique"@)
    } else if l.shipping_options@.len() > 20 {
        Err("Validation Error: listing supports at most 20 shipping options"@)
    } else {
        and_then(
            each_check(l.shipping_options@, shipping_rule(primary_price_of(l.sale))),
            unique_check(shipping_ids_of(l.shipping_options@), "shipping option ids"@),
        )
    }
}

/// The outcome of the closing rules: return policy, digital lock, the
/// fulfillment cross-field rules and the package facts.
pub open spec fn closing_section_check(l: PubkyAppListing) -> Result<(), Seq<char>> {
    let physical = l.fulfillment_methods@.contains(PubkyAppFulfillmentMethod::Physical);
    let digital = l.fulfillment_methods@.contains(PubkyAppFulfillmentMethod::Digital);
    and_then(
        return_policy_check(l.return_policy),
        and_then(
            match l.digital_lock {
                Some(d) => digital_lock_check(d),
                None => Ok(()),
            },
            if physical && l.package is None {
                Err("Validation Error: physical fulfillment requires package facts"@)
            } else if physical && l.shipping_options@.len() == 0 {
                Err("Validation Error: physical fulfillment requires a shipping option"@)
            } else if !physical && (l.package is Some || l.shipping_options@.len() != 0) {
                Err("Validation Error: package and shipping options require physical fulfillment"@)
            } else if digital != (l.digital_lock is Some) {
                Err(
                    "Validation Error: digital fulfillment and digitalLock must be configured together"@,
                )
            } else {
                match l.package {
                    Some(p) => package_check(p),
                    None => Ok(()),
                }
            },
        ),
    )
}

/// The outcome of validating a listing against an optional path id.
pub open spec fn listing_check(l: PubkyAppListing, id: Option<Seq<char>>) -> Result<(), Seq<char>> {
    let path_check = match id {
        Some(i) => and_then(
            entity_id_check(i, "listing path id"@),
            if l.listing_id@ != i {
                Err("Validation Error: listingId does not match the listing path ID"@)
            } else {
                Ok(())
            },
        ),
        None => Ok(()),
    };
    and_then(
        path_check,
        and_then(
            base_record_check(
                l.schema_version as int,
                l.record_type@,
                LISTING_RECORD_TYPE@,
                l.owner_pubky@,
                l.revision as int,
                l.created_at@,
                l.updated_at@,
            ),
            and_then(
                entity_id_check(l.listing_id@, "listingId"@),
                and_then(
                    header_section_check(l),
                    and_then(
                        media_section_check(l),
                        and_then(
                            variant_section_check(l),
                            and_then(
                                sale_section_check(l),
                                and_then(fulfillment_section_check(l), closing_section_check(l)),
                            ),
                        ),
                    ),
                ),
            ),
        ),
    )
}

// ---------------------------------------------------------------------------
// Helpers over sequences of strings
// ---------------------------------------------------------------------------

/// Whether `s` is among the strings of `v`.
pub fn contains_string(v: &Vec<String>, s: &String) -> (r: bool)
    ensures
        r == views(v@).contains(s@),
{
    let mut i: usize = 0;
    while i < v.len()
        invariant
            i <= v.len(),
            forall|j: int| 0 <= j < i ==> views(v@)[j] != s@,
        decreases v.len() - i,
    {
        if v[i] == *s {
            assert(views(v@)[i as int] == s@);
            return true;
        }
        i = i + 1;
    }
    false
}

/// A media entry with its alt text trimmed.
pub open spec fn media_sanitized(a: PubkyAppListingMedia, b: PubkyAppListingMedia) -> bool {
    &&& b.alt_text@ == trim(a.alt_text@)
    &&& b.id == a.id
    &&& b.kind == a.kind
    &&& b.url == a.url
    &&& b.content_hash == a.content_hash
    &&& b.mime_type == a.mime_type
    &&& b.byte_size == a.byte_size
    &&& b.width == a.width
    &&& b.height == a.height
    &&& b.duration_ms == a.duration_ms
}


/// Attributes with every value's texts trimmed, keys and order kept.
pub open spec fn attributes_sanitized(
    a: Option<Vec<(String, PubkyAppListingAttributeValue)>>,
    b: Option<Vec<(String, PubkyAppListingAttributeValue)>>,
) -> bool {
    match (a, b) {
        (None, None) => true,
        (Some(x), Some(y)) => x@.len() == y@.len() && forall|i: int|
            0 <= i < x@.len() ==> (#[trigger] y@[i]).0 == x@[i].0 && attribute_value_trimmed(
                x@[i].1,
                y@[i].1,
            ),
        _ => false,
    }
}

/// `b` is `a` sanitized: texts trimmed throughout, every other field kept.
pub open spec fn listing_sanitized(a: PubkyAppListing, b: PubkyAppListing) -> bool {
    &&& b.schema_version == a.schema_version
    &&& b.record_type == a.record_type
    &&& b.owner_pubky == a.owner_pubky
    &&& b.revision == a.revision
    &&& b.created_at == a.created_at
    &&& b.updated_at == a.updated_at
    &&& b.listing_id == a.listing_id
    &&& b.state == a.state
    &&& b.title@ == trim(a.title@)
    &&& b.description@ == trim(a.description@)
    &&& b.taxonomy_version == a.taxonomy_version
    &&& b.category_id == a.category_id
    &&& attributes_sanitized(a.attributes, b.attributes)
    &&& b.condition == a.condition
    &&& opt_view(b.condition_details) == trim_opt_spec(opt_view(a.condition_details))
    &&& views(b.tags@) == views(a.tags@).map_values(|t: Seq<char>| trim(t))
    &&& b.location.country_code == a.location.country_code
    &&& opt_view(b.location.region) == trim_opt_spec(opt_view(a.location.region))
    &&& b.media@.len() == a.media@.len()
    &&& forall|i: int| 0 <= i < a.media@.len() ==> media_sanitized(a.media@[i], #[trigger] b.media@[i])
    &&& b.variants@.len() == a.variants@.len()
    &&& forall|i: int|
        0 <= i < a.variants@.len() ==> variant_sanitized(a.variants@[i], #[trigger] b.variants@[i])
    &&& b.sale == a.sale
    &&& b.fulfillment_methods == a.fulfillment_methods
    &&& b.package == a.package
    &&& b.shipping_options@.len() == a.shipping_options@.len()
    &&& forall|i: int|
        0 <= i < a.shipping_options@.len() ==> shipping_sanitized(
            a.shipping_options@[i],
            #[trigger] b.shipping_options@[i],
        )
    &&& b.return_policy.accepts_returns == a.return_policy.accepts_returns
    &&& b.return_policy.return_window_days == a.return_policy.return_window_days
    &&& b.return_policy.buyer_pays_return_shipping == a.return_policy.buyer_pays_return_shipping
    &&& opt_view(b.return_policy.details) == trim_opt_spec(opt_view(a.return_policy.details))
    &&& b.digital_lock == a.digital_lock
    &&& b.adult_only == a.adult_only
}

fn sanitize_media(media: Vec<PubkyAppListingMedia>) -> (r: Vec<PubkyAppListingMedia>)
    ensures
        r@.len() == media@.len(),
        forall|i: int| 0 <= i < media@.len() ==> media_sanitized(media@[i], #[trigger] r@[i]),
{
    let mut out: Vec<PubkyAppListingMedia> = Vec::new();
    let mut rest = media;
    let ghost original = rest@;
    let n = rest.len();
    while rest.len() > 0
        invariant
            n == original.len(),
            rest@.len() <= n,
            rest@ == original.take(rest@.len() as int),
            out@.len() == n - rest@.len(),
            forall|j: int|
                0 <= j < out@.len() ==> media_sanitized(original[rest@.len() + j], #[trigger] out@[j]),
        decreases rest.len(),
    {
        let m = rest.pop().unwrap();
        out.insert(0, m.sanitize());
        assert(rest@ =~= original.take(rest@.len() as int));
    }
    assert(n - rest@.len() == original.len());
    out
}

fn sanitize_variants(variants: Vec<PubkyAppListingVariant>) -> (r: Vec<PubkyAppListingVariant>)
    ensures
        r@.len() == variants@.len(),
        forall|i: int|
            0 <= i < variants@.len() ==> variant_sanitized(variants@[i], #[trigger] r@[i]),
{
    let mut out: Vec<PubkyAppListingVariant> = Vec::new();
    let mut rest = variants;
    let ghost original = rest@;
    let n = rest.len();
    while rest.len() > 0
        invariant
            n == original.len(),
            rest@.len() <= n,
            rest@ == original.take(rest@.len() as int),
            out@.len() == n - rest@.len(),
            forall|j: int|
                0 <= j < out@.len() ==> variant_sanitized(original[rest@.len() + j], #[trigger] out@[j]),
        decreases rest.len(),
    {
        let v = rest.pop().unwrap();
        out.insert(0, v.sanitize());
        assert(rest@ =~= original.take(rest@.len() as int));
    }
    assert(n - rest@.len() == original.len());
    out
}

fn sanitize_shipping(options: Vec<PubkyAppShippingOption>) -> (r: Vec<PubkyAppShippingOption>)
    ensures
        r@.len() == options@.len(),
        forall|i: int|
            0 <= i < options@.len() ==> shipping_sanitized(options@[i], #[trigger] r@[i]),
{
    let mut out: Vec<PubkyAppShippingOption> = Vec::new();
    let mut rest = options;
    let ghost original = rest@;
    let n = rest.len();
    while rest.len() > 0
        invariant
            n == original.len(),
            rest@.len() <= n,
            rest@ == original.take(rest@.len() as int),
            out@.len() == n - rest@.len(),
            forall|j: int|
                0 <= j < out@.len() ==> shipping_sanitized(original[rest@.len() + j], #[trigger] out@[j]),
        decreases rest.len(),
    {
        let o = rest.pop().unwrap();
        out.insert(0, o.sanitize());
        assert(rest@ =~= original.take(rest@.len() as int));
    }
    assert(n - rest@.len() == original.len());
    out
}

fn sanitize_attributes(attributes: Option<Vec<(String, PubkyAppListingAttributeValue)>>) -> (r:
    Option<Vec<(String, PubkyAppListingAttributeValue)>>)
    ensures
        attributes_sanitized(attributes, r),
{
    match attributes {
        None => None,
        Some(pairs) => {
            let mut out: Vec<(String, PubkyAppListingAttributeValue)> = Vec::new();
            let mut rest = pairs;
            let ghost original = rest@;
            let n = rest.len();
            while rest.len() > 0
                invariant
                    n == original.len(),
                    rest@.len() <= n,
                    rest@ == original.take(rest@.len() as int),
                    out@.len() == n - rest@.len(),
                    forall|j: int|
                        0 <= j < out@.len() ==> (#[trigger] out@[j]).0 == original[rest@.len()
                            + j].0 && attribute_value_trimmed(
                            original[rest@.len() + j].1,
                            out@[j].1,
                        ),
                decreases rest.len(),
            {
                let (key, value) = rest.pop().unwrap();
                out.insert(0, (key, value.sanitize()));
                assert(rest@ =~= original.take(rest@.len() as int));
            }
            assert(n - rest@.len() == original.len());
            Some(out)
        },
    }
}

fn trim_all(values: &Vec<String>) -> (r: Vec<String>)
    ensures
        views(r@) == views(values@).map_values(|t: Seq<char>| trim(t)),
{
    let mut out: Vec<String> = Vec::new();
    let mut i: usize = 0;
    while i < values.len()
        invariant
            i <= values.len(),
            out@.len() == i,
            forall|j: int| 0 <= j < i ==> (#[trigger] out@[j])@ == trim(values@[j]@),
        decreases values.len() - i,
    {
        out.push(trim_str(values[i].as_str()));
        i = i + 1;
    }
    assert(views(out@) =~= views(values@).map_values(|t: Seq<char>| trim(t)));
    out
}

/// The shape a valid listing keeps: taxonomy 1-1000000, title 3-80 and
/// description 1-10000 characters, condition details at most 1000, at most
/// 10 distinct tags of 1-40 characters, a two-letter uppercase country and a
/// region of 1-100 characters when given, 1-13 media of which 1-12 images
/// and at most one video, 1-100 variants each with a quantity of 0-1000000,
/// 1-3 fulfillment methods, at most 20 shipping options, the path id as
/// its listing id, every media URL under the seller's own marketplace
/// media path, and every media entry, shipping option, the return
/// policy, the package and the digital lock keeping their own rules.
pub open spec fn listing_shape_holds(l: PubkyAppListing, id: Option<Seq<char>>) -> bool {
    &&& 1 <= l.taxonomy_version <= 1_000_000
    &&& 3 <= l.title@.len() <= 80
    &&& 1 <= l.description@.len() <= 10_000
    &&& (l.condition_details matches Some(d) ==> d@.len() <= 1000)
    &&& l.tags@.len() <= 10
    &&& (forall|i: int| 0 <= i < l.tags@.len() ==> 1 <= (#[trigger] l.tags@[i])@.len() <= 40)
    &&& all_distinct(views(l.tags@))
    &&& l.location.country_code@.len() == 2 && all_ascii_upper(l.location.country_code@)
    &&& (l.location.region matches Some(r) ==> 1 <= r@.len() <= 100)
    &&& 1 <= l.media@.len() <= 13
    &&& 1 <= image_count(l.media@) <= 12
    &&& l.media@.len() - image_count(l.media@) <= 1
    &&& 1 <= l.variants@.len() <= 100
    &&& (forall|i: int| 0 <= i < l.variants@.len() ==> 0 <= (#[trigger] l.variants@[i]).quantity
        <= 1_000_000)
    &&& 1 <= l.fulfillment_methods@.len() <= 3
    &&& l.shipping_options@.len() <= 20
    &&& (id matches Some(i) ==> l.listing_id@ == i)
    &&& (forall|i: int| 0 <= i < l.media@.len() ==> media_holds(#[trigger] l.media@[i]))
    &&& (forall|i: int|
        0 <= i < l.media@.len() ==> (#[trigger] l.media@[i]).url@.take(
            ("pubky://"@ + l.owner_pubky@ + "/pub/pubky.app/marketplace/v1/media/"@).len() as int,
        ) == "pubky://"@ + l.owner_pubky@ + "/pub/pubky.app/marketplace/v1/media/"@)
    &&& (forall|i: int|
        0 <= i < l.shipping_options@.len() ==> shipping_option_holds(
            #[trigger] l.shipping_options@[i],
        ))
    &&& return_policy_holds(l.return_policy)
    &&& (l.package matches Some(p) ==> package_holds(p))
    &&& (l.digital_lock matches Some(d) ==> digital_lock_holds(d))
}

/// A listing that validates keeps its shape (see `listing_shape_holds`).
pub proof fn lemma_valid_listing_shape(l: PubkyAppListing, id: Option<Seq<char>>)
    requires
        listing_check(l, id) is Ok,
    ensures
        listing_shape_holds(l, id),
{
    assert(header_section_check(l) is Ok);
    assert(variant_section_check(l) is Ok);
    assert forall|i: int| 0 <= i < l.tags@.len() implies 1 <= (#[trigger] l.tags@[i])@.len() <= 40 by {
        lemma_each_check_all(l.tags@, tag_rule(), i);
    }
    assert(media_section_check(l) is Ok);
    assert(fulfillment_section_check(l) is Ok);
    assert(closing_section_check(l) is Ok);
    assert forall|i: int| 0 <= i < l.media@.len() implies media_holds(#[trigger] l.media@[i])
        && l.media@[i].url@.take(
        ("pubky://"@ + l.owner_pubky@ + "/pub/pubky.app/marketplace/v1/media/"@).len() as int,
    ) == "pubky://"@ + l.owner_pubky@ + "/pub/pubky.app/marketplace/v1/media/"@ by {
        lemma_each_check_all(l.media@, listing_media_rule(l.owner_pubky@), i);
        lemma_valid_media(l.media@[i]);
        assert(has_prefix(l.media@[i].url@, media_prefix(l.owner_pubky@)));
    }
    assert forall|i: int| 0 <= i < l.shipping_options@.len() implies shipping_option_holds(
        #[trigger] l.shipping_options@[i],
    ) by {
        lemma_each_check_all(l.shipping_options@, shipping_rule(primary_price_of(l.sale)), i);
        lemma_valid_shipping_option(l.shipping_options@[i]);
    }
    match l.digital_lock {
        Some(d) => lemma_valid_digital_lock(d),
        None => {},
    }
    assert forall|i: int| 0 <= i < l.variants@.len() implies 0 <= (
    #[trigger] l.variants@[i]).quantity <= 1_000_000 by {
        lemma_each_check_all(l.variants@, variant_rule(), i);
    }
}

impl PubkyAppListing {
    // -----------------------------------------------------------------------
    // Header
    // -----------------------------------------------------------------------

    fn check_attributes(&self) -> (r: Result<(), String>)
        ensures
            outcome(r) == attributes_check(self.attributes),
    {
        match &self.attributes {
            None => Ok(()),
            Some(attributes) => {
                if attributes.len() > 20 {
                    return Err(owned("Validation Error: listing supports at most 20 attributes"));
                }
                if !check_keys_ascending(attributes) {
                    return Err(
                        owned("Validation Error: attribute keys must be unique and in ascending order"),
                    );
                }
                let ghost f = attribute_rule();
                assert(attributes@.skip(0) =~= attributes@);
                let mut i: usize = 0;
                while i < attributes.len()
                    invariant
                        i <= attributes.len(),
                        f == attribute_rule(),
                        attributes_check(self.attributes) == each_check(attributes@, f),
                        each_check(attributes@, f) == each_check(attributes@.skip(i as int), f),
                    decreases attributes.len() - i,
                {
                    proof {
                        lemma_each_check_step(attributes@, f, i as int);
                    }
                    validate_attribute_key(attributes[i].0.as_str())?;
                    attributes[i].1.validate(attributes[i].0.as_str())?;
                    i = i + 1;
                }
                proof {
                    lemma_each_check_end(attributes@, f);
                }
                Ok(())
            },
        }
    }

    fn check_tags(&self) -> (r: Result<(), String>)
        ensures
            outcome(r) == each_check(self.tags@, tag_rule()),
    {
        let ghost f = tag_rule();
        assert(self.tags@.skip(0) =~= self.tags@);
        let mut i: usize = 0;
        while i < self.tags.len()
            invariant
                i <= self.tags.len(),
                f == tag_rule(),
                each_check(self.tags@, f) == each_check(self.tags@.skip(i as int), f),
            decreases self.tags.len() - i,
        {
            proof {
                lemma_each_check_step(self.tags@, f, i as int);
            }
            let length = char_count(self.tags[i].as_str());
            if !(1 <= length && length <= 40) {
                return Err(owned("Validation Error: listing tags must be 1-40 characters"));
            }
            i = i + 1;
        }
        proof {
            lemma_each_check_end(self.tags@, f);
        }
        Ok(())
    }

    fn check_header(&self) -> (r: Result<(), String>)
        ensures
            outcome(r) == header_section_check(*self),
    {
        if !(1 <= self.taxonomy_version && self.taxonomy_version <= 1_000_000) {
            return Err(
                owned("Validation Error: taxonomyVersion must be between 1 and 1000000"),
            );
        }
        let title_length = char_count(self.title.as_str());
        if !(3 <= title_length && title_length <= 80) {
            return Err(owned("Validation Error: listing title must be 3-80 characters"));
        }
        let description_length = char_count(self.description.as_str());
        if !(1 <= description_length && description_length <= 10_000) {
            return Err(
                owned("Validation Error: listing description must be 1-10000 characters"),
            );
        }
        validate_kebab_case_category(self.category_id.as_str())?;
        self.check_attributes()?;
        match &self.condition_details {
            Some(d) => {
                if char_count(d.as_str()) > 1000 {
                    return Err(
                        owned("Validation Error: conditionDetails exceeds maximum length of 1000"),
                    );
                }
            },
            None => {},
        }
        if self.tags.len() > 10 {
            return Err(owned("Validation Error: listing supports at most 10 tags"));
        }
        self.check_tags()?;
        ensure_unique(&self.tags, "tags")?;
        self.location.validate(None)
    }

    // -----------------------------------------------------------------------
    // Media
    // -----------------------------------------------------------------------

    fn check_media_entries(&self) -> (r: Result<(), String>)
        ensures
            outcome(r) == each_check(self.media@, listing_media_rule(self.owner_pubky@)),
    {
        let prefix = marketplace_media_prefix(self.owner_pubky.as_str());
        let ghost f = listing_media_rule(self.owner_pubky@);
        assert(self.media@.skip(0) =~= self.media@);
        let mut i: usize = 0;
        while i < self.media.len()
            invariant
                i <= self.media.len(),
                prefix@ == media_prefix(self.owner_pubky@),
                f == listing_media_rule(self.owner_pubky@),
                each_check(self.media@, f) == each_check(self.media@.skip(i as int), f),
            decreases self.media.len() - i,
        {
            proof {
                lemma_each_check_step(self.media@, f, i as int);
            }
            self.media[i].validate()?;
            if !starts_with(self.media[i].url.as_str(), prefix.as_str()) {
                return Err(
                    owned("Validation Error: listing media must be owned by the listing seller"),
                );
            }
            i = i + 1;
        }
        proof {
            lemma_each_check_end(self.media@, f);
        }
        Ok(())
    }

    fn media_ids(&self) -> (r: Vec<String>)
        ensures
            views(r@) == media_ids_of(self.media@),
    {
        let mut ids: Vec<String> = Vec::new();
        let mut i: usize = 0;
        while i < self.media.len()
            invariant
                i <= self.media.len(),
                ids@.len() == i,
                forall|j: int| 0 <= j < i ==> (#[trigger] ids@[j])@ == self.media@[j].id@,
            decreases self.media.len() - i,
        {
            ids.push(self.media[i].id.clone());
            i = i + 1;
        }
        assert(views(ids@) =~= media_ids_of(self.media@));
        ids
    }

    fn count_images(&self) -> (r: usize)
        ensures
            r == image_count(self.media@),
            r <= self.media.len(),
    {
        let mut count: usize = 0;
        let mut i: usize = 0;
        while i < self.media.len()
            invariant
                i <= self.media.len(),
                count == image_count(self.media@.take(i as int)),
                count <= i,
            decreases self.media.len() - i,
        {
            assert(self.media@.take(i + 1).drop_last() =~= self.media@.take(i as int));
            if self.media[i].kind == PubkyAppListingMediaKind::Image {
                count = count + 1;
            }
            i = i + 1;
        }
        assert(self.media@.take(self.media.len() as int) =~= self.media@);
        count
    }

    fn check_media(&self) -> (r: Result<(), String>)
        ensures
            outcome(r) == media_section_check(*self),
    {
        if !(1 <= self.media.len() && self.media.len() <= 13) {
            return Err(owned("Validation Error: listing requires 1-13 media entries"));
        }
        self.check_media_entries()?;
        let ids = self.media_ids();
        ensure_unique(&ids, "media ids")?;
        let images = self.count_images();
        if !(1 <= images && images <= 12) {
            return Err(owned("Validation Error: listings require 1-12 images"));
        }
        if self.media.len() - images > 1 {
            return Err(owned("Validation Error: listings support at most 1 video"));
        }
        Ok(())
    }

    // -----------------------------------------------------------------------
    // Variants
    // -----------------------------------------------------------------------

    fn check_variant_entries(&self) -> (r: Result<(), String>)
        ensures
            outcome(r) == each_check(self.variants@, variant_rule()),
    {
        let ghost f = variant_rule();
        assert(self.variants@.skip(0) =~= self.variants@);
        let mut i: usize = 0;
        while i < self.variants.len()
            invariant
                i <= self.variants.len(),
                f == variant_rule(),
                each_check(self.variants@, f) == each_check(self.variants@.skip(i as int), f),
            decreases self.variants.len() - i,
        {
            proof {
                lemma_each_check_step(self.variants@, f, i as int);
            }
            self.variants[i].validate()?;
            i = i + 1;
        }
        proof {
            lemma_each_check_end(self.variants@, f);
        }
        Ok(())
    }

    fn variant_ids(&self) -> (r: Vec<String>)
        ensures
            views(r@) == variant_ids_of(self.variants@),
    {
        let mut ids: Vec<String> = Vec::new();
        let mut i: usize = 0;
        while i < self.variants.len()
            invariant
                i <= self.variants.len(),
                ids@.len() == i,
                forall|j: int| 0 <= j < i ==> (#[trigger] ids@[j])@ == self.variants@[j].id@,
            decreases self.variants.len() - i,
        {
            ids.push(self.variants[i].id.clone());
            i = i + 1;
        }
        assert(views(ids@) =~= variant_ids_of(self.variants@));
        ids
    }

    fn variant_skus(&self) -> (r: Vec<String>)
        ensures
            views(r@) == present_skus(self.variants@),
    {
        let mut skus: Vec<String> = Vec::new();
        let mut i: usize = 0;
        assert(self.variants@.take(0) =~= Seq::<PubkyAppListingVariant>::empty());
        assert(views(skus@) =~= Seq::<Seq<char>>::empty());
        while i < self.variants.len()
            invariant
                i <= self.variants.len(),
                views(skus@) == present_skus(self.variants@.take(i as int)),
            decreases self.variants.len() - i,
        {
            assert(self.variants@.take(i + 1).drop_last() =~= self.variants@.take(i as int));
            assert(self.variants@.take(i + 1).last() == self.variants@[i as int]);
            match &self.variants[i].sku {
                Some(sku) => {
                    let ghost before = skus@;
                    skus.push(sku.clone());
                    assert(views(skus@) =~= views(before).push(sku@));
                },
                None => {},
            }
            i = i + 1;
        }
        assert(self.variants@.take(self.variants.len() as int) =~= self.variants@);
        skus
    }

    fn check_variant_media(&self, media_ids: &Vec<String>) -> (r: bool)
        requires
            views(media_ids@) == media_ids_of(self.media@),
        ensures
            r == variant_media_known(*self),
    {
        let mut i: usize = 0;
        while i < self.variants.len()
            invariant
                i <= self.variants.len(),
                views(media_ids@) == media_ids_of(self.media@),
                forall|a: int, b: int|
                    0 <= a < i && 0 <= b < self.variants@[a].media_ids@.len() ==> media_ids_of(
                        self.media@,
                    ).contains(#[trigger] self.variants@[a].media_ids@[b]@),
            decreases self.variants.len() - i,
        {
            let refs = &self.variants[i].media_ids;
            let mut j: usize = 0;
            while j < refs.len()
                invariant
                    i < self.variants.len(),
                    *refs == self.variants@[i as int].media_ids,
                    j <= refs.len(),
                    views(media_ids@) == media_ids_of(self.media@),
                    forall|b: int| 0 <= b < j ==> media_ids_of(self.media@).contains(
                        #[trigger] refs@[b]@,
                    ),
                decreases refs.len() - j,
            {
                if !contains_string(media_ids, &refs[j]) {
                    assert(!media_ids_of(self.media@).contains(
                        self.variants@[i as int].media_ids@[j as int]@,
                    ));
                    return false;
                }
                j = j + 1;
            }
            i = i + 1;
        }
        true
    }

    fn any_available_variant(&self) -> (r: bool)
        ensures
            r == has_available_variant(self.variants@),
    {
        let mut i: usize = 0;
        while i < self.variants.len()
            invariant
                i <= self.variants.len(),
                forall|j: int| 0 <= j < i ==> !(#[trigger] self.variants@[j].enabled && self.variants@[j].quantity > 0),
            decreases self.variants.len() - i,
        {
            if self.variants[i].enabled && self.variants[i].quantity > 0 {
                assert(self.variants@[i as int].enabled && self.variants@[i as int].quantity > 0);
                return true;
            }
            i = i + 1;
        }
        false
    }

    fn check_variants(&self, media_ids: &Vec<String>) -> (r: Result<(), String>)
        requires
            views(media_ids@) == media_ids_of(self.media@),
        ensures
            outcome(r) == variant_section_check(*self),
    {
        if !(1 <= self.variants.len() && self.variants.len() <= 100) {
            return Err(owned("Validation Error: listing requires 1-100 variants"));
        }
        self.check_variant_entries()?;
        let ids = self.variant_ids();
        ensure_unique(&ids, "variant ids")?;
        let skus = self.variant_skus();
        ensure_unique(&skus, "variant SKUs")?;
        if !self.check_variant_media(media_ids) {
            return Err(owned("Validation Error: variant references unknown media"));
        }
        if self.state == PubkyAppListingState::Active && !self.any_available_variant() {
            return Err(
                owned("Validation Error: an active listing requires available intended quantity"),
            );
        }
        Ok(())
    }

    // -----------------------------------------------------------------------
    // Sale
    // -----------------------------------------------------------------------

    fn overrides_match(&self, primary: &PubkyAppMoney) -> (r: bool)
        ensures
            r == overrides_share_asset(self.variants@, *primary),
    {
        let mut i: usize = 0;
        while i < self.variants.len()
            invariant
                i <= self.variants.len(),
                forall|j: int|
                    0 <= j < i && (#[trigger] self.variants@[j]).price_override is Some
                        ==> same_asset_spec(self.variants@[j].price_override->0, *primary),
            decreases self.variants.len() - i,
        {
            match &self.variants[i].price_override {
                Some(p) => {
                    if !p.same_asset(primary) {
                        assert(self.variants@[i as int].price_override is Some);
                        return false;
                    }
                },
                None => {},
            }
            i = i + 1;
        }
        true
    }

    fn check_sale(&self) -> (r: Result<(), String>)
        ensures
            outcome(r) == sale_section_check(*self),
    {
        self.sale.validate()?;
        if self.sale.is_auction() && self.variants.len() != 1 {
            return Err(owned("Validation Error: auction listings require exactly one variant"));
        }
        if !self.overrides_match(self.sale.primary_price()) {
            return Err(
                owned("Validation Error: variant price must use the listing asset and exponent"),
            );
        }
        Ok(())
    }

    // -----------------------------------------------------------------------
    // Fulfillment and shipping
    // -----------------------------------------------------------------------

    fn methods_unique(&self) -> (r: bool)
        ensures
            r == methods_distinct(self.fulfillment_methods@),
    {
        let m = &self.fulfillment_methods;
        let mut j: usize = 0;
        while j < m.len()
            invariant
                m@ == self.fulfillment_methods@,
                j <= m.len(),
                forall|a: int, b: int| 0 <= a < b < j ==> #[trigger] m@[a] != #[trigger] m@[b],
            decreases m.len() - j,
        {
            let mut i: usize = 0;
            while i < j
                invariant
                    m@ == self.fulfillment_methods@,
                    i <= j < m.len(),
                    forall|a: int| 0 <= a < i ==> #[trigger] m@[a] != m@[j as int],
                decreases j - i,
            {
                if m[i] == m[j] {
                    assert(m@[i as int] == m@[j as int]);
                    assert(!methods_distinct(self.fulfillment_methods@));
                    return false;
                }
                i = i + 1;
            }
            j = j + 1;
        }
        true
    }

    fn has_method(&self, method: PubkyAppFulfillmentMethod) -> (r: bool)
        ensures
            r == self.fulfillment_methods@.contains(method),
    {
        let mut i: usize = 0;
        while i < self.fulfillment_methods.len()
            invariant
                i <= self.fulfillment_methods.len(),
                forall|j: int| 0 <= j < i ==> self.fulfillment_methods@[j] != method,
            decreases self.fulfillment_methods.len() - i,
        {
            if self.fulfillment_methods[i] == method {
                assert(self.fulfillment_methods@[i as int] == method);
                return true;
            }
            i = i + 1;
        }
        false
    }

    fn check_shipping_entries(&self, primary: &PubkyAppMoney) -> (r: Result<(), String>)
        ensures
            outcome(r) == each_check(self.shipping_options@, shipping_rule(*primary)),
    {
        let ghost f = shipping_rule(*primary);
        assert(self.shipping_options@.skip(0) =~= self.shipping_options@);
        let mut i: usize = 0;
        while i < self.shipping_options.len()
            invariant
                i <= self.shipping_options.len(),
                f == shipping_rule(*primary),
                each_check(self.shipping_options@, f) == each_check(
                    self.shipping_options@.skip(i as int),
                    f,
                ),
            decreases self.shipping_options.len() - i,
        {
            proof {
                lemma_each_check_step(self.shipping_options@, f, i as int);
            }
            let option = &self.shipping_options[i];
            option.validate()?;
            match option {
                PubkyAppShippingOption::Flat { price, .. } => {
                    if !price.same_asset(primary) {
                        return Err(
                            owned(
                                "Validation Error: shipping price must use the listing asset and exponent",
                            ),
                        );
                    }
                },
                _ => {},
            }
            i = i + 1;
        }
        proof {
            lemma_each_check_end(self.shipping_options@, f);
        }
        Ok(())
    }

    fn shipping_ids(&self) -> (r: Vec<String>)
        ensures
            views(r@) == shipping_ids_of(self.shipping_options@),
    {
        let mut ids: Vec<String> = Vec::new();
        let mut i: usize = 0;
        while i < self.shipping_options.len()
            invariant
                i <= self.shipping_options.len(),
                ids@.len() == i,
                forall|j: int|
                    0 <= j < i ==> (#[trigger] ids@[j])@ == shipping_id(self.shipping_options@[j]),
            decreases self.shipping_options.len() - i,
        {
            ids.push(owned(self.shipping_options[i].id()));
            i = i + 1;
        }
        assert(views(ids@) =~= shipping_ids_of(self.shipping_options@));
        ids
    }

    fn check_fulfillment(&self) -> (r: Result<(), String>)
        ensures
            outcome(r) == fulfillment_section_check(*self),
    {
        if !(1 <= self.fulfillment_methods.len() && self.fulfillment_methods.len() <= 3) {
            return Err(owned("Validation Error: listing requires 1-3 fulfillment methods"));
        }
        if !self.methods_unique() {
            return Err(owned("Validation Error: fulfillment methods must be unique"));
        }
        if self.shipping_options.len() > 20 {
            return Err(owned("Validation Error: listing supports at most 20 shipping options"));
        }
        self.check_shipping_entries(self.sale.primary_price())?;
        let ids = self.shipping_ids();
        ensure_unique(&ids, "shipping option ids")
    }

    fn check_closing(&self) -> (r: Result<(), String>)
        ensures
            outcome(r) == closing_section_check(*self),
    {
        self.return_policy.validate()?;
        match &self.digital_lock {
            Some(d) => d.validate()?,
            None => {},
        }
        let physical = self.has_method(PubkyAppFulfillmentMethod::Physical);
        let digital = self.has_method(PubkyAppFulfillmentMethod::Digital);
        if physical && self.package.is_none() {
            return Err(owned("Validation Error: physical fulfillment requires package facts"));
        }
        if physical && self.shipping_options.len() == 0 {
            return Err(owned("Validation Error: physical fulfillment requires a shipping option"));
        }
        if !physical && (self.package.is_some() || self.shipping_options.len() != 0) {
            return Err(
                owned("Validation Error: package and shipping options require physical fulfillment"),
            );
        }
        if digital != self.digital_lock.is_some() {
            return Err(
                owned(
                    "Validation Error: digital fulfillment and digitalLock must be configured together",
                ),
            );
        }
        match &self.package {
            Some(p) => p.validate(),
            None => Ok(()),
        }
    }

    // -----------------------------------------------------------------------
    // The record
    // -----------------------------------------------------------------------

    /// Creates a new listing, sanitized.
    pub fn new(
        owner_pubky: String,
        revision: i64,
        created_at: String,
        updated_at: String,
        listing_id: String,
        state: PubkyAppListingState,
        title: String,
        description: String,
        taxonomy_version: i64,
        category_id: String,
        attributes: Option<Vec<(String, PubkyAppListingAttributeValue)>>,
        condition: PubkyAppListingCondition,
        condition_details: Option<String>,
        tags: Vec<String>,
        location: PubkyAppMarketplaceLocation,
        media: Vec<PubkyAppListingMedia>,
        variants: Vec<PubkyAppListingVariant>,
        sale: PubkyAppListingSale,
        fulfillment_methods: Vec<PubkyAppFulfillmentMethod>,
        package: Option<PubkyAppListingPackage>,
        shipping_options: Vec<PubkyAppShippingOption>,
        return_policy: PubkyAppReturnPolicy,
        digital_lock: Option<PubkyAppDigitalLock>,
        adult_only: bool,
    ) -> (r: Self)
        ensures
            listing_sanitized(
                PubkyAppListing {
                    schema_version: MARKETPLACE_SCHEMA_VERSION,
                    record_type: r.record_type,
                    owner_pubky,
                    revision,
                    created_at,
                    updated_at,
                    listing_id,
                    state,
                    title,
                    description,
                    taxonomy_version,
                    category_id,
                    attributes,
                    condition,
                    condition_details,
                    tags,
                    location,
                    media,
                    variants,
                    sale,
                    fulfillment_methods,
                    package,
                    shipping_options,
                    return_policy,
                    digital_lock,
                    adult_only,
                },
                r,
            ),
            r.record_type@ == LISTING_RECORD_TYPE@,
    {
        PubkyAppListing {
            schema_version: MARKETPLACE_SCHEMA_VERSION,
            record_type: owned(LISTING_RECORD_TYPE),
            owner_pubky,
            revision,
            created_at,
            updated_at,
            listing_id,
            state,
            title,
            description,
            taxonomy_version,
            category_id,
            attributes,
            condition,
            condition_details,
            tags,
            location,
            media,
            variants,
            sale,
            fulfillment_methods,
            package,
            shipping_options,
            return_policy,
            digital_lock,
            adult_only,
        }.sanitize()
    }

    /// The listing with every free text trimmed: title, description,
    /// condition details, attribute values, tags, location region, media
    /// alt texts, variant SKUs and options, shipping labels and rates, and
    /// return policy details.
    pub fn sanitize(self) -> (r: Self)
        ensures
            listing_sanitized(self, r),
    {
        let title = trim_str(self.title.as_str());
        let description = trim_str(self.description.as_str());
        let condition_details = trim_opt(&self.condition_details);
        let tags = trim_all(&self.tags);
        let ghost old_self = self;
        let PubkyAppListing {
            schema_version,
            record_type,
            owner_pubky,
            revision,
            created_at,
            updated_at,
            listing_id,
            state,
            taxonomy_version,
            category_id,
            attributes,
            condition,
            location,
            media,
            variants,
            sale,
            fulfillment_methods,
            package,
            shipping_options,
            return_policy,
            digital_lock,
            adult_only,
            ..
        } = self;
        PubkyAppListing {
            schema_version,
            record_type,
            owner_pubky,
            revision,
            created_at,
            updated_at,
            listing_id,
            state,
            title,
            description,
            taxonomy_version,
            category_id,
            attributes: sanitize_attributes(attributes),
            condition,
            condition_details,
            tags,
            location: location.sanitize(),
            media: sanitize_media(media),
            variants: sanitize_variants(variants),
            sale,
            fulfillment_methods,
            package,
            shipping_options: sanitize_shipping(shipping_options),
            return_policy: return_policy.sanitize(),
            digital_lock,
            adult_only,
        }
    }


    /// The path of listing `id`: `/pub/pubky.app/marketplace/v1/listings/<id>`.
    pub fn create_path(id: &str) -> (r: String)
        ensures
            r@ == public_path("marketplace/v1/listings/"@, id@),
    {
        build_public_path("marketplace/v1/listings/", id)
    }

    /// Validates the listing, and its match with the path id when one is
    /// given.
    ///
    /// A valid listing has unique media ids, variant ids, SKUs, shipping
    /// option ids and fulfillment methods; every variant media reference
    /// names a media entry; an active listing has an enabled variant in
    /// stock; an auction has exactly one variant; variant price overrides
    /// and flat shipping prices use the sale's asset; package facts and
    /// shipping options come exactly with physical fulfillment, and a
    /// digital lock exactly with digital fulfillment.
    pub fn validate(&self, id: Option<&str>) -> (r: Result<(), String>)
        ensures
            outcome(r) == listing_check(*self, opt_str_view(id)),
            r is Ok ==> all_distinct(media_ids_of(self.media@)) && all_distinct(
                variant_ids_of(self.variants@),
            ) && all_distinct(present_skus(self.variants@)) && all_distinct(
                shipping_ids_of(self.shipping_options@),
            ) && methods_distinct(self.fulfillment_methods@),
            r is Ok ==> variant_media_known(*self),
            r is Ok ==> sale_terms_hold(self.sale),
            r is Ok ==> listing_shape_holds(*self, opt_str_view(id)),
            r is Ok ==> match self.attributes {
                Some(a) => keys_distinct(a@),
                None => true,
            },
            r is Ok && self.state == PubkyAppListingState::Active ==> has_available_variant(
                self.variants@,
            ),
            r is Ok && self.sale is Auction ==> self.variants@.len() == 1,
            r is Ok ==> overrides_share_asset(self.variants@, primary_price_of(self.sale)),
            r is Ok ==> (self.fulfillment_methods@.contains(PubkyAppFulfillmentMethod::Physical)
                <==> self.package is Some) && (self.fulfillment_methods@.contains(
                PubkyAppFulfillmentMethod::Physical,
            ) <==> self.shipping_options@.len() > 0) && (self.fulfillment_methods@.contains(
                PubkyAppFulfillmentMethod::Digital,
            ) <==> self.digital_lock is Some),
            r is Ok ==> base_record_holds(
                self.schema_version as int,
                self.record_type@,
                LISTING_RECORD_TYPE@,
                self.owner_pubky@,
                self.revision as int,
                self.created_at@,
                self.updated_at@,
            ),
    {
        proof {
            lemma_base_record_iff(
                self.schema_version as int,
                self.record_type@,
                LISTING_RECORD_TYPE@,
                self.owner_pubky@,
                self.revision as int,
                self.created_at@,
                self.updated_at@,
            );
        }
        proof {
            if listing_check(*self, opt_str_view(id)) is Ok {
                lemma_valid_listing_shape(*self, opt_str_view(id));
            }
            if sale_check(self.sale) is Ok {
                lemma_valid_sale_terms(self.sale);
            }
            if self.attributes is Some && keys_ascending(self.attributes->0@) {
                lemma_keys_ascending_distinct(self.attributes->0@);
            }
        }
        match id {
            Some(i) => {
                validate_entity_id(i, "listing path id")?;
                if !str_eq(self.listing_id.as_str(), i) {
                    return Err(
                        owned("Validation Error: listingId does not match the listing path ID"),
                    );
                }
            },
            None => {},
        }
        validate_base_record(
            self.schema_version,
            self.record_type.as_str(),
            LISTING_RECORD_TYPE,
            self.owner_pubky.as_str(),
            self.revision,
            self.created_at.as_str(),
            self.updated_at.as_str(),
        )?;
        validate_entity_id(self.listing_id.as_str(), "listingId")?;
        self.check_header()?;
        self.check_media()?;
        let media_ids = self.media_ids();
        self.check_variants(&media_ids)?;
        self.check_sale()?;
        self.check_fulfillment()?;
        self.check_closing()
    }
}

/// Trimming an optional text twice trims it once.
proof fn lemma_trim_opt_twice(a: Option<String>, b: Option<String>, c: Option<String>)
    requires
        opt_view(b) == trim_opt_spec(opt_view(a)),
        opt_view(c) == trim_opt_spec(opt_view(b)),
    ensures
        opt_view(c) == trim_opt_spec(opt_view(a)),
{
    match a {
        Some(s) => lemma_trim_idempotent(s@),
        None => {},
    }
}

/// Trimming every text of a list twice trims each once.
proof fn lemma_trim_all_twice(a: Seq<String>, b: Seq<String>, c: Seq<String>)
    requires
        views(b) == views(a).map_values(|t: Seq<char>| trim(t)),
        views(c) == views(b).map_values(|t: Seq<char>| trim(t)),
    ensures
        views(c) == views(a).map_values(|t: Seq<char>| trim(t)),
{
    assert forall|i: int| 0 <= i < views(a).len() implies #[trigger] views(c)[i] == trim(
        views(a)[i],
    ) by {
        lemma_trim_idempotent(views(a)[i]);
        assert(views(b)[i] == trim(views(a)[i]));
    }
    assert(views(c) =~= views(a).map_values(|t: Seq<char>| trim(t)));
}

/// Sanitizing is idempotent: sanitizing an already sanitized listing gives
/// what sanitizing the original once gives (every text trimmed once, the
/// variant options collected once, every other field kept).
pub proof fn lemma_listing_sanitize_idempotent(l: PubkyAppListing, s: PubkyAppListing, t: PubkyAppListing)
    requires
        listing_sanitized(l, s),
        listing_sanitized(s, t),
    ensures
        listing_sanitized(l, t),
{
    lemma_trim_idempotent(l.title@);
    lemma_trim_idempotent(l.description@);
    lemma_trim_opt_twice(l.condition_details, s.condition_details, t.condition_details);
    lemma_trim_all_twice(l.tags@, s.tags@, t.tags@);
    lemma_trim_opt_twice(l.location.region, s.location.region, t.location.region);
    lemma_trim_opt_twice(
        l.return_policy.details,
        s.return_policy.details,
        t.return_policy.details,
    );
    match (l.attributes, s.attributes, t.attributes) {
        (Some(x), Some(y), Some(z)) => {
            assert forall|i: int| 0 <= i < x@.len() implies (#[trigger] z@[i]).0 == x@[i].0
                && attribute_value_trimmed(x@[i].1, z@[i].1) by {
                assert(y@[i].0 == x@[i].0);
                lemma_attribute_value_trim_twice(x@[i].1, y@[i].1, z@[i].1);
            }
        },
        _ => {},
    }
    assert forall|i: int| 0 <= i < l.media@.len() implies media_sanitized(
        l.media@[i],
        #[trigger] t.media@[i],
    ) by {
        assert(media_sanitized(l.media@[i], s.media@[i]));
        assert(media_sanitized(s.media@[i], t.media@[i]));
        lemma_trim_idempotent(l.media@[i].alt_text@);
    }
    assert forall|i: int| 0 <= i < l.variants@.len() implies variant_sanitized(
        l.variants@[i],
        #[trigger] t.variants@[i],
    ) by {
        assert(variant_sanitized(l.variants@[i], s.variants@[i]));
        assert(variant_sanitized(s.variants@[i], t.variants@[i]));
        lemma_variant_sanitize_twice(l.variants@[i], s.variants@[i], t.variants@[i]);
    }
    assert forall|i: int| 0 <= i < l.shipping_options@.len() implies shipping_sanitized(
        l.shipping_options@[i],
        #[trigger] t.shipping_options@[i],
    ) by {
        assert(shipping_sanitized(l.shipping_options@[i], s.shipping_options@[i]));
        assert(shipping_sanitized(s.shipping_options@[i], t.shipping_options@[i]));
        lemma_shipping_sanitize_twice(
            l.shipping_options@[i],
            s.shipping_options@[i],
            t.shipping_options@[i],
        );
    }
}

} // verus!

//! A seller's marketplace shop profile, a singleton per user.
//!
//! URI: `/pub/pubky.app/marketplace/v1/shop.json`
use vstd::prelude::*;
use crate::marketplace::{
    base_record_holds, lemma_base_record_iff,
    base_record_check, location_check, marketplace_uri_check, validate_base_record,
    validate_marketplace_uri, PubkyAppMarketplaceLocation, MARKETPLACE_SCHEMA_VERSION,
};
use crate::text::{
    and_then, char_count, opt_view, outcome, owned, str_eq, trim, trim_opt_spec, trim_str,
};
use crate::uri::{build_public_path, public_path};
use crate::web_url::{parse_url_parts, url_parts};

verus! {

/// Record discriminator of shops.
pub const SHOP_RECORD_TYPE: &'static str = "shop";

/// A seller's marketplace shop profile.
#[derive(Debug, Clone, PartialEq)]
pub struct PubkyAppShop {
    /// Marketplace contract version, always `1`.
    pub schema_version: i64,
    /// Record discriminator, always `"shop"`.
    pub record_type: String,
    /// z-base-32 pubky of the shop owner.
    pub owner_pubky: String,
    /// Monotonically increasing record revision, starting at 1.
    pub revision: i64,
    /// ISO-8601 creation datetime with offset.
    pub created_at: String,
    /// ISO-8601 last-update datetime with offset. Must not precede `created_at`.
    pub updated_at: String,
    pub name: String,
    pub bio: String,
    pub location: PubkyAppMarketplaceLocation,
    pub avatar_url: Option<String>,
    pub banner_url: Option<String>,
    pub shipping_policy: String,
    pub return_policy: String,
    pub vacation_mode: bool,
    /// HTTPS base URL of the transaction service the shop sells through;
    /// clients fall back to their own default when it is absent.
    pub transaction_service: Option<String>,
}

/// The view of what `parse_url_parts` returns.
pub open spec fn url_parts_view(
    p: Option<(String, String, Option<String>, Option<String>, Option<String>)>,
) -> Option<(Seq<char>, Seq<char>, Option<Seq<char>>, Option<Seq<char>>, Option<Seq<char>>)> {
    match p {
        None => None,
        Some(q) => Some((q.0@, q.1@, opt_view(q.2), opt_view(q.3), opt_view(q.4))),
    }
}

/// The rule a parsed transaction-service URL obeys: it parsed, its scheme
/// is exactly `https`, and it has no credentials, no query and no fragment.
pub open spec fn service_url_rule(
    parts: Option<(Seq<char>, Seq<char>, Option<Seq<char>>, Option<Seq<char>>, Option<Seq<char>>)>,
) -> Result<(), Seq<char>> {
    match parts {
        None => Err("Validation Error: transactionService must be a valid URL"@),
        Some((scheme, username, password, query, fragment)) => if scheme != "https"@ {
            Err("Validation Error: transactionService must use the https scheme"@)
        } else if username.len() > 0 || password is Some {
            Err("Validation Error: transactionService must not contain credentials"@)
        } else if query is Some {
            Err("Validation Error: transactionService must not contain a query"@)
        } else if fragment is Some {
            Err("Validation Error: transactionService must not contain a fragment"@)
        } else {
            Ok(())
        },
    }
}

/// The outcome of checking a declared transaction service: at most 300
/// characters, then the URL rule on what `url::Url::parse` makes of it.
pub open spec fn transaction_service_check(value: Option<String>) -> Result<(), Seq<char>> {
    match value {
        None => Ok(()),
        Some(v) => if v@.len() > 300 {
            Err("Validation Error: transactionService exceeds maximum length of 300"@)
        } else {
            service_url_rule(url_parts(v@))
        },
    }
}

/// The outcome of checking an optional marketplace URI field.
pub open spec fn optional_uri_check(value: Option<String>, field: Seq<char>) -> Result<(), Seq<char>> {
    match value {
        Some(v) => marketplace_uri_check(v@, field),
        None => Ok(()),
    }
}

/// The outcome of validating a shop.
pub open spec fn shop_check(s: PubkyAppShop) -> Result<(), Seq<char>> {
    and_then(
        base_record_check(
            s.schema_version as int,
            s.record_type@,
            SHOP_RECORD_TYPE@,
            s.owner_pubky@,
            s.revision as int,
            s.created_at@,
            s.updated_at@,
        ),
        and_then(
            if 1 <= s.name@.len() <= 60 {
                Ok(())
            } else {
                Err("Validation Error: shop name must be 1-60 characters"@)
            },
            and_then(
                if s.bio@.len() <= 1000 {
                    Ok(())
                } else {
                    Err("Validation Error: shop bio exceeds maximum length of 1000"@)
                },
                and_then(
                    location_check(s.location.country_code@, opt_view(s.location.region)),
                    and_then(
                        optional_uri_check(s.avatar_url, "avatarUrl"@),
                        and_then(
                            optional_uri_check(s.banner_url, "bannerUrl"@),
                            and_then(
                                if s.shipping_policy@.len() <= 4000 {
                                    Ok(())
                                } else {
                                    Err(
                                        "Validation Error: shippingPolicy exceeds maximum length of 4000"@,
                                    )
                                },
                                and_then(
                                    if s.return_policy@.len() <= 4000 {
                                        Ok(())
                                    } else {
                                        Err(
                                            "Validation Error: returnPolicy exceeds maximum length of 4000"@,
                                        )
                                    },
                                    transaction_service_check(s.transaction_service),
                                ),
                            ),
                        ),
                    ),
                ),
            ),
        ),
    )
}

/// Applies the transaction-service URL rule to the parts of a parsed URL
/// (scheme, username, password, query, fragment), `None` when it did not
/// parse.
pub fn check_service_url_parts(
    parts: &Option<(String, String, Option<String>, Option<String>, Option<String>)>,
) -> (r: Result<(), String>)
    ensures
        outcome(r) == service_url_rule(url_parts_view(*parts)),
{
    match parts {
        None => Err(owned("Validation Error: transactionService must be a valid URL")),
        Some((scheme, username, password, query, fragment)) => {
            if !str_eq(scheme.as_str(), "https") {
                Err(owned("Validation Error: transactionService must use the https scheme"))
            } else if char_count(username.as_str()) > 0 || password.is_some() {
                Err(owned("Validation Error: transactionService must not contain credentials"))
            } else if query.is_some() {
                Err(owned("Validation Error: transactionService must not contain a query"))
            } else if fragment.is_some() {
                Err(owned("Validation Error: transactionService must not contain a fragment"))
            } else {
                Ok(())
            }
        },
    }
}

fn validate_transaction_service(value: &Option<String>) -> (r: Result<(), String>)
    ensures
        outcome(r) == transaction_service_check(*value),
{
    match value {
        None => Ok(()),
        Some(v) => {
            if char_count(v.as_str()) > 300 {
                return Err(
                    owned("Validation Error: transactionService exceeds maximum length of 300"),
                );
            }
            let parts = parse_url_parts(v.as_str());
            check_service_url_parts(&parts)
        },
    }
}

fn validate_optional_uri(value: &Option<String>, field: &str) -> (r: Result<(), String>)
    ensures
        outcome(r) == optional_uri_check(*value, field@),
{
    match value {
        Some(v) => validate_marketplace_uri(v.as_str(), field),
        None => Ok(()),
    }
}

/// Parsed URL parts of an `https` URL without credentials, query or
/// fragment.
pub open spec fn https_base_url(
    parts: Option<(Seq<char>, Seq<char>, Option<Seq<char>>, Option<Seq<char>>, Option<Seq<char>>)>,
) -> bool {
    match parts {
        None => false,
        Some((scheme, username, password, query, fragment)) => scheme == "https"@ && username.len()
            == 0 && password is None && query is None && fragment is None,
    }
}

/// The fields a valid shop keeps: a name of 1-60 characters, a bio of at
/// most 1000, a two-letter uppercase country and a region of 1-100
/// characters when given, policies of at most 4000 characters, and a
/// declared transaction service of at most 300 characters that parses as
/// an `https` URL without credentials, query or fragment.
pub open spec fn shop_fields_hold(s: PubkyAppShop) -> bool {
    &&& 1 <= s.name@.len() <= 60
    &&& s.bio@.len() <= 1000
    &&& s.location.country_code@.len() == 2
    &&& crate::text::all_ascii_upper(s.location.country_code@)
    &&& (s.location.region matches Some(r) ==> 1 <= r@.len() <= 100)
    &&& s.shipping_policy@.len() <= 4000
    &&& s.return_policy@.len() <= 4000
    &&& (s.transaction_service matches Some(v) ==> v@.len() <= 300 && https_base_url(url_parts(v@)))
}

impl PubkyAppShop {
    /// Creates a new shop, sanitized.
    pub fn new(
        owner_pubky: String,
        revision: i64,
        created_at: String,
        updated_at: String,
        name: String,
        bio: String,
        location: PubkyAppMarketplaceLocation,
        avatar_url: Option<String>,
        banner_url: Option<String>,
        shipping_policy: String,
        return_policy: String,
        vacation_mode: bool,
    ) -> (r: Self)
        ensures
            r.schema_version == MARKETPLACE_SCHEMA_VERSION,
            r.record_type@ == SHOP_RECORD_TYPE@,
            r.owner_pubky == owner_pubky,
            r.revision == revision,
            r.created_at == created_at,
            r.updated_at == updated_at,
            r.name@ == trim(name@),
            r.bio@ == trim(bio@),
            r.location.country_code == location.country_code,
            opt_view(r.location.region) == trim_opt_spec(opt_view(location.region)),
            r.avatar_url == avatar_url,
            r.banner_url == banner_url,
            r.shipping_policy@ == trim(shipping_policy@),
            r.return_policy@ == trim(return_policy@),
            r.vacation_mode == vacation_mode,
            r.transaction_service is None,
    {
        PubkyAppShop {
            schema_version: MARKETPLACE_SCHEMA_VERSION,
            record_type: owned(SHOP_RECORD_TYPE),
            owner_pubky,
            revision,
            created_at,
            updated_at,
            name,
            bio,
            location,
            avatar_url,
            banner_url,
            shipping_policy,
            return_policy,
            vacation_mode,
            transaction_service: None,
        }.sanitize()
    }

    /// The shop with its texts and its location's region trimmed.
    pub fn sanitize(self) -> (r: Self)
        ensures
            r.schema_version == self.schema_version,
            r.record_type == self.record_type,
            r.owner_pubky == self.owner_pubky,
            r.revision == self.revision,
            r.created_at == self.created_at,
            r.updated_at == self.updated_at,
            r.name@ == trim(self.name@),
            r.bio@ == trim(self.bio@),
            r.location.country_code == self.location.country_code,
            opt_view(r.location.region) == trim_opt_spec(opt_view(self.location.region)),
            r.avatar_url == self.avatar_url,
            r.banner_url == self.banner_url,
            r.shipping_policy@ == trim(self.shipping_policy@),
            r.return_policy@ == trim(self.return_policy@),
            r.vacation_mode == self.vacation_mode,
            r.transaction_service == self.transaction_service,
    {
        let name = trim_str(self.name.as_str());
        let bio = trim_str(self.bio.as_str());
        let shipping_policy = trim_str(self.shipping_policy.as_str());
        let return_policy = trim_str(self.return_policy.as_str());
        let location = self.location.sanitize();
        PubkyAppShop { name, bio, location, shipping_policy, return_policy, ..self }
    }

    /// The shop's path: `/pub/pubky.app/marketplace/v1/shop.json`.
    pub fn create_path() -> (r: String)
        ensures
            r@ == public_path("marketplace/v1/shop.json"@, ""@),
    {
        build_public_path("marketplace/v1/shop.json", "")
    }

    /// Validates the shop (the path id plays no part).
    pub fn validate(&self, _id: Option<&str>) -> (r: Result<(), String>)
        ensures
            outcome(r) == shop_check(*self),
            r is Ok ==> shop_fields_hold(*self),
            r is Ok ==> base_record_holds(
                self.schema_version as int,
                self.record_type@,
                SHOP_RECORD_TYPE@,
                self.owner_pubky@,
                self.revision as int,
                self.created_at@,
                self.updated_at@,
            ),
    {
        proof {
            lemma_base_record_iff(
                self.schema_version as int,
                self.record_type@,
                SHOP_RECORD_TYPE@,
                self.owner_pubky@,
                self.revision as int,
                self.created_at@,
                self.updated_at@,
            );
        }
        validate_base_record(
            self.schema_version,
            self.record_type.as_str(),
            SHOP_RECORD_TYPE,
            self.owner_pubky.as_str(),
            self.revision,
            self.created_at.as_str(),
            self.updated_at.as_str(),
        )?;
        let name_length = char_count(self.name.as_str());
        if !(1 <= name_length && name_length <= 60) {
            return Err(owned("Validation Error: shop name must be 1-60 characters"));
        }
        if char_count(self.bio.as_str()) > 1000 {
            return Err(owned("Validation Error: shop bio exceeds maximum length of 1000"));
        }
        self.location.validate(None)?;
        validate_optional_uri(&self.avatar_url, "avatarUrl")?;
        validate_optional_uri(&self.banner_url, "bannerUrl")?;
        if char_count(self.shipping_policy.as_str()) > 4000 {
            return Err(
                owned("Validation Error: shippingPolicy exceeds maximum length of 4000"),
            );
        }
        if char_count(self.return_policy.as_str()) > 4000 {
            return Err(owned("Validation Error: returnPolicy exceeds maximum length of 4000"));
        }
        validate_transaction_service(&self.transaction_service)
    }
}

} // verus!

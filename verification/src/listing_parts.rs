//! The parts a marketplace listing is made of: media, variants, the sale
//! format, shipping options, package facts, the return policy, the digital
//! lock, category attributes, and the rules each part obeys on its own.
use vstd::prelude::*;
use crate::marketplace::{
    entity_id_check, hex_hash_check, locks_uri_check, marketplace_uri_check,
    money_non_negative_check, money_positive_check, parse_rfc3339_millis, rfc3339_error,
    rfc3339_millis, same_asset_spec, validate_entity_id, validate_hex_hash, validate_locks_uri,
    validate_marketplace_uri, PubkyAppMoney, MAX_SAFE_INTEGER, is_asset_code, asset_check,
    entity_id_holds, lemma_field_checks_iff,
};
use crate::text::{
    and_then, ascii_alnum, ascii_digit, ascii_lower, char_count, chars_of, concat2, concat3,
    each_check, ensure_unique, is_ascii_alnum, is_ascii_digit, is_ascii_lower, lemma_each_check_end,
    lemma_each_check_step, lemma_less_irreflexive, lemma_less_total, lemma_less_transitive,
    opt_view, outcome, owned, seq_less, str_less, trim, trim_opt, trim_opt_spec, trim_str,
    unique_check, views, key_step, keys_ascending, keys_distinct, check_keys_ascending,
    lemma_keys_ascending_distinct, lemma_trim_idempotent,
};
use crate::jws::{find_char, index_of};

verus! {

// ---------------------------------------------------------------------------
// Enumerations
// ---------------------------------------------------------------------------

/// The lifecycle state of a listing.
#[derive(Debug, Clone, Copy, PartialEq, Eq, Structural)]
pub enum PubkyAppListingState {
    Active,
    Paused,
    Ended,
    Removed,
}

/// The condition of the listed item.
#[derive(Debug, Clone, Copy, PartialEq, Eq, Structural)]
pub enum PubkyAppListingCondition {
    New,
    LikeNew,
    Excellent,
    Good,
    Fair,
    ForParts,
}

/// How an order is fulfilled.
#[derive(Debug, Clone, Copy, PartialEq, Eq, Hash, Structural)]
pub enum PubkyAppFulfillmentMethod {
    Physical,
    Digital,
    Pickup,
}

/// The kind of a media entry.
#[derive(Debug, Clone, Copy, PartialEq, Eq, Structural)]
pub enum PubkyAppListingMediaKind {
    Image,
    Video,
}

// ---------------------------------------------------------------------------
// Media
// ---------------------------------------------------------------------------

/// One image or video of a listing.
#[derive(Debug, Clone, PartialEq)]
pub struct PubkyAppListingMedia {
    pub id: String,
    pub kind: PubkyAppListingMediaKind,
    pub url: String,
    pub content_hash: String,
    pub mime_type: String,
    pub byte_size: i64,
    pub width: i64,
    pub height: i64,
    pub duration_ms: Option<i64>,
    pub alt_text: String,
}

/// `c` lowered if it is an ASCII uppercase letter.
pub open spec fn ascii_lowercase(c: char) -> char {
    if 'A' <= c && c <= 'Z' {
        ((c as int) + 32) as char
    } else {
        c
    }
}

/// `a` equals the lowercase ASCII word `word` up to ASCII case.
pub open spec fn eq_ignore_ascii_case(a: Seq<char>, word: Seq<char>) -> bool {
    a.len() == word.len() && forall|i: int| 0 <= i < a.len() ==> #[trigger] ascii_lowercase(a[i])
        == word[i]
}

/// A MIME subtype character: `[A-Za-z0-9.+-]`.
pub open spec fn is_subtype_char(c: char) -> bool {
    is_ascii_alnum(c) || c == '.' || c == '+' || c == '-'
}

/// An image or video MIME type: `image` or `video` (any ASCII case), a `/`
/// and a non-empty subtype of `[A-Za-z0-9.+-]`.
pub open spec fn is_media_mime_type(s: Seq<char>) -> bool {
    let k = index_of(s, '/', 0);
    &&& k < s.len()
    &&& (eq_ignore_ascii_case(s.take(k), "image"@) || eq_ignore_ascii_case(s.take(k), "video"@))
    &&& s.skip(k + 1).len() > 0
    &&& forall|i: int| k + 1 <= i < s.len() ==> #[trigger] is_subtype_char(s[i])
}

/// The outcome of validating a media MIME type.
pub open spec fn mime_type_check(s: Seq<char>) -> Result<(), Seq<char>> {
    if is_media_mime_type(s) {
        Ok(())
    } else {
        Err("Validation Error: media mimeType must be an image or video MIME type"@)
    }
}

fn lower_ascii(c: char) -> (r: char)
    ensures
        r == ascii_lowercase(c),
{
    if 'A' <= c && c <= 'Z' {
        ((c as u8) + 32) as char
    } else {
        c
    }
}

fn matches_word_ignoring_case(v: &Vec<char>, end: usize, word: &str) -> (r: bool)
    requires
        end <= v.len(),
    ensures
        r == eq_ignore_ascii_case(v@.take(end as int), word@),
{
    let w = chars_of(word);
    if w.len() != end {
        return false;
    }
    let mut i: usize = 0;
    while i < end
        invariant
            end <= v.len(),
            w@ == word@,
            w.len() == end,
            i <= end,
            forall|j: int| 0 <= j < i ==> #[trigger] ascii_lowercase(v@[j]) == w@[j],
        decreases end - i,
    {
        if lower_ascii(v[i]) != w[i] {
            assert(ascii_lowercase(v@.take(end as int)[i as int]) != word@[i as int]);
            return false;
        }
        i = i + 1;
    }
    assert forall|j: int| 0 <= j < end implies #[trigger] ascii_lowercase(v@.take(end as int)[j])
        == word@[j] by {
        assert(v@.take(end as int)[j] == v@[j]);
    }
    true
}

/// Validates an image or video MIME type.
pub fn validate_mime_type(value: &str) -> (r: Result<(), String>)
    ensures
        outcome(r) == mime_type_check(value@),
{
    let v = chars_of(value);
    let k = find_char(&v, '/', 0);
    let mut ok = k < v.len() && (matches_word_ignoring_case(&v, k, "image")
        || matches_word_ignoring_case(&v, k, "video")) && k + 1 < v.len();
    if ok {
        let mut i = k + 1;
        while i < v.len()
            invariant
                k + 1 <= i <= v.len(),
                v@ == value@,
                ok == (forall|j: int| k + 1 <= j < i ==> #[trigger] is_subtype_char(v@[j])),
            decreases v.len() - i,
        {
            let c = v[i];
            let good = ascii_alnum(c) || c == '.' || c == '+' || c == '-';
            assert(good == is_subtype_char(v@[i as int]));
            if !good {
                ok = false;
            }
            i = i + 1;
        }
    }
    if ok {
        Ok(())
    } else {
        Err(owned("Validation Error: media mimeType must be an image or video MIME type"))
    }
}

/// The outcome of the duration rules of a media entry.
pub open spec fn duration_check(kind: PubkyAppListingMediaKind, duration_ms: Option<i64>) -> Result<(), Seq<char>> {
    match (kind, duration_ms) {
        (PubkyAppListingMediaKind::Video, None) => Err(
            "Validation Error: video media requires durationMs"@,
        ),
        (PubkyAppListingMediaKind::Image, Some(_)) => Err(
            "Validation Error: image media cannot declare durationMs"@,
        ),
        (PubkyAppListingMediaKind::Video, Some(d)) => if !(1 <= d <= MAX_SAFE_INTEGER) {
            Err("Validation Error: media durationMs must be a positive integer"@)
        } else {
            Ok(())
        },
        _ => Ok(()),
    }
}

/// The outcome of validating a media entry on its own.
pub open spec fn media_check(m: PubkyAppListingMedia) -> Result<(), Seq<char>> {
    and_then(
        entity_id_check(m.id@, "media id"@),
        and_then(
            marketplace_uri_check(m.url@, "media url"@),
            and_then(
                hex_hash_check(m.content_hash@, "media contentHash"@),
                and_then(
                    mime_type_check(m.mime_type@),
                    if !(1 <= m.byte_size <= MAX_SAFE_INTEGER) {
                        Err("Validation Error: media byteSize must be a positive safe integer"@)
                    } else if !(1 <= m.width <= MAX_SAFE_INTEGER) || !(1 <= m.height
                        <= MAX_SAFE_INTEGER) {
                        Err("Validation Error: media width and height must be positive integers"@)
                    } else {
                        and_then(
                            duration_check(m.kind, m.duration_ms),
                            if 1 <= m.alt_text@.len() <= 300 {
                                Ok(())
                            } else {
                                Err("Validation Error: media altText must be 1-300 characters"@)
                            },
                        )
                    },
                ),
            ),
        ),
    )
}

impl PubkyAppListingMedia {
    /// The media entry with its alt text trimmed.
    pub fn sanitize(self) -> (r: Self)
        ensures
            r.alt_text@ == trim(self.alt_text@),
            r.id == self.id,
            r.kind == self.kind,
            r.url == self.url,
            r.content_hash == self.content_hash,
            r.mime_type == self.mime_type,
            r.byte_size == self.byte_size,
            r.width == self.width,
            r.height == self.height,
            r.duration_ms == self.duration_ms,
    {
        let alt_text = trim_str(self.alt_text.as_str());
        PubkyAppListingMedia { alt_text, ..self }
    }

    /// Validates the media entry on its own.
    pub fn validate(&self) -> (r: Result<(), String>)
        ensures
            outcome(r) == media_check(*self),
            r is Ok ==> media_holds(*self),
    {
        proof {
            if media_check(*self) is Ok {
                lemma_valid_media(*self);
            }
        }
        validate_entity_id(self.id.as_str(), "media id")?;
        validate_marketplace_uri(self.url.as_str(), "media url")?;
        validate_hex_hash(self.content_hash.as_str(), "media contentHash")?;
        validate_mime_type(self.mime_type.as_str())?;
        if !(1 <= self.byte_size && self.byte_size <= MAX_SAFE_INTEGER) {
            return Err(owned("Validation Error: media byteSize must be a positive safe integer"));
        }
        if !(1 <= self.width && self.width <= MAX_SAFE_INTEGER) || !(1 <= self.height
            && self.height <= MAX_SAFE_INTEGER) {
            return Err(
                owned("Validation Error: media width and height must be positive integers"),
            );
        }
        match (self.kind, self.duration_ms) {
            (PubkyAppListingMediaKind::Video, None) => {
                return Err(owned("Validation Error: video media requires durationMs"));
            },
            (PubkyAppListingMediaKind::Image, Some(_)) => {
                return Err(owned("Validation Error: image media cannot declare durationMs"));
            },
            (PubkyAppListingMediaKind::Video, Some(d)) => {
                if !(1 <= d && d <= MAX_SAFE_INTEGER) {
                    return Err(
                        owned("Validation Error: media durationMs must be a positive integer"),
                    );
                }
            },
            _ => {},
        }
        let alt_text_length = char_count(self.alt_text.as_str());
        if !(1 <= alt_text_length && alt_text_length <= 300) {
            return Err(owned("Validation Error: media altText must be 1-300 characters"));
        }
        Ok(())
    }
}

// ---------------------------------------------------------------------------
// Variants
// ---------------------------------------------------------------------------

/// One purchasable variant of a listing. `options` holds the option
/// dimensions as (key, value) pairs in ascending key order, each key once;
/// `validate` rejects any other order and `sanitize` restores it.
#[derive(Debug, Clone, PartialEq)]
pub struct PubkyAppListingVariant {
    pub id: String,
    pub sku: Option<String>,
    pub options: Vec<(String, String)>,
    pub price_override: Option<PubkyAppMoney>,
    pub quantity: i64,
    pub media_ids: Vec<String>,
    pub enabled: bool,
}

/// The rule each option pair of a variant obeys.
pub open spec fn option_rule() -> spec_fn((String, String)) -> Result<(), Seq<char>> {
    |p: (String, String)|
        if !(1 <= p.0@.len() <= 40) {
            Err("Validation Error: variant option keys must be 1-40 characters"@)
        } else if !(1 <= p.1@.len() <= 80) {
            Err("Validation Error: variant option values must be 1-80 characters"@)
        } else {
            Ok(())
        }
}

/// The rule each media reference of a variant obeys.
pub open spec fn variant_media_rule() -> spec_fn(String) -> Result<(), Seq<char>> {
    |id: String| entity_id_check(id@, "variant mediaIds entry"@)
}

/// The outcome of validating a variant on its own.
pub open spec fn variant_check(v: PubkyAppListingVariant) -> Result<(), Seq<char>> {
    and_then(
        entity_id_check(v.id@, "variant id"@),
        and_then(
            match v.sku {
                Some(s) => if 1 <= s@.len() <= 64 {
                    Ok(())
                } else {
                    Err("Validation Error: variant sku must be 1-64 characters"@)
                },
                None => Ok(()),
            },
            and_then(
                if v.options@.len() > 3 {
                    Err("Validation Error: variants support at most 3 option dimensions"@)
                } else if !keys_ascending(v.options@) {
                    Err("Validation Error: variant option keys must be unique and in ascending order"@)
                } else {
                    Ok(())
                },
                and_then(
                    each_check(v.options@, option_rule()),
                    and_then(
                        match v.price_override {
                            Some(p) => money_positive_check(p, "variant priceOverride"@),
                            None => Ok(()),
                        },
                        if !(0 <= v.quantity <= 1_000_000) {
                            Err("Validation Error: variant quantity must be between 0 and 1000000"@)
                        } else if v.media_ids@.len() > 13 {
                            Err("Validation Error: variant mediaIds exceeds maximum of 13"@)
                        } else {
                            each_check(v.media_ids@, variant_media_rule())
                        },
                    ),
                ),
            ),
        ),
    )
}

/// The option pairs with keys and values trimmed, in order.
pub open spec fn trimmed_pairs(p: Seq<(String, String)>) -> Seq<(Seq<char>, Seq<char>)> {
    p.map_values(|e: (String, String)| (trim(e.0@), trim(e.1@)))
}

/// The views of option pairs.
pub open spec fn pair_views(p: Seq<(String, String)>) -> Seq<(Seq<char>, Seq<char>)> {
    p.map_values(|e: (String, String)| (e.0@, e.1@))
}

/// The map a sequence of pairs collects into: a later pair's value wins
/// over an earlier one with the same key.
pub open spec fn pairs_map(p: Seq<(Seq<char>, Seq<char>)>) -> Map<Seq<char>, Seq<char>>
    decreases p.len(),
{
    if p.len() == 0 {
        Map::empty()
    } else {
        pairs_map(p.drop_last()).insert(p.last().0, p.last().1)
    }
}

/// `r` lists the entries of `m`, in strictly ascending key order.
pub open spec fn lists_map_sorted(r: Seq<(Seq<char>, Seq<char>)>, m: Map<Seq<char>, Seq<char>>) -> bool {
    &&& forall|i: int, j: int| 0 <= i < j < r.len() ==> seq_less(#[trigger] r[i].0, #[trigger] r[j].0)
    &&& forall|i: int|
        0 <= i < r.len() ==> m.dom().contains(#[trigger] r[i].0) && m[r[i].0] == r[i].1
    &&& forall|k: Seq<char>|
        #[trigger] m.dom().contains(k) ==> exists|i: int| 0 <= i < r.len() && r[i].0 == k
}

/// Inserting a new key at its sorted position keeps the listing sorted.
proof fn lemma_sorted_insert(
    r: Seq<(Seq<char>, Seq<char>)>,
    m: Map<Seq<char>, Seq<char>>,
    p: int,
    k: Seq<char>,
    v: Seq<char>,
)
    requires
        lists_map_sorted(r, m),
        0 <= p <= r.len(),
        forall|q: int| 0 <= q < p ==> seq_less(#[trigger] r[q].0, k),
        p < r.len() ==> !seq_less(r[p].0, k) && r[p].0 != k,
    ensures
        lists_map_sorted(r.insert(p, (k, v)), m.insert(k, v)),
{
    let r2 = r.insert(p, (k, v));
    let m2 = m.insert(k, v);
    if m.dom().contains(k) {
        let q = choose|q: int| 0 <= q < r.len() && r[q].0 == k;
        if q < p {
            lemma_less_irreflexive(k);
        } else if q > p {
            assert(seq_less(r[p].0, r[q].0));
        }
    }
    assert(!m.dom().contains(k));
    if p < r.len() {
        lemma_less_total(r[p].0, k);
    }
    assert forall|i: int, j: int| 0 <= i < j < r2.len() implies seq_less(
        #[trigger] r2[i].0,
        #[trigger] r2[j].0,
    ) by {
        if i < p && j < p {
            assert(r2[i] == r[i] && r2[j] == r[j]);
        } else if i < p && j == p {
            assert(r2[i] == r[i]);
        } else if i < p {
            assert(r2[i] == r[i] && r2[j] == r[j - 1]);
        } else if i == p {
            assert(r2[j] == r[j - 1]);
            if j - 1 > p {
                lemma_less_transitive(k, r[p].0, r[j - 1].0);
            }
        } else {
            assert(r2[i] == r[i - 1] && r2[j] == r[j - 1]);
        }
    }
    assert forall|i: int| 0 <= i < r2.len() implies m2.dom().contains(#[trigger] r2[i].0)
        && m2[r2[i].0] == r2[i].1 by {
        if i < p {
            assert(r2[i] == r[i]);
        } else if i > p {
            assert(r2[i] == r[i - 1]);
        }
    }
    assert forall|key: Seq<char>| #[trigger] m2.dom().contains(key) implies exists|i: int|
        0 <= i < r2.len() && r2[i].0 == key by {
        if key == k {
            assert(r2[p].0 == k);
        } else {
            let q = choose|q: int| 0 <= q < r.len() && r[q].0 == key;
            if q < p {
                assert(r2[q] == r[q]);
            } else {
                assert(r2[q + 1] == r[q]);
            }
        }
    }
}

/// Replacing the value of a present key keeps the listing sorted.
proof fn lemma_sorted_replace(
    r: Seq<(Seq<char>, Seq<char>)>,
    m: Map<Seq<char>, Seq<char>>,
    p: int,
    k: Seq<char>,
    v: Seq<char>,
)
    requires
        lists_map_sorted(r, m),
        0 <= p < r.len(),
        r[p].0 == k,
    ensures
        lists_map_sorted(r.update(p, (k, v)), m.insert(k, v)),
{
    let r2 = r.update(p, (k, v));
    let m2 = m.insert(k, v);
    assert forall|i: int| 0 <= i < r2.len() implies m2.dom().contains(#[trigger] r2[i].0)
        && m2[r2[i].0] == r2[i].1 by {
        if i != p {
            assert(r2[i] == r[i]);
            if r[i].0 == k {
                if i < p {
                    assert(seq_less(r[i].0, r[p].0));
                } else {
                    assert(seq_less(r[p].0, r[i].0));
                }
                lemma_less_irreflexive(k);
            }
        }
    }
    assert forall|key: Seq<char>| #[trigger] m2.dom().contains(key) implies exists|i: int|
        0 <= i < r2.len() && r2[i].0 == key by {
        if key == k {
            assert(r2[p].0 == k);
        } else {
            let q = choose|q: int| 0 <= q < r.len() && r[q].0 == key;
            assert(r2[q] == r[q]);
        }
    }
    assert forall|i: int, j: int| 0 <= i < j < r2.len() implies seq_less(
        #[trigger] r2[i].0,
        #[trigger] r2[j].0,
    ) by {
        assert(r2[i].0 == r[i].0 && r2[j].0 == r[j].0);
    }
}

/// Collects (key, value) pairs into a map and lists it in ascending key
/// order, a later pair's value winning over an earlier one with the same
/// key (what collecting into a `BTreeMap` gives).
pub fn collect_sorted_pairs(pairs: Vec<(String, String)>) -> (r: Vec<(String, String)>)
    ensures
        lists_map_sorted(pair_views(r@), pairs_map(pair_views(pairs@))),
{
    let mut out: Vec<(String, String)> = Vec::new();
    let mut i: usize = 0;
    assert(pair_views(pairs@).take(0) =~= Seq::<(Seq<char>, Seq<char>)>::empty());
    assert(pair_views(out@) =~= Seq::<(Seq<char>, Seq<char>)>::empty());
    while i < pairs.len()
        invariant
            i <= pairs.len(),
            lists_map_sorted(pair_views(out@), pairs_map(pair_views(pairs@).take(i as int))),
        decreases pairs.len() - i,
    {
        let ghost r = pair_views(out@);
        let ghost m = pairs_map(pair_views(pairs@).take(i as int));
        let k = pairs[i].0.clone();
        let v = pairs[i].1.clone();
        assert(pair_views(pairs@).take(i + 1).drop_last() =~= pair_views(pairs@).take(i as int));
        assert(pair_views(pairs@).take(i + 1).last() == (k@, v@));
        let mut p: usize = 0;
        while p < out.len() && str_less(out[p].0.as_str(), k.as_str())
            invariant
                p <= out.len(),
                r == pair_views(out@),
                forall|q: int| 0 <= q < p ==> seq_less(#[trigger] r[q].0, k@),
            decreases out.len() - p,
        {
            p = p + 1;
        }
        if p < out.len() && out[p].0 == k {
            proof {
                lemma_sorted_replace(r, m, p as int, k@, v@);
            }
            out[p] = (k, v);
            assert(pair_views(out@) =~= r.update(p as int, (k@, v@)));
        } else {
            proof {
                lemma_sorted_insert(r, m, p as int, k@, v@);
            }
            out.insert(p, (k, v));
            assert(pair_views(out@) =~= r.insert(p as int, (k@, v@)));
        }
        i = i + 1;
    }
    assert(pair_views(pairs@).take(pairs.len() as int) =~= pair_views(pairs@));
    out
}

impl PubkyAppListingVariant {
    /// The variant with its SKU trimmed and its options re-collected with
    /// every key and value trimmed: ascending key order, a later option's
    /// value winning when two keys trim to the same text.
    pub fn sanitize(self) -> (r: Self)
        ensures
            r.id == self.id,
            opt_view(r.sku) == trim_opt_spec(opt_view(self.sku)),
            lists_map_sorted(pair_views(r.options@), pairs_map(trimmed_pairs(self.options@))),
            keys_ascending(r.options@),
            r.price_override == self.price_override,
            r.quantity == self.quantity,
            r.media_ids == self.media_ids,
            r.enabled == self.enabled,
    {
        let sku = trim_opt(&self.sku);
        let mut trimmed: Vec<(String, String)> = Vec::new();
        let mut i: usize = 0;
        while i < self.options.len()
            invariant
                i <= self.options.len(),
                trimmed@.len() == i,
                forall|j: int|
                    0 <= j < i ==> (#[trigger] trimmed@[j]).0@ == trim(self.options@[j].0@)
                        && trimmed@[j].1@ == trim(self.options@[j].1@),
            decreases self.options.len() - i,
        {
            let key = trim_str(self.options[i].0.as_str());
            let value = trim_str(self.options[i].1.as_str());
            trimmed.push((key, value));
            i = i + 1;
        }
        assert(pair_views(trimmed@) =~= trimmed_pairs(self.options@));
        let options = collect_sorted_pairs(trimmed);
        proof {
            assert forall|j: int| 0 <= j < options@.len() - 1 implies #[trigger] key_step(
                options@,
                j,
            ) by {
                let pv = pair_views(options@);
                assert(seq_less(pv[j].0, pv[j + 1].0));
            }
        }
        PubkyAppListingVariant { sku, options, ..self }
    }

    fn check_options(&self) -> (r: Result<(), String>)
        ensures
            outcome(r) == each_check(self.options@, option_rule()),
    {
        let ghost f = option_rule();
        assert(self.options@.skip(0) =~= self.options@);
        let mut i: usize = 0;
        while i < self.options.len()
            invariant
                i <= self.options.len(),
                f == option_rule(),
                each_check(self.options@, f) == each_check(self.options@.skip(i as int), f),
            decreases self.options.len() - i,
        {
            proof {
                lemma_each_check_step(self.options@, f, i as int);
            }
            let key_length = char_count(self.options[i].0.as_str());
            let value_length = char_count(self.options[i].1.as_str());
            if !(1 <= key_length && key_length <= 40) {
                return Err(owned("Validation Error: variant option keys must be 1-40 characters"));
            }
            if !(1 <= value_length && value_length <= 80) {
                return Err(
                    owned("Validation Error: variant option values must be 1-80 characters"),
                );
            }
            i = i + 1;
        }
        proof {
            lemma_each_check_end(self.options@, f);
        }
        Ok(())
    }

    fn check_media_ids(&self) -> (r: Result<(), String>)
        ensures
            outcome(r) == each_check(self.media_ids@, variant_media_rule()),
    {
        let ghost f = variant_media_rule();
        assert(self.media_ids@.skip(0) =~= self.media_ids@);
        let mut i: usize = 0;
        while i < self.media_ids.len()
            invariant
                i <= self.media_ids.len(),
                f == variant_media_rule(),
                each_check(self.media_ids@, f) == each_check(self.media_ids@.skip(i as int), f),
            decreases self.media_ids.len() - i,
        {
            proof {
                lemma_each_check_step(self.media_ids@, f, i as int);
            }
            validate_entity_id(self.media_ids[i].as_str(), "variant mediaIds entry")?;
            i = i + 1;
        }
        proof {
            lemma_each_check_end(self.media_ids@, f);
        }
        Ok(())
    }

    /// Validates the variant on its own.
    pub fn validate(&self) -> (r: Result<(), String>)
        ensures
            outcome(r) == variant_check(*self),
            r is Ok ==> keys_distinct(self.options@),
    {
        proof {
            if keys_ascending(self.options@) {
                lemma_keys_ascending_distinct(self.options@);
            }
        }
        validate_entity_id(self.id.as_str(), "variant id")?;
        match &self.sku {
            Some(sku) => {
                let length = char_count(sku.as_str());
                if !(1 <= length && length <= 64) {
                    return Err(owned("Validation Error: variant sku must be 1-64 characters"));
                }
            },
            None => {},
        }
        if self.options.len() > 3 {
            return Err(owned("Validation Error: variants support at most 3 option dimensions"));
        }
        if !check_keys_ascending(&self.options) {
            return Err(
                owned(
                    "Validation Error: variant option keys must be unique and in ascending order",
                ),
            );
        }
        self.check_options()?;
        match &self.price_override {
            Some(p) => p.validate_positive("variant priceOverride")?,
            None => {},
        }
        if !(0 <= self.quantity && self.quantity <= 1_000_000) {
            return Err(owned("Validation Error: variant quantity must be between 0 and 1000000"));
        }
        if self.media_ids.len() > 13 {
            return Err(owned("Validation Error: variant mediaIds exceeds maximum of 13"));
        }
        self.check_media_ids()
    }
}

// ---------------------------------------------------------------------------
// Sale
// ---------------------------------------------------------------------------

/// How the listing sells: at a fixed price, or by auction.
#[derive(Debug, Clone, PartialEq)]
pub enum PubkyAppListingSale {
    FixedPrice { unit_price: PubkyAppMoney, accepts_offers: bool },
    Auction {
        starting_price: PubkyAppMoney,
        reserve_price: Option<PubkyAppMoney>,
        buy_now_price: Option<PubkyAppMoney>,
        minimum_increment: PubkyAppMoney,
        starts_at: String,
        ends_at: String,
        anti_sniping_window_seconds: i64,
        anti_sniping_extension_seconds: i64,
    },
}

/// The price a sale is anchored on: the unit price, or the auction's
/// starting price.
pub open spec fn primary_price_of(s: PubkyAppListingSale) -> PubkyAppMoney {
    match s {
        PubkyAppListingSale::FixedPrice { unit_price, .. } => unit_price,
        PubkyAppListingSale::Auction { starting_price, .. } => starting_price,
    }
}

/// The message of auction prices in different assets.
pub open spec fn one_asset_message() -> Seq<char> {
    "Validation Error: auction prices must use one asset and exponent"@
}

/// The outcome of validating a sale on its own.
pub open spec fn sale_check(s: PubkyAppListingSale) -> Result<(), Seq<char>> {
    match s {
        PubkyAppListingSale::FixedPrice { unit_price, .. } => money_positive_check(
            unit_price,
            "sale unitPrice"@,
        ),
        PubkyAppListingSale::Auction {
            starting_price,
            reserve_price,
            buy_now_price,
            minimum_increment,
            starts_at,
            ends_at,
            anti_sniping_window_seconds,
            anti_sniping_extension_seconds,
        } => and_then(
            money_positive_check(starting_price, "sale startingPrice"@),
            and_then(
                money_positive_check(minimum_increment, "sale minimumIncrement"@),
                match (rfc3339_millis(starts_at@), rfc3339_millis(ends_at@)) {
                    (None, _) => Err("Validation Error: sale startsAt "@ + rfc3339_error()),
                    (Some(_), None) => Err("Validation Error: sale endsAt "@ + rfc3339_error()),
                    (Some(starts), Some(ends)) => if ends <= starts {
                        Err("Validation Error: auction end must follow its start"@)
                    } else if !(0 <= anti_sniping_window_seconds <= 3600) || !(0
                        <= anti_sniping_extension_seconds <= 3600) {
                        Err(
                            "Validation Error: anti-sniping windows must be between 0 and 3600 seconds"@,
                        )
                    } else if !same_asset_spec(minimum_increment, starting_price) {
                        Err(one_asset_message())
                    } else {
                        and_then(
                            match reserve_price {
                                None => Ok(()),
                                Some(p) => and_then(
                                    money_positive_check(p, "sale reservePrice"@),
                                    if !same_asset_spec(p, starting_price) {
                                        Err(one_asset_message())
                                    } else if p.amount_minor < starting_price.amount_minor {
                                        Err(
                                            "Validation Error: reserve price must not be below the starting price"@,
                                        )
                                    } else {
                                        Ok(())
                                    },
                                ),
                            },
                            match buy_now_price {
                                None => Ok(()),
                                Some(p) => and_then(
                                    money_positive_check(p, "sale buyNowPrice"@),
                                    if !same_asset_spec(p, starting_price) {
                                        Err(one_asset_message())
                                    } else if p.amount_minor <= starting_price.amount_minor {
                                        Err(
                                            "Validation Error: buy-now price must exceed the starting price"@,
                                        )
                                    } else {
                                        Ok(())
                                    },
                                ),
                            },
                        )
                    },
                },
            ),
        ),
    }
}

/// A money value with a positive safe amount in a well-formed asset.
pub open spec fn positive_money(m: PubkyAppMoney) -> bool {
    &&& 1 <= m.amount_minor <= MAX_SAFE_INTEGER
    &&& is_asset_code(m.currency@)
    &&& 0 <= m.exponent <= 18
}

/// Two money values in one asset: the same currency code and exponent.
pub open spec fn one_asset(a: PubkyAppMoney, b: PubkyAppMoney) -> bool {
    a.currency@ == b.currency@ && a.exponent == b.exponent
}

/// The terms a valid sale keeps. A fixed price is a positive amount. An
/// auction has positive starting price and increment in one asset, ends
/// strictly after it starts, keeps both anti-sniping windows within an
/// hour, and any reserve (not below the start) or buy-now price (above
/// the start) is a positive amount in the starting price's asset.
pub open spec fn sale_terms_hold(s: PubkyAppListingSale) -> bool {
    match s {
        PubkyAppListingSale::FixedPrice { unit_price, .. } => positive_money(unit_price),
        PubkyAppListingSale::Auction {
            starting_price,
            reserve_price,
            buy_now_price,
            minimum_increment,
            starts_at,
            ends_at,
            anti_sniping_window_seconds,
            anti_sniping_extension_seconds,
        } => {
            &&& positive_money(starting_price)
            &&& positive_money(minimum_increment)
            &&& one_asset(minimum_increment, starting_price)
            &&& rfc3339_millis(starts_at@) is Some
            &&& rfc3339_millis(ends_at@) is Some
            &&& rfc3339_millis(starts_at@)->0 < rfc3339_millis(ends_at@)->0
            &&& 0 <= anti_sniping_window_seconds <= 3600
            &&& 0 <= anti_sniping_extension_seconds <= 3600
            &&& (reserve_price matches Some(p) ==> positive_money(p) && one_asset(p, starting_price)
                && p.amount_minor >= starting_price.amount_minor)
            &&& (buy_now_price matches Some(p) ==> positive_money(p) && one_asset(p, starting_price)
                && p.amount_minor > starting_price.amount_minor)
        },
    }
}

proof fn lemma_positive_money(m: PubkyAppMoney, field: Seq<char>)
    requires
        money_positive_check(m, field) is Ok,
    ensures
        positive_money(m),
{
}

/// A sale that validates keeps its terms: every price positive, all auction
/// prices in one asset, the reserve not below and the buy-now price above
/// the start, the end after the start and the windows within an hour.
pub proof fn lemma_valid_sale_terms(s: PubkyAppListingSale)
    requires
        sale_check(s) is Ok,
    ensures
        sale_terms_hold(s),
{
    match s {
        PubkyAppListingSale::FixedPrice { unit_price, .. } => {
            lemma_positive_money(unit_price, "sale unitPrice"@);
        },
        PubkyAppListingSale::Auction { starting_price, reserve_price, buy_now_price, minimum_increment, .. } => {
            lemma_positive_money(starting_price, "sale startingPrice"@);
            lemma_positive_money(minimum_increment, "sale minimumIncrement"@);
            match reserve_price {
                Some(p) => lemma_positive_money(p, "sale reservePrice"@),
                None => {},
            }
            match buy_now_price {
                Some(p) => lemma_positive_money(p, "sale buyNowPrice"@),
                None => {},
            }
        },
    }
}

impl PubkyAppListingSale {
    /// The price the sale is anchored on.
    pub fn primary_price(&self) -> (r: &PubkyAppMoney)
        ensures
            *r == primary_price_of(*self),
    {
        match self {
            PubkyAppListingSale::FixedPrice { unit_price, .. } => unit_price,
            PubkyAppListingSale::Auction { starting_price, .. } => starting_price,
        }
    }

    /// Whether the sale is an auction.
    pub fn is_auction(&self) -> (r: bool)
        ensures
            r == (*self is Auction),
    {
        match self {
            PubkyAppListingSale::FixedPrice { .. } => false,
            PubkyAppListingSale::Auction { .. } => true,
        }
    }

    /// Validates the sale on its own.
    pub fn validate(&self) -> (r: Result<(), String>)
        ensures
            outcome(r) == sale_check(*self),
            r is Ok ==> sale_terms_hold(*self),
    {
        proof {
            if sale_check(*self) is Ok {
                lemma_valid_sale_terms(*self);
            }
        }
        match self {
            PubkyAppListingSale::FixedPrice { unit_price, .. } => unit_price.validate_positive(
                "sale unitPrice",
            ),
            PubkyAppListingSale::Auction {
                starting_price,
                reserve_price,
                buy_now_price,
                minimum_increment,
                starts_at,
                ends_at,
                anti_sniping_window_seconds,
                anti_sniping_extension_seconds,
            } => {
                starting_price.validate_positive("sale startingPrice")?;
                minimum_increment.validate_positive("sale minimumIncrement")?;
                let starts = match parse_rfc3339_millis(starts_at.as_str()) {
                    Ok(v) => v,
                    Err(e) => return Err(concat2("Validation Error: sale startsAt ", e.as_str())),
                };
                let ends = match parse_rfc3339_millis(ends_at.as_str()) {
                    Ok(v) => v,
                    Err(e) => return Err(concat2("Validation Error: sale endsAt ", e.as_str())),
                };
                if ends <= starts {
                    return Err(owned("Validation Error: auction end must follow its start"));
                }
                if !(0 <= *anti_sniping_window_seconds && *anti_sniping_window_seconds <= 3600)
                    || !(0 <= *anti_sniping_extension_seconds && *anti_sniping_extension_seconds
                    <= 3600) {
                    return Err(
                        owned(
                            "Validation Error: anti-sniping windows must be between 0 and 3600 seconds",
                        ),
                    );
                }
                if !minimum_increment.same_asset(starting_price) {
                    return Err(
                        owned("Validation Error: auction prices must use one asset and exponent"),
                    );
                }
                match reserve_price {
                    None => {},
                    Some(p) => {
                        p.validate_positive("sale reservePrice")?;
                        if !p.same_asset(starting_price) {
                            return Err(
                                owned(
                                    "Validation Error: auction prices must use one asset and exponent",
                                ),
                            );
                        }
                        if p.amount_minor < starting_price.amount_minor {
                            return Err(
                                owned(
                                    "Validation Error: reserve price must not be below the starting price",
                                ),
                            );
                        }
                    },
                }
                match buy_now_price {
                    None => {},
                    Some(p) => {
                        p.validate_positive("sale buyNowPrice")?;
                        if !p.same_asset(starting_price) {
                            return Err(
                                owned(
                                    "Validation Error: auction prices must use one asset and exponent",
                                ),
                            );
                        }
                        if p.amount_minor <= starting_price.amount_minor {
                            return Err(
                                owned(
                                    "Validation Error: buy-now price must exceed the starting price",
                                ),
                            );
                        }
                    },
                }
                Ok(())
            },
        }
    }
}

// ---------------------------------------------------------------------------
// Shipping options
// ---------------------------------------------------------------------------

/// One way of shipping a physical item.
#[derive(Debug, Clone, PartialEq)]
pub enum PubkyAppShippingOption {
    Free { id: String, label: String, estimated_min_days: i64, estimated_max_days: i64 },
    Flat {
        id: String,
        label: String,
        price: PubkyAppMoney,
        estimated_min_days: i64,
        estimated_max_days: i64,
    },
    Calculated {
        id: String,
        label: String,
        provider: String,
        service_code: String,
        estimated_min_days: i64,
        estimated_max_days: i64,
    },
}

/// The id of a shipping option.
pub open spec fn shipping_id(o: PubkyAppShippingOption) -> Seq<char> {
    match o {
        PubkyAppShippingOption::Free { id, .. } => id@,
        PubkyAppShippingOption::Flat { id, .. } => id@,
        PubkyAppShippingOption::Calculated { id, .. } => id@,
    }
}

/// The label and delivery estimates of a shipping option.
pub open spec fn shipping_common(o: PubkyAppShippingOption) -> (Seq<char>, i64, i64) {
    match o {
        PubkyAppShippingOption::Free { label, estimated_min_days, estimated_max_days, .. } => (
            label@,
            estimated_min_days,
            estimated_max_days,
        ),
        PubkyAppShippingOption::Flat { label, estimated_min_days, estimated_max_days, .. } => (
            label@,
            estimated_min_days,
            estimated_max_days,
        ),
        PubkyAppShippingOption::Calculated {
            label,
            estimated_min_days,
            estimated_max_days,
            ..
        } => (label@, estimated_min_days, estimated_max_days),
    }
}

/// The outcome of the checks particular to each pricing kind.
pub open spec fn shipping_kind_check(o: PubkyAppShippingOption) -> Result<(), Seq<char>> {
    match o {
        PubkyAppShippingOption::Free { id, .. } => entity_id_check(id@, "shipping option id"@),
        PubkyAppShippingOption::Flat { id, price, .. } => and_then(
            entity_id_check(id@, "shipping option id"@),
            money_non_negative_check(price, "shipping price"@),
        ),
        PubkyAppShippingOption::Calculated { id, provider, service_code, .. } => and_then(
            entity_id_check(id@, "shipping option id"@),
            if !(1 <= provider@.len() <= 50) {
                Err("Validation Error: shipping provider must be 1-50 characters"@)
            } else if !(1 <= service_code@.len() <= 100) {
                Err("Validation Error: shipping serviceCode must be 1-100 characters"@)
            } else {
                Ok(())
            },
        ),
    }
}

/// The outcome of validating a shipping option on its own.
pub open spec fn shipping_check(o: PubkyAppShippingOption) -> Result<(), Seq<char>> {
    let (label, min_days, max_days) = shipping_common(o);
    and_then(
        shipping_kind_check(o),
        if !(1 <= label.len() <= 100) {
            Err("Validation Error: shipping label must be 1-100 characters"@)
        } else if !(0 <= min_days <= 365) || !(0 <= max_days <= 365) {
            Err("Validation Error: delivery estimates must be between 0 and 365 days"@)
        } else if max_days < min_days {
            Err("Validation Error: maximum delivery estimate must not precede the minimum"@)
        } else {
            Ok(())
        },
    )
}

/// A shipping option with its texts trimmed (the label, and for a
/// calculated rate its provider and service code).
pub open spec fn shipping_sanitized(o: PubkyAppShippingOption, r: PubkyAppShippingOption) -> bool {
    match (o, r) {
        (
            PubkyAppShippingOption::Free { id, label, estimated_min_days, estimated_max_days },
            PubkyAppShippingOption::Free {
                id: id2,
                label: label2,
                estimated_min_days: min2,
                estimated_max_days: max2,
            },
        ) => id2 == id && label2@ == trim(label@) && min2 == estimated_min_days && max2
            == estimated_max_days,
        (
            PubkyAppShippingOption::Flat {
                id,
                label,
                price,
                estimated_min_days,
                estimated_max_days,
            },
            PubkyAppShippingOption::Flat {
                id: id2,
                label: label2,
                price: price2,
                estimated_min_days: min2,
                estimated_max_days: max2,
            },
        ) => id2 == id && label2@ == trim(label@) && price2 == price && min2 == estimated_min_days
            && max2 == estimated_max_days,
        (
            PubkyAppShippingOption::Calculated {
                id,
                label,
                provider,
                service_code,
                estimated_min_days,
                estimated_max_days,
            },
            PubkyAppShippingOption::Calculated {
                id: id2,
                label: label2,
                provider: provider2,
                service_code: service_code2,
                estimated_min_days: min2,
                estimated_max_days: max2,
            },
        ) => id2 == id && label2@ == trim(label@) && provider2@ == trim(provider@)
            && service_code2@ == trim(service_code@) && min2 == estimated_min_days && max2
            == estimated_max_days,
        _ => false,
    }
}

impl PubkyAppShippingOption {
    /// The option's id.
    pub fn id(&self) -> (r: &str)
        ensures
            r@ == shipping_id(*self),
    {
        match self {
            PubkyAppShippingOption::Free { id, .. } => id.as_str(),
            PubkyAppShippingOption::Flat { id, .. } => id.as_str(),
            PubkyAppShippingOption::Calculated { id, .. } => id.as_str(),
        }
    }

    /// The option with its texts trimmed.
    pub fn sanitize(self) -> (r: Self)
        ensures
            shipping_sanitized(self, r),
    {
        match self {
            PubkyAppShippingOption::Free { id, label, estimated_min_days, estimated_max_days } => {
                PubkyAppShippingOption::Free {
                    id,
                    label: trim_str(label.as_str()),
                    estimated_min_days,
                    estimated_max_days,
                }
            },
            PubkyAppShippingOption::Flat {
                id,
                label,
                price,
                estimated_min_days,
                estimated_max_days,
            } => PubkyAppShippingOption::Flat {
                id,
                label: trim_str(label.as_str()),
                price,
                estimated_min_days,
                estimated_max_days,
            },
            PubkyAppShippingOption::Calculated {
                id,
                label,
                provider,
                service_code,
                estimated_min_days,
                estimated_max_days,
            } => PubkyAppShippingOption::Calculated {
                id,
                label: trim_str(label.as_str()),
                provider: trim_str(provider.as_str()),
                service_code: trim_str(service_code.as_str()),
                estimated_min_days,
                estimated_max_days,
            },
        }
    }

    /// Validates the shipping option on its own.
    pub fn validate(&self) -> (r: Result<(), String>)
        ensures
            outcome(r) == shipping_check(*self),
            r is Ok ==> shipping_option_holds(*self),
    {
        proof {
            if shipping_check(*self) is Ok {
                lemma_valid_shipping_option(*self);
            }
        }
        let (label, min_days, max_days) = match self {
            PubkyAppShippingOption::Free { id, label, estimated_min_days, estimated_max_days } => {
                validate_entity_id(id.as_str(), "shipping option id")?;
                (label, *estimated_min_days, *estimated_max_days)
            },
            PubkyAppShippingOption::Flat {
                id,
                label,
                price,
                estimated_min_days,
                estimated_max_days,
            } => {
                validate_entity_id(id.as_str(), "shipping option id")?;
                price.validate_non_negative("shipping price")?;
                (label, *estimated_min_days, *estimated_max_days)
            },
            PubkyAppShippingOption::Calculated {
                id,
                label,
                provider,
                service_code,
                estimated_min_days,
                estimated_max_days,
            } => {
                validate_entity_id(id.as_str(), "shipping option id")?;
                let provider_length = char_count(provider.as_str());
                if !(1 <= provider_length && provider_length <= 50) {
                    return Err(
                        owned("Validation Error: shipping provider must be 1-50 characters"),
                    );
                }
                let service_code_length = char_count(service_code.as_str());
                if !(1 <= service_code_length && service_code_length <= 100) {
                    return Err(
                        owned("Validation Error: shipping serviceCode must be 1-100 characters"),
                    );
                }
                (label, *estimated_min_days, *estimated_max_days)
            },
        };
        let label_length = char_count(label.as_str());
        if !(1 <= label_length && label_length <= 100) {
            return Err(owned("Validation Error: shipping label must be 1-100 characters"));
        }
        if !(0 <= min_days && min_days <= 365) || !(0 <= max_days && max_days <= 365) {
            return Err(
                owned("Validation Error: delivery estimates must be between 0 and 365 days"),
            );
        }
        if max_days < min_days {
            return Err(
                owned("Validation Error: maximum delivery estimate must not precede the minimum"),
            );
        }
        Ok(())
    }
}

// ---------------------------------------------------------------------------
// Package, return policy, digital lock
// ---------------------------------------------------------------------------

/// The packed item's weight and dimensions.
#[derive(Debug, Clone, PartialEq)]
pub struct PubkyAppListingPackage {
    pub weight_grams: i64,
    pub length_millimeters: i64,
    pub width_millimeters: i64,
    pub height_millimeters: i64,
}

/// The outcome of validating package facts.
pub open spec fn package_check(p: PubkyAppListingPackage) -> Result<(), Seq<char>> {
    if !(1 <= p.weight_grams <= 1_000_000) {
        Err("Validation Error: package weightGrams must be between 1 and 1000000"@)
    } else if !(1 <= p.length_millimeters <= 100_000) || !(1 <= p.width_millimeters <= 100_000)
        || !(1 <= p.height_millimeters <= 100_000) {
        Err("Validation Error: package dimensions must be between 1 and 100000 millimeters"@)
    } else {
        Ok(())
    }
}

impl PubkyAppListingPackage {
    /// Validates the package facts.
    pub fn validate(&self) -> (r: Result<(), String>)
        ensures
            outcome(r) == package_check(*self),
            r is Ok ==> package_holds(*self),
    {
        if !(1 <= self.weight_grams && self.weight_grams <= 1_000_000) {
            return Err(
                owned("Validation Error: package weightGrams must be between 1 and 1000000"),
            );
        }
        if !(1 <= self.length_millimeters && self.length_millimeters <= 100_000) || !(1
            <= self.width_millimeters && self.width_millimeters <= 100_000) || !(1
            <= self.height_millimeters && self.height_millimeters <= 100_000) {
            return Err(
                owned(
                    "Validation Error: package dimensions must be between 1 and 100000 millimeters",
                ),
            );
        }
        Ok(())
    }
}

/// The seller's return policy.
#[derive(Debug, Clone, PartialEq)]
pub struct PubkyAppReturnPolicy {
    pub accepts_returns: bool,
    pub return_window_days: Option<i64>,
    pub buyer_pays_return_shipping: bool,
    pub details: Option<String>,
}

/// The outcome of validating a return policy.
pub open spec fn return_policy_check(p: PubkyAppReturnPolicy) -> Result<(), Seq<char>> {
    match (p.accepts_returns, p.return_window_days) {
        (true, None) => Err(
            "Validation Error: a return window is required when returns are accepted"@,
        ),
        (false, Some(_)) => Err(
            "Validation Error: a return window cannot be set when returns are not accepted"@,
        ),
        (true, Some(d)) if !(1 <= d <= 365) => Err(
            "Validation Error: returnWindowDays must be between 1 and 365"@,
        ),
        _ => match p.details {
            Some(d) => if d@.len() > 4000 {
                Err("Validation Error: return policy details exceed maximum length of 4000"@)
            } else {
                Ok(())
            },
            None => Ok(()),
        },
    }
}

impl PubkyAppReturnPolicy {
    /// The policy with its details trimmed.
    pub fn sanitize(self) -> (r: Self)
        ensures
            r.accepts_returns == self.accepts_returns,
            r.return_window_days == self.return_window_days,
            r.buyer_pays_return_shipping == self.buyer_pays_return_shipping,
            opt_view(r.details) == trim_opt_spec(opt_view(self.details)),
    {
        let details = trim_opt(&self.details);
        PubkyAppReturnPolicy { details, ..self }
    }

    /// Validates the return policy.
    pub fn validate(&self) -> (r: Result<(), String>)
        ensures
            outcome(r) == return_policy_check(*self),
            r is Ok ==> return_policy_holds(*self),
    {
        match (self.accepts_returns, self.return_window_days) {
            (true, None) => {
                return Err(
                    owned("Validation Error: a return window is required when returns are accepted"),
                );
            },
            (false, Some(_)) => {
                return Err(
                    owned(
                        "Validation Error: a return window cannot be set when returns are not accepted",
                    ),
                );
            },
            (true, Some(d)) => {
                if !(1 <= d && d <= 365) {
                    return Err(
                        owned("Validation Error: returnWindowDays must be between 1 and 365"),
                    );
                }
            },
            _ => {},
        }
        match &self.details {
            Some(d) => {
                if char_count(d.as_str()) > 4000 {
                    return Err(
                        owned(
                            "Validation Error: return policy details exceed maximum length of 4000",
                        ),
                    );
                }
            },
            None => {},
        }
        Ok(())
    }
}

/// The Locks policy gating a digital item.
#[derive(Debug, Clone, PartialEq)]
pub struct PubkyAppDigitalLock {
    pub policy_uri: String,
    pub criterion_id: String,
    pub resource_hash: String,
    pub minimum_confirmations: i64,
}

/// The criterion id a digital lock names when none is given.
pub fn default_criterion_id() -> (r: String)
    ensures
        r@ == "criterion-1"@,
{
    owned("criterion-1")
}

/// The outcome of validating a digital lock.
pub open spec fn digital_lock_check(l: PubkyAppDigitalLock) -> Result<(), Seq<char>> {
    and_then(
        locks_uri_check(l.policy_uri@, "digitalLock policyUri"@),
        and_then(
            entity_id_check(l.criterion_id@, "digitalLock criterionId"@),
            and_then(
                hex_hash_check(l.resource_hash@, "digitalLock resourceHash"@),
                if !(0 <= l.minimum_confirmations <= 6) {
                    Err(
                        "Validation Error: digitalLock minimumConfirmations must be between 0 and 6"@,
                    )
                } else {
                    Ok(())
                },
            ),
        ),
    )
}

impl PubkyAppDigitalLock {
    /// Validates the digital lock.
    pub fn validate(&self) -> (r: Result<(), String>)
        ensures
            outcome(r) == digital_lock_check(*self),
            r is Ok ==> digital_lock_holds(*self),
    {
        proof {
            if digital_lock_check(*self) is Ok {
                lemma_valid_digital_lock(*self);
            }
        }
        validate_locks_uri(self.policy_uri.as_str(), "digitalLock policyUri")?;
        validate_entity_id(self.criterion_id.as_str(), "digitalLock criterionId")?;
        validate_hex_hash(self.resource_hash.as_str(), "digitalLock resourceHash")?;
        if !(0 <= self.minimum_confirmations && self.minimum_confirmations <= 6) {
            return Err(
                owned(
                    "Validation Error: digitalLock minimumConfirmations must be between 0 and 6",
                ),
            );
        }
        Ok(())
    }
}

// ---------------------------------------------------------------------------
// Identifiers made of lowercase words
// ---------------------------------------------------------------------------

/// A separator of a word identifier: `-`, and `_` when `underscore`.
pub open spec fn is_separator(c: char, underscore: bool) -> bool {
    c == '-' || (underscore && c == '_')
}

/// Positions `i` and `i + 1` of `s` both hold separators.
pub open spec fn separators_at(s: Seq<char>, i: int, underscore: bool) -> bool {
    is_separator(s[i], underscore) && is_separator(s[i + 1], underscore)
}

/// A character of a word identifier.
pub open spec fn is_word_char(c: char, underscore: bool) -> bool {
    is_ascii_lower(c) || is_ascii_digit(c) || is_separator(c, underscore)
}

/// A separator-delimited identifier: every character is a lowercase letter,
/// a digit or a separator, and splitting at the separators gives no empty
/// part (no leading, trailing or doubled separator).
pub open spec fn is_word_identifier(s: Seq<char>, underscore: bool) -> bool {
    &&& s.len() > 0
    &&& forall|i: int| 0 <= i < s.len() ==> #[trigger] is_word_char(s[i], underscore)
    &&& !is_separator(s[0], underscore)
    &&& !is_separator(s.last(), underscore)
    &&& forall|i: int| 0 <= i < s.len() - 1 ==> !#[trigger] separators_at(s, i, underscore)
}

/// Whether `v` is a separator-delimited lowercase identifier.
pub fn word_identifier(v: &Vec<char>, underscore: bool) -> (r: bool)
    ensures
        r == is_word_identifier(v@, underscore),
{
    if v.len() == 0 {
        return false;
    }
    let mut i: usize = 0;
    while i < v.len()
        invariant
            0 < v.len(),
            i <= v.len(),
            forall|j: int| 0 <= j < i ==> #[trigger] is_word_char(v@[j], underscore),
            forall|j: int| 0 <= j < i && j < v.len() - 1 ==> !#[trigger] separators_at(v@, j, underscore),
        decreases v.len() - i,
    {
        let c = v[i];
        let sep = c == '-' || (underscore && c == '_');
        if !(ascii_lower(c) || ascii_digit(c) || sep) {
            assert(!is_word_char(v@[i as int], underscore));
            return false;
        }
        if i + 1 < v.len() {
            let d = v[i + 1];
            if sep && (d == '-' || (underscore && d == '_')) {
                assert(separators_at(v@, i as int, underscore));
                return false;
            }
        }
        i = i + 1;
    }
    let first = v[0];
    let last = v[v.len() - 1];
    !(first == '-' || (underscore && first == '_')) && !(last == '-' || (underscore && last
        == '_'))
}

/// The outcome of validating a kebab-case category id.
pub open spec fn category_check(s: Seq<char>) -> Result<(), Seq<char>> {
    if !(1 <= s.len() <= 120) {
        Err("Validation Error: categoryId must be 1-120 characters"@)
    } else if !is_word_identifier(s, false) {
        Err("Validation Error: categoryId must be a kebab-case identifier"@)
    } else {
        Ok(())
    }
}

/// Validates a kebab-case category id.
pub fn validate_kebab_case_category(value: &str) -> (r: Result<(), String>)
    ensures
        outcome(r) == category_check(value@),
{
    let v = chars_of(value);
    if !(1 <= v.len() && v.len() <= 120) {
        return Err(owned("Validation Error: categoryId must be 1-120 characters"));
    }
    if !word_identifier(&v, false) {
        return Err(owned("Validation Error: categoryId must be a kebab-case identifier"));
    }
    Ok(())
}

/// The outcome of validating an attribute key.
pub open spec fn attribute_key_check(s: Seq<char>) -> Result<(), Seq<char>> {
    if !(1 <= s.len() <= 40) {
        Err("Validation Error: attribute keys must be 1-40 characters"@)
    } else if !is_word_identifier(s, true) {
        Err("Validation Error: attribute keys must be lowercase alphanumeric identifiers"@)
    } else {
        Ok(())
    }
}

/// Validates an attribute key: lowercase alphanumeric parts separated by
/// single `-` or `_`.
pub fn validate_attribute_key(key: &str) -> (r: Result<(), String>)
    ensures
        outcome(r) == attribute_key_check(key@),
{
    let v = chars_of(key);
    if !(1 <= v.len() && v.len() <= 40) {
        return Err(owned("Validation Error: attribute keys must be 1-40 characters"));
    }
    if !word_identifier(&v, true) {
        return Err(
            owned("Validation Error: attribute keys must be lowercase alphanumeric identifiers"),
        );
    }
    Ok(())
}

// ---------------------------------------------------------------------------
// Attribute values
// ---------------------------------------------------------------------------

/// The value of a category attribute: one text, or several.
#[derive(Debug, Clone, PartialEq)]
pub enum PubkyAppListingAttributeValue {
    One(String),
    Many(Vec<String>),
}

/// The outcome of checking one text of attribute `key`.
pub open spec fn attribute_entry_check(value: Seq<char>, key: Seq<char>) -> Result<(), Seq<char>> {
    if 1 <= value.len() <= 80 {
        Ok(())
    } else {
        Err("Validation Error: attribute '"@ + key + "' values must be 1-80 characters"@)
    }
}

/// The rule each text of an attribute value obeys.
pub open spec fn attribute_entry_rule(key: Seq<char>) -> spec_fn(String) -> Result<(), Seq<char>> {
    |value: String| attribute_entry_check(value@, key)
}

/// The outcome of validating the value of attribute `key`.
pub open spec fn attribute_value_check(v: PubkyAppListingAttributeValue, key: Seq<char>) -> Result<(), Seq<char>> {
    match v {
        PubkyAppListingAttributeValue::One(value) => attribute_entry_check(value@, key),
        PubkyAppListingAttributeValue::Many(values) => if !(1 <= values@.len() <= 10) {
            Err("Validation Error: attribute '"@ + key + "' supports 1-10 values"@)
        } else {
            and_then(
                each_check(values@, attribute_entry_rule(key)),
                unique_check(views(values@), "attribute '"@ + key + "' values"@),
            )
        },
    }
}

/// The trimmed texts of an attribute value.
pub open spec fn attribute_value_trimmed(v: PubkyAppListingAttributeValue, r: PubkyAppListingAttributeValue) -> bool {
    match (v, r) {
        (PubkyAppListingAttributeValue::One(a), PubkyAppListingAttributeValue::One(b)) => b@
            == trim(a@),
        (PubkyAppListingAttributeValue::Many(a), PubkyAppListingAttributeValue::Many(b)) => views(
            b@,
        ) == views(a@).map_values(|s: Seq<char>| trim(s)),
        _ => false,
    }
}

fn check_attribute_entry(value: &str, key: &str) -> (r: Result<(), String>)
    ensures
        outcome(r) == attribute_entry_check(value@, key@),
{
    let length = char_count(value);
    if !(1 <= length && length <= 80) {
        return Err(concat3("Validation Error: attribute '", key, "' values must be 1-80 characters"));
    }
    Ok(())
}

impl PubkyAppListingAttributeValue {
    /// The value with its texts trimmed.
    pub fn sanitize(self) -> (r: Self)
        ensures
            attribute_value_trimmed(self, r),
    {
        match self {
            PubkyAppListingAttributeValue::One(value) => PubkyAppListingAttributeValue::One(
                trim_str(value.as_str()),
            ),
            PubkyAppListingAttributeValue::Many(values) => {
                let mut out: Vec<String> = Vec::new();
                let mut i: usize = 0;
                while i < values.len()
                    invariant
                        i <= values.len(),
                        out@.len() == i,
                        forall|j: int| 0 <= j < i ==> (#[trigger] out@[j])@ == trim(values@[j]@),
                    decreases values.len() - i,
                {
                    out.push(trim_str(values[i].as_str()));
                    i = i + 1;
                }
                assert(views(out@) =~= views(values@).map_values(|s: Seq<char>| trim(s)));
                PubkyAppListingAttributeValue::Many(out)
            },
        }
    }

    /// Validates the value of attribute `key`.
    pub fn validate(&self, key: &str) -> (r: Result<(), String>)
        ensures
            outcome(r) == attribute_value_check(*self, key@),
    {
        match self {
            PubkyAppListingAttributeValue::One(value) => check_attribute_entry(value.as_str(), key),
            PubkyAppListingAttributeValue::Many(values) => {
                if !(1 <= values.len() && values.len() <= 10) {
                    return Err(concat3("Validation Error: attribute '", key, "' supports 1-10 values"));
                }
                let ghost f = attribute_entry_rule(key@);
                let ghost u = unique_check(views(values@), "attribute '"@ + key@ + "' values"@);
                assert(values@.skip(0) =~= values@);
                assert(attribute_value_check(*self, key@) == and_then(each_check(values@, f), u));
                let mut i: usize = 0;
                while i < values.len()
                    invariant
                        i <= values.len(),
                        f == attribute_entry_rule(key@),
                        attribute_value_check(*self, key@) == and_then(each_check(values@, f), u),
                        each_check(values@, f) == each_check(values@.skip(i as int), f),
                    decreases values.len() - i,
                {
                    proof {
                        lemma_each_check_step(values@, f, i as int);
                    }
                    check_attribute_entry(values[i].as_str(), key)?;
                    i = i + 1;
                }
                proof {
                    lemma_each_check_end(values@, f);
                }
                let what = concat3("attribute '", key, "' values");
                ensure_unique(values, what.as_str())
            },
        }
    }
}

// ---------------------------------------------------------------------------
// Sanitizing twice
// ---------------------------------------------------------------------------

/// Every key a sequence of pairs collects is one of its keys, with the
/// value of one of its pairs.
pub proof fn lemma_pairs_map_entry(p: Seq<(Seq<char>, Seq<char>)>, k: Seq<char>)
    requires
        pairs_map(p).dom().contains(k),
    ensures
        exists|i: int| 0 <= i < p.len() && p[i].0 == k && p[i].1 == pairs_map(p)[k],
    decreases p.len(),
{
    if p.len() > 0 {
        if p.last().0 == k {
            assert(p[p.len() - 1].0 == k);
        } else {
            lemma_pairs_map_entry(p.drop_last(), k);
            let i = choose|i: int|
                0 <= i < p.drop_last().len() && p.drop_last()[i].0 == k && p.drop_last()[i].1
                    == pairs_map(p.drop_last())[k];
            assert(p[i] == p.drop_last()[i]);
        }
    }
}

/// A sorted listing of a map collects back into that map.
pub proof fn lemma_sorted_listing_collects(r: Seq<(Seq<char>, Seq<char>)>, m: Map<Seq<char>, Seq<char>>)
    requires
        lists_map_sorted(r, m),
    ensures
        pairs_map(r) == m,
    decreases r.len(),
{
    if r.len() == 0 {
        assert(m =~= Map::empty());
    } else {
        let n = r.len() - 1;
        let k = r[n].0;
        let q = r.drop_last();
        let m2 = m.remove(k);
        assert forall|i: int| 0 <= i < q.len() implies m2.dom().contains(#[trigger] q[i].0)
            && m2[q[i].0] == q[i].1 by {
            assert(q[i] == r[i]);
            assert(seq_less(r[i].0, r[n].0));
            if r[i].0 == k {
                lemma_less_irreflexive(k);
            }
        }
        assert forall|k2: Seq<char>| #[trigger] m2.dom().contains(k2) implies exists|i: int|
            0 <= i < q.len() && q[i].0 == k2 by {
            assert(m.dom().contains(k2));
            let i = choose|i: int| 0 <= i < r.len() && r[i].0 == k2;
            assert(i != n);
            assert(q[i] == r[i]);
        }
        assert forall|i: int, j: int| 0 <= i < j < q.len() implies seq_less(
            #[trigger] q[i].0,
            #[trigger] q[j].0,
        ) by {
            assert(q[i] == r[i] && q[j] == r[j]);
        }
        lemma_sorted_listing_collects(q, m2);
        assert(m.dom().contains(k) && m[k] == r[n].1);
        assert(pairs_map(r) =~= m);
    }
}

/// Options re-collected from trimmed pairs are trimmed already.
proof fn lemma_collected_trimmed(opts: Seq<(String, String)>, r: Seq<(String, String)>, i: int)
    requires
        lists_map_sorted(pair_views(r), pairs_map(trimmed_pairs(opts))),
        0 <= i < r.len(),
    ensures
        trim(r[i].0@) == r[i].0@,
        trim(r[i].1@) == r[i].1@,
{
    let pv = pair_views(r);
    let p = trimmed_pairs(opts);
    assert(pv[i] == (r[i].0@, r[i].1@));
    lemma_pairs_map_entry(p, pv[i].0);
    let j = choose|j: int| 0 <= j < p.len() && p[j].0 == pv[i].0 && p[j].1 == pairs_map(p)[pv[i].0];
    lemma_trim_idempotent(opts[j].0@);
    lemma_trim_idempotent(opts[j].1@);
}

/// Sanitizing a sanitized variant again gives a sanitization of the
/// original variant.
pub proof fn lemma_variant_sanitize_twice(a: PubkyAppListingVariant, b: PubkyAppListingVariant, c: PubkyAppListingVariant)
    requires
        variant_sanitized(a, b),
        variant_sanitized(b, c),
    ensures
        variant_sanitized(a, c),
{
    let m = pairs_map(trimmed_pairs(a.options@));
    lemma_sorted_listing_collects(pair_views(b.options@), m);
    assert forall|i: int| 0 <= i < b.options@.len() implies #[trigger] trimmed_pairs(b.options@)[i]
        == pair_views(b.options@)[i] by {
        lemma_collected_trimmed(a.options@, b.options@, i);
    }
    assert(trimmed_pairs(b.options@) =~= pair_views(b.options@));
    match a.sku {
        Some(s) => lemma_trim_idempotent(s@),
        None => {},
    }
}

/// A variant with its SKU trimmed and its options re-collected trimmed.
pub open spec fn variant_sanitized(a: PubkyAppListingVariant, b: PubkyAppListingVariant) -> bool {
    &&& b.id == a.id
    &&& opt_view(b.sku) == trim_opt_spec(opt_view(a.sku))
    &&& lists_map_sorted(pair_views(b.options@), pairs_map(trimmed_pairs(a.options@)))
    &&& b.price_override == a.price_override
    &&& b.quantity == a.quantity
    &&& b.media_ids == a.media_ids
    &&& b.enabled == a.enabled
}

/// Trimming a trimmed shipping option again gives a trim of the original.
pub proof fn lemma_shipping_sanitize_twice(a: PubkyAppShippingOption, b: PubkyAppShippingOption, c: PubkyAppShippingOption)
    requires
        shipping_sanitized(a, b),
        shipping_sanitized(b, c),
    ensures
        shipping_sanitized(a, c),
{
    match a {
        PubkyAppShippingOption::Free { label, .. } => lemma_trim_idempotent(label@),
        PubkyAppShippingOption::Flat { label, .. } => lemma_trim_idempotent(label@),
        PubkyAppShippingOption::Calculated { label, provider, service_code, .. } => {
            lemma_trim_idempotent(label@);
            lemma_trim_idempotent(provider@);
            lemma_trim_idempotent(service_code@);
        },
    }
}

/// Trimming an attribute value twice trims it once.
pub proof fn lemma_attribute_value_trim_twice(
    a: PubkyAppListingAttributeValue,
    b: PubkyAppListingAttributeValue,
    c: PubkyAppListingAttributeValue,
)
    requires
        attribute_value_trimmed(a, b),
        attribute_value_trimmed(b, c),
    ensures
        attribute_value_trimmed(a, c),
{
    match (a, b, c) {
        (
            PubkyAppListingAttributeValue::One(x),
            PubkyAppListingAttributeValue::One(_),
            PubkyAppListingAttributeValue::One(_),
        ) => lemma_trim_idempotent(x@),
        (
            PubkyAppListingAttributeValue::Many(x),
            PubkyAppListingAttributeValue::Many(y),
            PubkyAppListingAttributeValue::Many(z),
        ) => {
            assert forall|i: int| 0 <= i < views(x@).len() implies #[trigger] views(z@)[i] == trim(
                views(x@)[i],
            ) by {
                lemma_trim_idempotent(views(x@)[i]);
                assert(views(y@)[i] == trim(views(x@)[i]));
            }
            assert(views(z@) =~= views(x@).map_values(|s: Seq<char>| trim(s)));
        },
        _ => {},
    }
}

// ---------------------------------------------------------------------------
// What the component rules keep
// ---------------------------------------------------------------------------

/// A valid media entry: a path-safe id, a 64-character content hash, a
/// positive safe byte size, width and height, and an alt text of 1-300
/// characters.
pub open spec fn media_holds(m: PubkyAppListingMedia) -> bool {
    &&& entity_id_holds(m.id@)
    &&& m.content_hash@.len() == 64
    &&& 1 <= m.byte_size <= MAX_SAFE_INTEGER
    &&& 1 <= m.width <= MAX_SAFE_INTEGER
    &&& 1 <= m.height <= MAX_SAFE_INTEGER
    &&& 1 <= m.alt_text@.len() <= 300
}

/// A valid shipping option: a label of 1-100 characters and delivery
/// estimates with `0 <= min <= max <= 365` days.
pub open spec fn shipping_option_holds(o: PubkyAppShippingOption) -> bool {
    let (label, min_days, max_days) = shipping_common(o);
    1 <= label.len() <= 100 && 0 <= min_days <= max_days <= 365
}

/// Valid package facts: 1-1000000 grams and each dimension 1-100000
/// millimeters.
pub open spec fn package_holds(p: PubkyAppListingPackage) -> bool {
    &&& 1 <= p.weight_grams <= 1_000_000
    &&& 1 <= p.length_millimeters <= 100_000
    &&& 1 <= p.width_millimeters <= 100_000
    &&& 1 <= p.height_millimeters <= 100_000
}

/// A valid return policy: a return window exactly when returns are
/// accepted, of 1-365 days, and details of at most 4000 characters.
pub open spec fn return_policy_holds(p: PubkyAppReturnPolicy) -> bool {
    &&& p.accepts_returns <==> p.return_window_days is Some
    &&& (p.return_window_days matches Some(d) ==> 1 <= d <= 365)
    &&& (p.details matches Some(d) ==> d@.len() <= 4000)
}

/// A valid digital lock: a path-safe criterion id, a 64-character resource
/// hash and 0-6 confirmations.
pub open spec fn digital_lock_holds(l: PubkyAppDigitalLock) -> bool {
    &&& entity_id_holds(l.criterion_id@)
    &&& l.resource_hash@.len() == 64
    &&& 0 <= l.minimum_confirmations <= 6
}

/// A media entry that validates keeps its fields.
pub proof fn lemma_valid_media(m: PubkyAppListingMedia)
    requires
        media_check(m) is Ok,
    ensures
        media_holds(m),
{
    lemma_field_checks_iff(m.id@, "media id"@);
}

/// A shipping option that validates keeps its fields.
pub proof fn lemma_valid_shipping_option(o: PubkyAppShippingOption)
    requires
        shipping_check(o) is Ok,
    ensures
        shipping_option_holds(o),
{
}

/// A digital lock that validates keeps its fields.
pub proof fn lemma_valid_digital_lock(l: PubkyAppDigitalLock)
    requires
        digital_lock_check(l) is Ok,
    ensures
        digital_lock_holds(l),
{
    lemma_field_checks_iff(l.criterion_id@, "digitalLock criterionId"@);
}

} // verus!

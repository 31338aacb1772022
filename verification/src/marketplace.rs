//! Shared marketplace primitives: integer money, coarse locations, the
//! identifier and URI formats, the fields common to every marketplace record
//! and RFC 3339 datetimes.
use vstd::prelude::*;
use crate::encoding::{all_zbase32, is_zbase32_char, zb32_value};
use crate::text::{
    is_path_safe,
    all_ascii_upper, all_lower_hex, all_path_safe, all_upper_alnum, all_uri_path_chars, ascii_digit,
    ascii_upper, char_count, chars_of, check_all_ascii_upper, check_all_lower_hex,
    check_all_path_safe, check_all_upper_alnum, check_all_uri_path_chars, concat2, concat3,
    is_ascii_digit, is_ascii_upper, is_lower_hex, opt_view, outcome, owned, str_eq, trim_opt,
    trim_opt_spec,
};

verus! {

/// Version literal shared by every marketplace record (`schemaVersion`).
pub const MARKETPLACE_SCHEMA_VERSION: i64 = 1;

/// Largest integer safely representable by JS clients (`Number.MAX_SAFE_INTEGER`).
pub const MAX_SAFE_INTEGER: i64 = 9_007_199_254_740_991;

/// `1 <= v <= MAX_SAFE_INTEGER`.
pub open spec fn positive_safe(v: int) -> bool {
    1 <= v <= MAX_SAFE_INTEGER
}

// ---------------------------------------------------------------------------
// Money
// ---------------------------------------------------------------------------

/// Integer money in minor units, e.g. cents or satoshis.
///
/// `amount_minor` is always an integer amount of the smallest unit,
/// `currency` is an uppercase asset code and `exponent` the number of
/// decimal places between minor and major units.
#[derive(Debug, Clone, PartialEq)]
pub struct PubkyAppMoney {
    pub amount_minor: i64,
    pub currency: String,
    pub exponent: i64,
}

/// An uppercase asset code: 3-12 characters, a leading uppercase letter,
/// then uppercase letters or digits.
pub open spec fn is_asset_code(c: Seq<char>) -> bool {
    3 <= c.len() <= 12 && is_ascii_upper(c[0]) && all_upper_alnum(c)
}

/// The outcome of checking a money value's asset (currency and exponent).
pub open spec fn asset_check(currency: Seq<char>, exponent: int, field: Seq<char>) -> Result<(), Seq<char>> {
    if !(3 <= currency.len() <= 12) {
        Err("Validation Error: "@ + field + " currency must be 3-12 characters"@)
    } else if !(is_ascii_upper(currency[0]) && all_upper_alnum(currency)) {
        Err("Validation Error: "@ + field + " currency must be an uppercase asset code"@)
    } else if !(0 <= exponent <= 18) {
        Err("Validation Error: "@ + field + " exponent must be between 0 and 18"@)
    } else {
        Ok(())
    }
}

/// The outcome of `validate_non_negative` on a money value.
pub open spec fn money_non_negative_check(m: PubkyAppMoney, field: Seq<char>) -> Result<(), Seq<char>> {
    if !(0 <= m.amount_minor <= MAX_SAFE_INTEGER) {
        Err("Validation Error: "@ + field + " amountMinor must be a non-negative safe integer"@)
    } else {
        asset_check(m.currency@, m.exponent as int, field)
    }
}

/// The outcome of `validate_positive` on a money value.
pub open spec fn money_positive_check(m: PubkyAppMoney, field: Seq<char>) -> Result<(), Seq<char>> {
    if !positive_safe(m.amount_minor as int) {
        Err("Validation Error: "@ + field + " amountMinor must be a positive safe integer"@)
    } else {
        asset_check(m.currency@, m.exponent as int, field)
    }
}

/// Two amounts share an asset when currency code and exponent agree.
pub open spec fn same_asset_spec(a: PubkyAppMoney, b: PubkyAppMoney) -> bool {
    a.currency@ == b.currency@ && a.exponent == b.exponent
}

impl PubkyAppMoney {
    /// Validates a non-negative amount (`amountMinor >= 0`).
    pub fn validate_non_negative(&self, field: &str) -> (r: Result<(), String>)
        ensures
            outcome(r) == money_non_negative_check(*self, field@),
    {
        if !(0 <= self.amount_minor && self.amount_minor <= MAX_SAFE_INTEGER) {
            return Err(
                concat3("Validation Error: ", field, " amountMinor must be a non-negative safe integer"),
            );
        }
        self.validate_asset(field)
    }

    /// Validates a strictly positive amount (`amountMinor > 0`).
    pub fn validate_positive(&self, field: &str) -> (r: Result<(), String>)
        ensures
            outcome(r) == money_positive_check(*self, field@),
    {
        if !(1 <= self.amount_minor && self.amount_minor <= MAX_SAFE_INTEGER) {
            return Err(
                concat3("Validation Error: ", field, " amountMinor must be a positive safe integer"),
            );
        }
        self.validate_asset(field)
    }

    /// Returns true when both amounts use the same currency code and exponent.
    pub fn same_asset(&self, other: &PubkyAppMoney) -> (r: bool)
        ensures
            r == same_asset_spec(*self, *other),
    {
        str_eq(self.currency.as_str(), other.currency.as_str()) && self.exponent == other.exponent
    }

    fn validate_asset(&self, field: &str) -> (r: Result<(), String>)
        ensures
            outcome(r) == asset_check(self.currency@, self.exponent as int, field@),
    {
        let chars = chars_of(self.currency.as_str());
        let length = chars.len();
        if !(3 <= length && length <= 12) {
            return Err(concat3("Validation Error: ", field, " currency must be 3-12 characters"));
        }
        if !(ascii_upper(chars[0]) && check_all_upper_alnum(&chars)) {
            return Err(
                concat3("Validation Error: ", field, " currency must be an uppercase asset code"),
            );
        }
        if !(0 <= self.exponent && self.exponent <= 18) {
            return Err(
                concat3("Validation Error: ", field, " exponent must be between 0 and 18"),
            );
        }
        Ok(())
    }
}

// ---------------------------------------------------------------------------
// Location
// ---------------------------------------------------------------------------

/// Coarse public location attached to shops and listings.
#[derive(Debug, Clone, PartialEq)]
pub struct PubkyAppMarketplaceLocation {
    pub country_code: String,
    pub region: Option<String>,
}

/// The outcome of validating a location.
pub open spec fn location_check(country_code: Seq<char>, region: Option<Seq<char>>) -> Result<(), Seq<char>> {
    if !(country_code.len() == 2 && all_ascii_upper(country_code)) {
        Err("Validation Error: location countryCode must be an ISO 3166-1 alpha-2 code"@)
    } else if region is Some && !(1 <= region->0.len() <= 100) {
        Err("Validation Error: location region must be 1-100 characters"@)
    } else {
        Ok(())
    }
}

impl PubkyAppMarketplaceLocation {
    /// The location with its region trimmed.
    pub fn sanitize(self) -> (r: Self)
        ensures
            r.country_code == self.country_code,
            opt_view(r.region) == trim_opt_spec(opt_view(self.region)),
    {
        let region = trim_opt(&self.region);
        PubkyAppMarketplaceLocation { country_code: self.country_code, region }
    }

    /// Validates the country code (ISO 3166-1 alpha-2) and the optional
    /// region (1-100 characters).
    pub fn validate(&self, _id: Option<&str>) -> (r: Result<(), String>)
        ensures
            outcome(r) == location_check(self.country_code@, opt_view(self.region)),
    {
        let chars = chars_of(self.country_code.as_str());
        if !(chars.len() == 2 && check_all_ascii_upper(&chars)) {
            return Err(
                owned("Validation Error: location countryCode must be an ISO 3166-1 alpha-2 code"),
            );
        }
        match &self.region {
            Some(region) => {
                let length = char_count(region.as_str());
                if !(1 <= length && length <= 100) {
                    return Err(owned("Validation Error: location region must be 1-100 characters"));
                }
            },
            None => {},
        }
        Ok(())
    }
}

// ---------------------------------------------------------------------------
// Identifiers
// ---------------------------------------------------------------------------

/// The outcome of validating a path-safe entity identifier.
pub open spec fn entity_id_check(value: Seq<char>, field: Seq<char>) -> Result<(), Seq<char>> {
    if !(1 <= value.len() <= 128) {
        Err("Validation Error: "@ + field + " must be 1-128 characters"@)
    } else if !all_path_safe(value) {
        Err("Validation Error: "@ + field + " must only contain path-safe characters [A-Za-z0-9_-]"@)
    } else {
        Ok(())
    }
}

/// Validates a path-safe commerce identifier: 1-128 chars of `[A-Za-z0-9_-]`.
pub fn validate_entity_id(value: &str, field: &str) -> (r: Result<(), String>)
    ensures
        outcome(r) == entity_id_check(value@, field@),
{
    let chars = chars_of(value);
    if !(1 <= chars.len() && chars.len() <= 128) {
        return Err(concat3("Validation Error: ", field, " must be 1-128 characters"));
    }
    if !check_all_path_safe(&chars) {
        return Err(
            concat3(
                "Validation Error: ",
                field,
                " must only contain path-safe characters [A-Za-z0-9_-]",
            ),
        );
    }
    Ok(())
}

/// A 52-character z-base-32 pubky identifier.
pub open spec fn is_pubky(value: Seq<char>) -> bool {
    value.len() == 52 && all_zbase32(value)
}

/// The outcome of validating a pubky.
pub open spec fn pubky_check(value: Seq<char>, field: Seq<char>) -> Result<(), Seq<char>> {
    if is_pubky(value) {
        Ok(())
    } else {
        Err("Validation Error: "@ + field + " must be a 52-character z-base-32 pubky"@)
    }
}

fn check_all_zbase32(s: &Vec<char>) -> (r: bool)
    ensures
        r == all_zbase32(s@),
{
    let mut i: usize = 0;
    while i < s.len()
        invariant
            i <= s.len(),
            forall|j: int| 0 <= j < i ==> #[trigger] is_zbase32_char(s@[j]),
        decreases s.len() - i,
    {
        if !zbase32_char(s[i]) {
            return false;
        }
        i = i + 1;
    }
    true
}

fn zbase32_char(c: char) -> (r: bool)
    ensures
        r == is_zbase32_char(c),
{
    c == 'y' || c == 'b' || c == 'n' || c == 'd' || c == 'r' || c == 'f' || c == 'g' || c == '8'
        || c == 'e' || c == 'j' || c == 'k' || c == 'm' || c == 'c' || c == 'p' || c == 'q' || c
        == 'x' || c == 'o' || c == 't' || c == '1' || c == 'u' || c == 'w' || c == 'i' || c == 's'
        || c == 'z' || c == 'a' || c == '3' || c == '4' || c == '5' || c == 'h' || c == '7' || c
        == '6' || c == '9'
}

/// Whether the characters form a 52-character z-base-32 pubky.
pub fn is_pubky_chars(chars: &Vec<char>) -> (r: bool)
    ensures
        r == is_pubky(chars@),
{
    chars.len() == 52 && check_all_zbase32(chars)
}

/// Validates a 52-character z-base-32 pubky identifier.
pub fn validate_pubky(value: &str, field: &str) -> (r: Result<(), String>)
    ensures
        outcome(r) == pubky_check(value@, field@),
{
    let chars = chars_of(value);
    if is_pubky_chars(&chars) {
        Ok(())
    } else {
        Err(concat3("Validation Error: ", field, " must be a 52-character z-base-32 pubky"))
    }
}

/// A lowercase hyphenated UUID: `8-4-4-4-12` lowercase hexadecimal digits.
pub open spec fn is_uuid(value: Seq<char>) -> bool {
    &&& value.len() == 36
    &&& forall|i: int|
        0 <= i < 36 ==> if i == 8 || i == 13 || i == 18 || i == 23 {
            #[trigger] value[i] == '-'
        } else {
            is_lower_hex(value[i])
        }
}

/// The outcome of validating a UUID.
pub open spec fn uuid_check(value: Seq<char>, field: Seq<char>) -> Result<(), Seq<char>> {
    if is_uuid(value) {
        Ok(())
    } else {
        Err("Validation Error: "@ + field + " must be a lowercase hyphenated UUID (8-4-4-4-12)"@)
    }
}

/// Validates a lowercase hyphenated UUID (`8-4-4-4-12` lowercase hex),
/// the identifier form used by the marketplace transaction service.
pub fn validate_uuid(value: &str, field: &str) -> (r: Result<(), String>)
    ensures
        outcome(r) == uuid_check(value@, field@),
{
    let chars = chars_of(value);
    let mut ok = chars.len() == 36;
    if ok {
        let mut i: usize = 0;
        while i < 36
            invariant
                chars@ == value@,
                chars@.len() == 36,
                i <= 36,
                ok == (forall|j: int|
                    0 <= j < i ==> if j == 8 || j == 13 || j == 18 || j == 23 {
                        #[trigger] value@[j] == '-'
                    } else {
                        is_lower_hex(value@[j])
                    }),
            decreases 36 - i,
        {
            let c = chars[i];
            let good = if i == 8 || i == 13 || i == 18 || i == 23 {
                c == '-'
            } else {
                ascii_digit(c) || ('a' <= c && c <= 'f')
            };
            if !good {
                ok = false;
            }
            i = i + 1;
        }
    }
    if ok {
        Ok(())
    } else {
        Err(
            concat3(
                "Validation Error: ",
                field,
                " must be a lowercase hyphenated UUID (8-4-4-4-12)",
            ),
        )
    }
}

/// The outcome of validating a lowercase 64-character hexadecimal hash.
pub open spec fn hex_hash_check(value: Seq<char>, field: Seq<char>) -> Result<(), Seq<char>> {
    if value.len() == 64 && all_lower_hex(value) {
        Ok(())
    } else {
        Err("Validation Error: "@ + field + " must be a lowercase 64-character BLAKE3 hex hash"@)
    }
}

/// Validates a lowercase 64-character hexadecimal BLAKE3 hash.
pub fn validate_hex_hash(value: &str, field: &str) -> (r: Result<(), String>)
    ensures
        outcome(r) == hex_hash_check(value@, field@),
{
    let chars = chars_of(value);
    if chars.len() == 64 && check_all_lower_hex(&chars) {
        Ok(())
    } else {
        Err(
            concat3("Validation Error: ", field, " must be a lowercase 64-character BLAKE3 hex hash"),
        )
    }
}

// ---------------------------------------------------------------------------
// URIs
// ---------------------------------------------------------------------------

/// `pubky://<pubky>/pub/pubky.app/marketplace/v1/<tail>` with a non-empty
/// tail made of `[A-Za-z0-9_./-]`.
pub open spec fn is_marketplace_uri(value: Seq<char>) -> bool {
    &&& value.len() > 90
    &&& value.take(8) == "pubky://"@
    &&& is_pubky(value.subrange(8, 60))
    &&& value.subrange(60, 90) == "/pub/pubky.app/marketplace/v1/"@
    &&& all_uri_path_chars(value.skip(90))
}

/// The outcome of validating a marketplace URI.
pub open spec fn marketplace_uri_check(value: Seq<char>, field: Seq<char>) -> Result<(), Seq<char>> {
    if is_marketplace_uri(value) {
        Ok(())
    } else {
        Err("Validation Error: "@ + field + " must be a Pubky marketplace v1 URI"@)
    }
}

/// Whether `v[start..start + lit.len()]` spells `lit`.
pub fn chars_match_at(v: &Vec<char>, start: usize, lit: &str) -> (r: bool)
    ensures
        r == (start + lit@.len() <= v@.len() && v@.subrange(
            start as int,
            start + lit@.len(),
        ) == lit@),
{
    let l = chars_of(lit);
    if start > v.len() || l.len() > v.len() - start {
        return false;
    }
    let mut i: usize = 0;
    while i < l.len()
        invariant
            l@ == lit@,
            start + l@.len() <= v@.len(),
            i <= l.len(),
            forall|j: int| 0 <= j < i ==> v@[start + j] == l@[j],
        decreases l.len() - i,
    {
        assert(start + i < v.len());
        if v[start + i] != l[i] {
            assert(v@.subrange(start as int, start + lit@.len())[i as int] != lit@[i as int]);
            return false;
        }
        i = i + 1;
    }
    assert(v@.subrange(start as int, start + lit@.len()) =~= lit@);
    true
}

/// Copies `v[from..to]`.
pub fn sub_vec(v: &Vec<char>, from: usize, to: usize) -> (r: Vec<char>)
    requires
        from <= to <= v.len(),
    ensures
        r@ == v@.subrange(from as int, to as int),
{
    let mut r: Vec<char> = Vec::new();
    let mut i = from;
    while i < to
        invariant
            from <= i <= to,
            to <= v.len(),
            r@ == v@.subrange(from as int, i as int),
        decreases to - i,
    {
        r.push(v[i]);
        assert(v@.subrange(from as int, i + 1) =~= v@.subrange(from as int, i as int).push(v@[i as int]));
        i = i + 1;
    }
    r
}

/// Validates a `pubky://<pubky>/pub/pubky.app/marketplace/v1/...` URI.
pub fn validate_marketplace_uri(value: &str, field: &str) -> (r: Result<(), String>)
    ensures
        outcome(r) == marketplace_uri_check(value@, field@),
{
    let v = chars_of(value);
    let ok = v.len() > 90 && chars_match_at(&v, 0, "pubky://") && is_pubky_chars(&sub_vec(&v, 8, 60))
        && chars_match_at(&v, 60, "/pub/pubky.app/marketplace/v1/") && check_all_uri_path_chars(
        &sub_vec(&v, 90, v.len()),
    );
    proof {
        reveal_strlit("pubky://");
        reveal_strlit("/pub/pubky.app/marketplace/v1/");
        assert(value@.subrange(0, 8) =~= value@.take(8));
        assert(value@.subrange(90, value@.len() as int) =~= value@.skip(90));
    }
    if ok {
        Ok(())
    } else {
        Err(concat3("Validation Error: ", field, " must be a Pubky marketplace v1 URI"))
    }
}

/// `pubky://<pubky>/pub/locks.app/<tail>` where the tail is made of
/// `[A-Za-z0-9_./-]` and ends with a non-empty stem followed by `.json`.
pub open spec fn is_locks_uri(value: Seq<char>) -> bool {
    &&& value.len() > 80
    &&& value.take(8) == "pubky://"@
    &&& is_pubky(value.subrange(8, 60))
    &&& value.subrange(60, 75) == "/pub/locks.app/"@
    &&& value.skip(value.len() - 5) == ".json"@
    &&& all_uri_path_chars(value.skip(75))
}

/// The outcome of validating a Locks policy URI.
pub open spec fn locks_uri_check(value: Seq<char>, field: Seq<char>) -> Result<(), Seq<char>> {
    if is_locks_uri(value) {
        Ok(())
    } else {
        Err("Validation Error: "@ + field + " must be a public Locks policy URI"@)
    }
}

/// Validates a `pubky://<pubky>/pub/locks.app/....json` URI.
pub fn validate_locks_uri(value: &str, field: &str) -> (r: Result<(), String>)
    ensures
        outcome(r) == locks_uri_check(value@, field@),
{
    let v = chars_of(value);
    let ok = v.len() > 80 && chars_match_at(&v, 0, "pubky://") && is_pubky_chars(&sub_vec(&v, 8, 60))
        && chars_match_at(&v, 60, "/pub/locks.app/") && chars_match_at(&v, v.len() - 5, ".json")
        && check_all_uri_path_chars(&sub_vec(&v, 75, v.len()));
    proof {
        reveal_strlit("pubky://");
        reveal_strlit("/pub/locks.app/");
        reveal_strlit(".json");
        assert(value@.subrange(0, 8) =~= value@.take(8));
        assert(value@.subrange(75, value@.len() as int) =~= value@.skip(75));
        if value@.len() > 80 {
            assert(value@.subrange(value@.len() - 5, value@.len() as int) =~= value@.skip(
                value@.len() - 5,
            ));
        }
    }
    if ok {
        Ok(())
    } else {
        Err(concat3("Validation Error: ", field, " must be a public Locks policy URI"))
    }
}

/// The prefix every marketplace media URI owned by `owner` starts with.
pub open spec fn media_prefix(owner: Seq<char>) -> Seq<char> {
    "pubky://"@ + owner + "/pub/pubky.app/marketplace/v1/media/"@
}

/// Returns the required prefix for marketplace media owned by `owner_pubky`.
pub fn marketplace_media_prefix(owner_pubky: &str) -> (r: String)
    ensures
        r@ == media_prefix(owner_pubky@),
{
    concat3("pubky://", owner_pubky, "/pub/pubky.app/marketplace/v1/media/")
}

// ---------------------------------------------------------------------------
// RFC 3339 datetimes
// ---------------------------------------------------------------------------

/// The decimal value of the digit character `c`.
pub open spec fn digit_value(c: char) -> int {
    c as int - 48
}

/// All of `s[start..start + n]` are ASCII digits.
pub open spec fn digits_at(s: Seq<char>, start: int, n: int) -> bool {
    0 <= start && start + n <= s.len() && forall|i: int|
        start <= i < start + n ==> #[trigger] is_ascii_digit(s[i])
}

/// The decimal number spelled by `s[start..start + n]`.
pub open spec fn number_at(s: Seq<char>, start: int, n: nat) -> int
    decreases n,
{
    if n == 0 {
        0
    } else {
        number_at(s, start, (n - 1) as nat) * 10 + digit_value(s[start + n - 1])
    }
}

/// The length of the run of ASCII digits starting at `start`.
pub open spec fn digit_run(s: Seq<char>, start: int) -> int
    decreases s.len() - start,
{
    if start < 0 || start >= s.len() || !is_ascii_digit(s[start]) {
        0
    } else {
        1 + digit_run(s, start + 1)
    }
}

pub open spec fn is_leap_year(year: int) -> bool {
    (year % 4 == 0 && year % 100 != 0) || year % 400 == 0
}

pub open spec fn days_in_month(year: int, month: int) -> int {
    if month == 1 || month == 3 || month == 5 || month == 7 || month == 8 || month == 10 || month
        == 12 {
        31
    } else if month == 4 || month == 6 || month == 9 || month == 11 {
        30
    } else if month == 2 && is_leap_year(year) {
        29
    } else {
        28
    }
}

/// Days since the UNIX epoch of a civil (proleptic Gregorian) date.
pub open spec fn days_from_civil(year: int, month: int, day: int) -> int {
    let y = if month <= 2 {
        year - 1
    } else {
        year
    };
    let era = y / 400;
    let yoe = y - era * 400;
    let mp = if month > 2 {
        month - 3
    } else {
        month + 9
    };
    let doy = (153 * mp + 2) / 5 + day - 1;
    let doe = yoe * 365 + yoe / 4 - yoe / 100 + doy;
    era * 146_097 + doe - 719_468
}

/// Milliseconds contributed by the first up-to-three fraction digits at
/// `start` (`n` digits present).
pub open spec fn fraction_millis(s: Seq<char>, start: int, n: int) -> int {
    (if n >= 1 {
        digit_value(s[start]) * 100
    } else {
        0
    }) + (if n >= 2 {
        digit_value(s[start + 1]) * 10
    } else {
        0
    }) + (if n >= 3 {
        digit_value(s[start + 2])
    } else {
        0
    })
}

/// The offset in seconds east of UTC written at `cursor` as `Z` (which must
/// end the string) or `±HH:MM` (which must end the string, hours at most
/// 23, minutes at most 59).
pub open spec fn utc_offset_at(s: Seq<char>, cursor: int) -> Option<int> {
    if 0 <= cursor < s.len() && s[cursor] == 'Z' && cursor + 1 == s.len() {
        Some(0)
    } else if 0 <= cursor < s.len() && (s[cursor] == '+' || s[cursor] == '-') && cursor + 6
        == s.len() && s[cursor + 3] == ':' && digits_at(s, cursor + 1, 2) && digits_at(
        s,
        cursor + 4,
        2,
    ) && number_at(s, cursor + 1, 2) <= 23 && number_at(s, cursor + 4, 2) <= 59 {
        let seconds = number_at(s, cursor + 1, 2) * 3600 + number_at(s, cursor + 4, 2) * 60;
        Some(
            if s[cursor] == '+' {
                seconds
            } else {
                -seconds
            },
        )
    } else {
        None
    }
}

/// The message of a datetime that does not parse.
pub open spec fn rfc3339_error() -> Seq<char> {
    "must be an ISO-8601 datetime with offset"@
}

/// An RFC 3339 / ISO-8601 datetime `YYYY-MM-DDTHH:MM:SS[.fff…]` with an
/// explicit offset, as milliseconds since the UNIX epoch. Valid calendar
/// date, hour at most 23, minute and second at most 59; 1-9 fraction digits
/// of which the first three count.
pub open spec fn rfc3339_millis(s: Seq<char>) -> Option<int> {
    if s.len() < 20 || s[4] != '-' || s[7] != '-' || s[10] != 'T' || s[13] != ':' || s[16]
        != ':' {
        None
    } else if !(digits_at(s, 0, 4) && digits_at(s, 5, 2) && digits_at(s, 8, 2) && digits_at(
        s,
        11,
        2,
    ) && digits_at(s, 14, 2) && digits_at(s, 17, 2)) {
        None
    } else {
        let year = number_at(s, 0, 4);
        let month = number_at(s, 5, 2);
        let day = number_at(s, 8, 2);
        let hour = number_at(s, 11, 2);
        let minute = number_at(s, 14, 2);
        let second = number_at(s, 17, 2);
        let has_fraction = s[19] == '.';
        let n = if has_fraction {
            digit_run(s, 20)
        } else {
            0
        };
        let cursor = if has_fraction {
            20 + n
        } else {
            19
        };
        if !(1 <= month <= 12) || !(1 <= day <= days_in_month(year, month)) || hour > 23 || minute
            > 59 || second > 59 {
            None
        } else if has_fraction && (n == 0 || n > 9) {
            None
        } else {
            match utc_offset_at(s, cursor) {
                None => None,
                Some(offset) => Some(
                    (days_from_civil(year, month, day) * 86_400 + hour * 3_600 + minute * 60
                        + second - offset) * 1_000 + if has_fraction {
                        fraction_millis(s, 20, n)
                    } else {
                        0
                    },
                ),
            }
        }
    }
}

pub open spec fn pow10(n: nat) -> int
    decreases n,
{
    if n == 0 {
        1
    } else {
        10 * pow10((n - 1) as nat)
    }
}

proof fn lemma_number_at_bounds(s: Seq<char>, start: int, n: nat)
    requires
        digits_at(s, start, n as int),
    ensures
        0 <= number_at(s, start, n) < pow10(n),
    decreases n,
{
    if n > 0 {
        assert(digits_at(s, start, n - 1));
        lemma_number_at_bounds(s, start, (n - 1) as nat);
        assert(is_ascii_digit(s[start + n - 1]));
    }
}

/// Reads the decimal number in `v[start..start + n]`, `None` unless all of
/// them are ASCII digits.
pub fn number_at_exec(v: &Vec<char>, start: usize, n: usize) -> (r: Option<i64>)
    requires
        n <= 4,
    ensures
        match r {
            Some(x) => digits_at(v@, start as int, n as int) && x == number_at(
                v@,
                start as int,
                n as nat,
            ) && 0 <= x < 10000 && (n <= 2 ==> x < 100),
            None => !digits_at(v@, start as int, n as int),
        },
{
    if start > v.len() || n > v.len() - start {
        return None;
    }
    let mut value: i64 = 0;
    let mut i: usize = 0;
    while i < n
        invariant
            n <= 4,
            start + n <= v@.len(),
            i <= n,
            digits_at(v@, start as int, i as int),
            value == number_at(v@, start as int, i as nat),
            0 <= value < 10000,
            i <= 1 ==> value < 10,
            i <= 2 ==> value < 100,
            i <= 3 ==> value < 1000,
        decreases n - i,
    {
        assert(start + i < v.len());
        let c = v[start + i];
        if !ascii_digit(c) {
            return None;
        }
        value = value * 10 + (c as u32 - 48) as i64;
        i = i + 1;
    }
    Some(value)
}

/// Days in `month` of `year`.
pub fn days_in_month_exec(year: i64, month: i64) -> (r: i64)
    ensures
        r == days_in_month(year as int, month as int),
{
    if month == 1 || month == 3 || month == 5 || month == 7 || month == 8 || month == 10 || month
        == 12 {
        31
    } else if month == 4 || month == 6 || month == 9 || month == 11 {
        30
    } else if month == 2 && ((year % 4 == 0 && year % 100 != 0) || year % 400 == 0) {
        29
    } else {
        28
    }
}

fn days_from_civil_exec(year: i64, month: i64, day: i64) -> (r: i64)
    requires
        0 <= year <= 9999,
        1 <= month <= 12,
        1 <= day <= 31,
    ensures
        r == days_from_civil(year as int, month as int, day as int),
        -800_000 <= r <= 3_000_000,
{
    let y = if month <= 2 {
        year - 1
    } else {
        year
    };
    let era = if y >= 0 {
        y / 400
    } else {
        -1
    };
    let yoe = y - era * 400;
    let mp = if month > 2 {
        month - 3
    } else {
        month + 9
    };
    let doy = (153 * mp + 2) / 5 + day - 1;
    let doe = yoe * 365 + yoe / 4 - yoe / 100 + doy;
    era * 146_097 + doe - 719_468
}

/// Counts the ASCII digits of `v` from `start` on.
fn digit_run_exec(v: &Vec<char>, start: usize) -> (n: usize)
    requires
        start <= v.len(),
    ensures
        n == digit_run(v@, start as int),
        start + n <= v.len(),
{
    let mut end = start;
    while end < v.len() && ascii_digit(v[end])
        invariant
            start <= end <= v.len(),
            digit_run(v@, start as int) == (end - start) + digit_run(v@, end as int),
        decreases v.len() - end,
    {
        end = end + 1;
    }
    (end - start) as usize
}

proof fn lemma_digit_run_digits(s: Seq<char>, start: int)
    requires
        0 <= start <= s.len(),
    ensures
        digits_at(s, start, digit_run(s, start)),
        digit_run(s, start) >= 0,
        start + digit_run(s, start) <= s.len() || digit_run(s, start) == 0,
    decreases s.len() - start,
{
    if start < s.len() && is_ascii_digit(s[start]) {
        lemma_digit_run_digits(s, start + 1);
        assert forall|i: int| start <= i < start + digit_run(s, start) implies #[trigger] is_ascii_digit(s[i]) by {
            if i > start {
                assert(start + 1 <= i < start + 1 + digit_run(s, start + 1));
            }
        }
    }
}

/// Parses an RFC 3339 / ISO-8601 datetime with an explicit offset
/// (`Z` or `±HH:MM`) into milliseconds since the UNIX epoch.
#[verifier::rlimit(60)]
pub fn parse_rfc3339_millis(value: &str) -> (r: Result<i64, String>)
    ensures
        match r {
            Ok(v) => rfc3339_millis(value@) == Some(v as int),
            Err(e) => rfc3339_millis(value@) is None && e@ == rfc3339_error(),
        },
{
    let s = chars_of(value);
    let error = "must be an ISO-8601 datetime with offset";
    if s.len() < 20 || s[4] != '-' || s[7] != '-' || s[10] != 'T' || s[13] != ':' || s[16] != ':' {
        return Err(owned(error));
    }
    let year = match number_at_exec(&s, 0, 4) {
        Some(v) => v,
        None => return Err(owned(error)),
    };
    let month = match number_at_exec(&s, 5, 2) {
        Some(v) => v,
        None => return Err(owned(error)),
    };
    let day = match number_at_exec(&s, 8, 2) {
        Some(v) => v,
        None => return Err(owned(error)),
    };
    let hour = match number_at_exec(&s, 11, 2) {
        Some(v) => v,
        None => return Err(owned(error)),
    };
    let minute = match number_at_exec(&s, 14, 2) {
        Some(v) => v,
        None => return Err(owned(error)),
    };
    let second = match number_at_exec(&s, 17, 2) {
        Some(v) => v,
        None => return Err(owned(error)),
    };
    if !(1 <= month && month <= 12) || !(1 <= day && day <= days_in_month_exec(year, month)) {
        return Err(owned(error));
    }
    if hour > 23 || minute > 59 || second > 59 {
        return Err(owned(error));
    }
    let mut cursor: usize = 19;
    let mut millis_fraction: i64 = 0;
    let has_fraction = s[19] == '.';
    if has_fraction {
        let n = digit_run_exec(&s, 20);
        proof {
            lemma_digit_run_digits(s@, 20);
        }
        if n == 0 || n > 9 {
            return Err(owned(error));
        }
        assert(is_ascii_digit(s@[20]));
        assert(n >= 2 ==> is_ascii_digit(s@[21]));
        assert(n >= 3 ==> is_ascii_digit(s@[22]));
        millis_fraction = (s[20] as u32 - 48) as i64 * 100;
        if n >= 2 {
            millis_fraction = millis_fraction + (s[21] as u32 - 48) as i64 * 10;
        }
        if n >= 3 {
            millis_fraction = millis_fraction + (s[22] as u32 - 48) as i64;
        }
        cursor = 20 + n;
    }
    let offset_seconds: i64 = if cursor < s.len() && s[cursor] == 'Z' && cursor + 1 == s.len() {
        0
    } else if cursor < s.len() && (s[cursor] == '+' || s[cursor] == '-') && cursor + 6 == s.len()
        && s[cursor + 3] == ':' {
        let offset_hour = match number_at_exec(&s, cursor + 1, 2) {
            Some(v) => v,
            None => return Err(owned(error)),
        };
        let offset_minute = match number_at_exec(&s, cursor + 4, 2) {
            Some(v) => v,
            None => return Err(owned(error)),
        };
        if offset_hour > 23 || offset_minute > 59 {
            return Err(owned(error));
        }
        let seconds = offset_hour * 3600 + offset_minute * 60;
        if s[cursor] == '+' {
            seconds
        } else {
            -seconds
        }
    } else {
        return Err(owned(error));
    };
    let days = days_from_civil_exec(year, month, day);
    let epoch_seconds = days * 86_400 + hour * 3_600 + minute * 60 + second - offset_seconds;
    Ok(epoch_seconds * 1_000 + millis_fraction)
}

// ---------------------------------------------------------------------------
// Fields shared by every marketplace record
// ---------------------------------------------------------------------------

/// The outcome of validating the fields shared by every marketplace record.
pub open spec fn base_record_check(
    schema_version: int,
    record_type: Seq<char>,
    expected_record_type: Seq<char>,
    owner_pubky: Seq<char>,
    revision: int,
    created_at: Seq<char>,
    updated_at: Seq<char>,
) -> Result<(), Seq<char>> {
    if schema_version != MARKETPLACE_SCHEMA_VERSION {
        Err("Validation Error: schemaVersion must be 1"@)
    } else if record_type != expected_record_type {
        Err("Validation Error: recordType must be '"@ + expected_record_type + "'"@)
    } else if !is_pubky(owner_pubky) {
        pubky_check(owner_pubky, "ownerPubky"@)
    } else if !positive_safe(revision) {
        Err("Validation Error: revision must be a positive safe integer"@)
    } else if rfc3339_millis(created_at) is None {
        Err("Validation Error: createdAt "@ + rfc3339_error())
    } else if rfc3339_millis(updated_at) is None {
        Err("Validation Error: updatedAt "@ + rfc3339_error())
    } else if rfc3339_millis(updated_at)->0 < rfc3339_millis(created_at)->0 {
        Err("Validation Error: updatedAt must not precede createdAt"@)
    } else {
        Ok(())
    }
}

/// A pubky: 52 characters of the z-base-32 alphabet.
pub open spec fn pubky_holds(v: Seq<char>) -> bool {
    v.len() == 52 && forall|i: int| 0 <= i < v.len() ==> #[trigger] is_zbase32_char(v[i])
}

/// A path-safe entity id: 1-128 characters of `[A-Za-z0-9_-]`.
pub open spec fn entity_id_holds(v: Seq<char>) -> bool {
    1 <= v.len() <= 128 && forall|i: int| 0 <= i < v.len() ==> #[trigger] is_path_safe(v[i])
}

/// The pubky and entity-id checks pass exactly on pubkys and entity ids.
pub proof fn lemma_field_checks_iff(v: Seq<char>, field: Seq<char>)
    ensures
        pubky_check(v, field) is Ok <==> pubky_holds(v),
        entity_id_check(v, field) is Ok <==> entity_id_holds(v),
{
}

/// The fields every valid marketplace record shares: schema version 1, the
/// expected record type, a 52-character z-base-32 owner pubky, a positive
/// safe revision, and creation and update datetimes that parse with the
/// update not before the creation.
pub open spec fn base_record_holds(
    schema_version: int,
    record_type: Seq<char>,
    expected_record_type: Seq<char>,
    owner_pubky: Seq<char>,
    revision: int,
    created_at: Seq<char>,
    updated_at: Seq<char>,
) -> bool {
    &&& schema_version == 1
    &&& record_type == expected_record_type
    &&& owner_pubky.len() == 52
    &&& forall|i: int| 0 <= i < owner_pubky.len() ==> #[trigger] is_zbase32_char(owner_pubky[i])
    &&& 1 <= revision <= MAX_SAFE_INTEGER
    &&& rfc3339_millis(created_at) is Some
    &&& rfc3339_millis(updated_at) is Some
    &&& rfc3339_millis(created_at)->0 <= rfc3339_millis(updated_at)->0
}

/// The shared record checks pass exactly when the shared fields hold.
pub proof fn lemma_base_record_iff(
    schema_version: int,
    record_type: Seq<char>,
    expected_record_type: Seq<char>,
    owner_pubky: Seq<char>,
    revision: int,
    created_at: Seq<char>,
    updated_at: Seq<char>,
)
    ensures
        base_record_check(
            schema_version,
            record_type,
            expected_record_type,
            owner_pubky,
            revision,
            created_at,
            updated_at,
        ) is Ok <==> base_record_holds(
            schema_version,
            record_type,
            expected_record_type,
            owner_pubky,
            revision,
            created_at,
            updated_at,
        ),
{
}

/// Validates the fields shared by every marketplace record.
///
/// Marketplace record shapes are open-world: unknown members are tolerated
/// on parse so records can grow additively. The JWS attestation header and
/// claim sets are the deliberate closed-world exception.
pub fn validate_base_record(
    schema_version: i64,
    record_type: &str,
    expected_record_type: &str,
    owner_pubky: &str,
    revision: i64,
    created_at: &str,
    updated_at: &str,
) -> (r: Result<(), String>)
    ensures
        outcome(r) == base_record_check(
            schema_version as int,
            record_type@,
            expected_record_type@,
            owner_pubky@,
            revision as int,
            created_at@,
            updated_at@,
        ),
        r is Ok ==> rfc3339_millis(created_at@) is Some && rfc3339_millis(updated_at@) is Some
            && rfc3339_millis(created_at@)->0 <= rfc3339_millis(updated_at@)->0,
{
    if schema_version != MARKETPLACE_SCHEMA_VERSION {
        return Err(owned("Validation Error: schemaVersion must be 1"));
    }
    if !str_eq(record_type, expected_record_type) {
        return Err(concat3("Validation Error: recordType must be '", expected_record_type, "'"));
    }
    validate_pubky(owner_pubky, "ownerPubky")?;
    if !(1 <= revision && revision <= MAX_SAFE_INTEGER) {
        return Err(owned("Validation Error: revision must be a positive safe integer"));
    }
    let created = match parse_rfc3339_millis(created_at) {
        Ok(v) => v,
        Err(e) => return Err(concat2("Validation Error: createdAt ", e.as_str())),
    };
    let updated = match parse_rfc3339_millis(updated_at) {
        Ok(v) => v,
        Err(e) => return Err(concat2("Validation Error: updatedAt ", e.as_str())),
    };
    if updated < created {
        return Err(owned("Validation Error: updatedAt must not precede createdAt"));
    }
    Ok(())
}

} // verus!

//! Claim-format rules shared by the marketplace attestations: the mapping of
//! validation messages to attestation messages, day-granularity civil dates,
//! log-decade amount bands and the bounds of an embedded compact-JWS field.
use vstd::prelude::*;
use crate::jws::{find_char, index_of, MAX_ATTESTATION_LENGTH, MIN_ATTESTATION_LENGTH};
use crate::marketplace::{
    chars_match_at, days_in_month, days_in_month_exec, digit_run, digits_at, is_asset_code,
    number_at, number_at_exec, rfc3339_millis, sub_vec, utc_offset_at,
};
use crate::text::{
    all_jws_chars, ascii_digit, ascii_upper, chars_of, check_all_jws_chars, check_all_upper_alnum,
    concat3, is_ascii_digit, owned, push_char,
};

verus! {

// ---------------------------------------------------------------------------
// Messages
// ---------------------------------------------------------------------------

/// `s` with every non-overlapping occurrence of `from`, scanning left to
/// right, replaced by `to` (`str::replace`, for a non-empty `from`).
pub open spec fn replace_all(s: Seq<char>, from: Seq<char>, to: Seq<char>) -> Seq<char>
    decreases s.len(),
{
    if s.len() == 0 || from.len() == 0 {
        s
    } else if from.len() <= s.len() && s.take(from.len() as int) == from {
        to + replace_all(s.skip(from.len() as int), from, to)
    } else {
        seq![s[0]] + replace_all(s.drop_first(), from, to)
    }
}

/// A validation message restated as an attestation message.
pub open spec fn attestation_message(e: Seq<char>) -> Seq<char> {
    replace_all(e, "Validation Error:"@, "Attestation Error:"@)
}

/// A check outcome with its message restated as an attestation message.
pub open spec fn as_attestation(r: Result<(), Seq<char>>) -> Result<(), Seq<char>> {
    match r {
        Ok(_) => Ok(()),
        Err(e) => Err(attestation_message(e)),
    }
}

/// Restates a validation message as an attestation message: every
/// `Validation Error:` becomes `Attestation Error:`.
pub fn attestation_error(validation_error: String) -> (r: String)
    ensures
        r@ == attestation_message(validation_error@),
{
    let s = chars_of(validation_error.as_str());
    proof {
        reveal_strlit("Validation Error:");
    }
    let mut out = String::new();
    let mut i: usize = 0;
    assert(s@.skip(0) =~= s@);
    assert(out@ + attestation_message(s@) =~= attestation_message(s@));
    while i < s.len()
        invariant
            s@ == validation_error@,
            "Validation Error:"@.len() == 17,
            i <= s.len(),
            attestation_message(s@) == out@ + attestation_message(s@.skip(i as int)),
        decreases s.len() - i,
    {
        let ghost rest = s@.skip(i as int);
        if chars_match_at(&s, i, "Validation Error:") {
            assert(rest.take(17) =~= s@.subrange(i as int, i + 17));
            assert(rest.skip(17) =~= s@.skip(i + 17));
            out.append("Attestation Error:");
            i = i + 17;
        } else {
            assert(!(17 <= rest.len() && rest.take(17) == "Validation Error:"@)) by {
                if 17 <= rest.len() && rest.take(17) == "Validation Error:"@ {
                    assert(rest.take(17) =~= s@.subrange(i as int, i + 17));
                }
            }
            assert(rest.drop_first() =~= s@.skip(i + 1));
            assert(rest[0] == s@[i as int]);
            push_char(&mut out, s[i]);
            i = i + 1;
        }
    }
    assert(s@.skip(s.len() as int) =~= Seq::<char>::empty());
    assert(out@ + Seq::<char>::empty() =~= out@);
    out
}

// ---------------------------------------------------------------------------
// Civil dates
// ---------------------------------------------------------------------------

/// A `YYYY-MM-DD` date of the proleptic Gregorian calendar.
pub open spec fn is_civil_date(s: Seq<char>) -> bool {
    &&& s.len() == 10
    &&& s[4] == '-'
    &&& s[7] == '-'
    &&& digits_at(s, 0, 4)
    &&& digits_at(s, 5, 2)
    &&& digits_at(s, 8, 2)
    &&& 1 <= number_at(s, 5, 2) <= 12
    &&& 1 <= number_at(s, 8, 2) <= days_in_month(number_at(s, 0, 4), number_at(s, 5, 2))
}

/// The outcome of validating a civil date.
pub open spec fn civil_date_check(s: Seq<char>) -> Result<(), Seq<char>> {
    if is_civil_date(s) {
        Ok(())
    } else {
        Err("Attestation Error: completed_on must be a YYYY-MM-DD date"@)
    }
}

/// Validates a `YYYY-MM-DD` civil date (day granularity, deliberately no
/// time component: finer timestamps would strengthen payment correlation).
pub fn validate_civil_date(value: &str) -> (r: Result<(), String>)
    ensures
        crate::text::outcome(r) == civil_date_check(value@),
{
    let s = chars_of(value);
    if s.len() != 10 || s[4] != '-' || s[7] != '-' {
        return Err(owned("Attestation Error: completed_on must be a YYYY-MM-DD date"));
    }
    let year = match number_at_exec(&s, 0, 4) {
        Some(v) => v,
        None => return Err(owned("Attestation Error: completed_on must be a YYYY-MM-DD date")),
    };
    let month = match number_at_exec(&s, 5, 2) {
        Some(v) => v,
        None => return Err(owned("Attestation Error: completed_on must be a YYYY-MM-DD date")),
    };
    let day = match number_at_exec(&s, 8, 2) {
        Some(v) => v,
        None => return Err(owned("Attestation Error: completed_on must be a YYYY-MM-DD date")),
    };
    if !(1 <= month && month <= 12) || !(1 <= day && day <= days_in_month_exec(year, month)) {
        return Err(owned("Attestation Error: completed_on must be a YYYY-MM-DD date"));
    }
    Ok(())
}

/// Two sequences that agree on `[start, start + n)` spell the same number
/// there.
proof fn lemma_number_at_agree(s: Seq<char>, u: Seq<char>, start: int, n: nat)
    requires
        0 <= start,
        start + n <= s.len(),
        start + n <= u.len(),
        forall|i: int| start <= i < start + n ==> s[i] == u[i],
    ensures
        number_at(s, start, n) == number_at(u, start, n),
    decreases n,
{
    if n > 0 {
        lemma_number_at_agree(s, u, start, (n - 1) as nat);
    }
}

/// A run of digits stops at the first non-digit.
proof fn lemma_digit_run_stops(s: Seq<char>, start: int, k: int)
    requires
        0 <= start <= k < s.len(),
        !is_ascii_digit(s[k]),
    ensures
        digit_run(s, start) <= k - start,
    decreases k - start,
{
    if start < k && is_ascii_digit(s[start]) {
        lemma_digit_run_stops(s, start + 1, k);
    }
}

/// A civil date is exactly what makes a valid datetime at midnight UTC:
/// `s` is a `YYYY-MM-DD` date if and only if `s` followed by `T00:00:00Z`
/// parses as an RFC 3339 datetime.
pub proof fn lemma_civil_date_is_midnight_datetime(s: Seq<char>)
    ensures
        is_civil_date(s) <==> rfc3339_millis(s + "T00:00:00Z"@) is Some,
{
    reveal_strlit("T00:00:00Z");
    let suffix = "T00:00:00Z"@;
    let u = s + suffix;
    let m: int = s.len() as int;
    assert(suffix.len() == 10);
    assert(u.len() == s.len() + 10);
    assert forall|i: int| 0 <= i < s.len() implies u[i] == s[i] by {}
    assert forall|i: int| 0 <= i < 10 implies #[trigger] u[m + i] == suffix[i] by {}
    if s.len() == 10 {
        lemma_number_at_agree(s, u, 0, 4);
        lemma_number_at_agree(s, u, 5, 2);
        lemma_number_at_agree(s, u, 8, 2);
        assert(u[10] == 'T' && u[11] == '0' && u[12] == '0' && u[13] == ':' && u[14] == '0'
            && u[15] == '0' && u[16] == ':' && u[17] == '0' && u[18] == '0' && u[19] == 'Z') by {
            assert(u[m + 0] == suffix[0]);
            assert(u[m + 1] == suffix[1]);
            assert(u[m + 2] == suffix[2]);
            assert(u[m + 3] == suffix[3]);
            assert(u[m + 4] == suffix[4]);
            assert(u[m + 5] == suffix[5]);
            assert(u[m + 6] == suffix[6]);
            assert(u[m + 7] == suffix[7]);
            assert(u[m + 8] == suffix[8]);
            assert(u[m + 9] == suffix[9]);
        }
        assert(digits_at(s, 0, 4) == digits_at(u, 0, 4));
        assert(digits_at(s, 5, 2) == digits_at(u, 5, 2));
        assert(digits_at(s, 8, 2) == digits_at(u, 8, 2));
        assert(digits_at(u, 11, 2) && digits_at(u, 14, 2) && digits_at(u, 17, 2));
        reveal_with_fuel(number_at, 3);
        assert(number_at(u, 11, 2) == 0);
        assert(number_at(u, 14, 2) == 0);
        assert(number_at(u, 17, 2) == 0);
        assert(utc_offset_at(u, 19) == Some(0int));
    } else if rfc3339_millis(u) is Some {
        assert(s.len() >= 10);
        if s.len() <= 19 {
            let k = 19 - s.len();
            assert(u[19] == suffix[k]) by {
                assert(u[m + k] == suffix[k]);
            }
            assert(u[19] != '.' && u[19] != 'Z' && u[19] != '+' && u[19] != '-');
            assert(utc_offset_at(u, 19) is None);
            assert(false);
        } else {
            assert(u[m + 0] == suffix[0]);
            assert(!is_ascii_digit(u[m]));
            if u[19] == '.' {
                lemma_digit_run_stops(u, 20, s.len() as int);
                let n = digit_run(u, 20);
                assert(utc_offset_at(u, 20 + n) is None);
            } else {
                assert(utc_offset_at(u, 19) is None);
            }
            assert(false);
        }
    }
}

// ---------------------------------------------------------------------------
// Amount bands
// ---------------------------------------------------------------------------

/// A log-decade magnitude as `u32::from_str` reads it within two
/// characters and at most 18: one digit, two digits up to 18, or `+` and a
/// digit.
pub open spec fn is_band_magnitude(m: Seq<char>) -> bool {
    ||| m.len() == 1 && is_ascii_digit(m[0])
    ||| m.len() == 2 && is_ascii_digit(m[0]) && is_ascii_digit(m[1]) && number_at(m, 0, 2) <= 18
    ||| m.len() == 2 && m[0] == '+' && is_ascii_digit(m[1])
}

/// A `{CURRENCY}:{magnitude}` amount band: an uppercase asset code, the
/// first `:` and a log-decade magnitude.
pub open spec fn is_amount_band(s: Seq<char>) -> bool {
    let k = index_of(s, ':', 0);
    k < s.len() && is_asset_code(s.take(k)) && is_band_magnitude(s.skip(k + 1))
}

/// The outcome of validating an amount band.
pub open spec fn amount_band_check(s: Seq<char>) -> Result<(), Seq<char>> {
    if is_amount_band(s) {
        Ok(())
    } else {
        Err("Attestation Error: amount_band must be {CURRENCY}:{magnitude}, e.g. SAT:5"@)
    }
}

fn band_magnitude(m: &Vec<char>) -> (r: bool)
    ensures
        r == is_band_magnitude(m@),
{
    if m.len() == 1 {
        ascii_digit(m[0])
    } else if m.len() == 2 {
        if m[0] == '+' {
            ascii_digit(m[1])
        } else {
            match number_at_exec(m, 0, 2) {
                Some(v) => {
                    assert(is_ascii_digit(m@[0]) && is_ascii_digit(m@[1]));
                    v <= 18
                },
                None => {
                    assert(!(is_ascii_digit(m@[0]) && is_ascii_digit(m@[1]))) by {
                        if is_ascii_digit(m@[0]) && is_ascii_digit(m@[1]) {
                            assert(digits_at(m@, 0, 2));
                        }
                    }
                    false
                },
            }
        }
    } else {
        false
    }
}

/// Validates a `{CURRENCY}:{magnitude}` log-decade amount band, e.g.
/// `SAT:5` for an order in the 100,000-999,999 sat decade.
pub fn validate_amount_band(value: &str) -> (r: Result<(), String>)
    ensures
        crate::text::outcome(r) == amount_band_check(value@),
{
    let s = chars_of(value);
    let k = find_char(&s, ':', 0);
    let ok = if k < s.len() {
        let currency = sub_vec(&s, 0, k);
        let magnitude = sub_vec(&s, k + 1, s.len());
        assert(currency@ =~= value@.take(k as int));
        assert(magnitude@ =~= value@.skip(k + 1));
        3 <= currency.len() && currency.len() <= 12 && ascii_upper(currency[0])
            && check_all_upper_alnum(&currency) && band_magnitude(&magnitude)
    } else {
        false
    };
    if ok {
        Ok(())
    } else {
        Err(owned("Attestation Error: amount_band must be {CURRENCY}:{magnitude}, e.g. SAT:5"))
    }
}

// ---------------------------------------------------------------------------
// Embedded compact-JWS fields
// ---------------------------------------------------------------------------

/// The outcome of checking the bounds and charset of a record field that
/// embeds a compact JWS.
pub open spec fn attestation_field_check(value: Seq<char>, field: Seq<char>) -> Result<(), Seq<char>> {
    if !(MIN_ATTESTATION_LENGTH <= value.len() <= MAX_ATTESTATION_LENGTH) {
        Err("Validation Error: "@ + field + " must be 32-4096 characters"@)
    } else if !all_jws_chars(value) {
        Err("Validation Error: "@ + field + " must only contain characters [A-Za-z0-9._~-]"@)
    } else {
        Ok(())
    }
}

/// Validates the bounds and charset of a record field that embeds a
/// compact JWS.
pub fn validate_attestation_field(value: &str, field: &str) -> (r: Result<(), String>)
    ensures
        crate::text::outcome(r) == attestation_field_check(value@, field@),
{
    let v = chars_of(value);
    if !(MIN_ATTESTATION_LENGTH <= v.len() && v.len() <= MAX_ATTESTATION_LENGTH) {
        return Err(concat3("Validation Error: ", field, " must be 32-4096 characters"));
    }
    if !check_all_jws_chars(&v) {
        return Err(
            concat3("Validation Error: ", field, " must only contain characters [A-Za-z0-9._~-]"),
        );
    }
    Ok(())
}

} // verus!

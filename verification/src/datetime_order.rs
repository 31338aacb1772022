//! The order of UTC datetimes: for two `YYYY-MM-DDTHH:MM:SSZ` timestamps
//! the string order and the order of the instants they name agree.
use vstd::prelude::*;
use crate::marketplace::{
    days_from_civil, days_in_month, digit_run, digit_value, digits_at, fraction_millis,
    is_leap_year, number_at, rfc3339_millis, utc_offset_at,
};
use crate::text::{is_ascii_digit, lemma_less_irreflexive, seq_less};
use vstd::arithmetic::div_mod::lemma_fundamental_div_mod_converse;

verus! {

/// Days from the epoch's era origin to 1 March of the March-based year `y`
/// (the year part of `days_from_civil`).
pub open spec fn year_base(y: int) -> int {
    let era = y / 400;
    let yoe = y - era * 400;
    era * 146_097 + yoe * 365 + yoe / 4 - yoe / 100
}

/// The day of the March-based year on which `month` starts.
pub open spec fn month_base(month: int) -> int {
    let mp = if month > 2 {
        month - 3
    } else {
        month + 9
    };
    (153 * mp + 2) / 5
}

proof fn lemma_days_from_civil_parts(year: int, month: int, day: int)
    ensures
        days_from_civil(year, month, day) == year_base(
            if month <= 2 {
                year - 1
            } else {
                year
            },
        ) + month_base(month) + day - 1 - 719_468,
{
}

/// A March-based year is 365 days long, 366 when the February it ends
/// with is a leap February.
#[verifier::spinoff_prover]
proof fn lemma_year_base_step(y: int)
    ensures
        year_base(y + 1) == year_base(y) + 365 + if is_leap_year(y + 1) {
            1int
        } else {
            0int
        },
{
    let e = y / 400;
    let r = y - e * 400;
    assert(0 <= r < 400);
    if r < 399 {
        lemma_fundamental_div_mod_converse(y + 1, 400, e, r + 1);
        lemma_fundamental_div_mod_converse(y + 1, 4, 100 * e + (r + 1) / 4, (r + 1) % 4);
        lemma_fundamental_div_mod_converse(y + 1, 100, 4 * e + (r + 1) / 100, (r + 1) % 100);
        assert((r + 1) / 4 - r / 4 == if (r + 1) % 4 == 0 { 1int } else { 0int });
        assert((r + 1) / 100 - r / 100 == if (r + 1) % 100 == 0 { 1int } else { 0int });
    } else {
        lemma_fundamental_div_mod_converse(y + 1, 400, e + 1, 0);
        lemma_fundamental_div_mod_converse(y + 1, 4, 100 * (e + 1), 0);
        lemma_fundamental_div_mod_converse(y + 1, 100, 4 * (e + 1), 0);
    }
}

/// The first of the next month comes `days_in_month` days after the first
/// of this one.
proof fn lemma_month_step(y: int, m: int)
    requires
        1 <= m < 12,
    ensures
        days_from_civil(y, m + 1, 1) == days_from_civil(y, m, 1) + days_in_month(y, m),
{
    lemma_days_from_civil_parts(y, m, 1);
    lemma_days_from_civil_parts(y, m + 1, 1);
    if m == 2 {
        lemma_year_base_step(y - 1);
    }
}

/// The first of January comes 31 days after the first of December.
proof fn lemma_new_year_step(y: int)
    ensures
        days_from_civil(y + 1, 1, 1) == days_from_civil(y, 12, 1) + 31,
{
    lemma_days_from_civil_parts(y, 12, 1);
    lemma_days_from_civil_parts(y + 1, 1, 1);
}

/// Within a month, days count one by one.
proof fn lemma_day_offset(y: int, m: int, d: int)
    ensures
        days_from_civil(y, m, d) == days_from_civil(y, m, 1) + d - 1,
{
    lemma_days_from_civil_parts(y, m, d);
    lemma_days_from_civil_parts(y, m, 1);
}

proof fn lemma_month_starts_increase(y: int, m1: int, m2: int)
    requires
        1 <= m1 < m2 <= 12,
    ensures
        days_from_civil(y, m2, 1) >= days_from_civil(y, m1, 1) + days_in_month(y, m1),
    decreases m2 - m1,
{
    lemma_month_step(y, m1);
    if m2 > m1 + 1 {
        lemma_month_starts_increase(y, m1 + 1, m2);
    }
}

proof fn lemma_year_starts_increase(y1: int, y2: int)
    requires
        y1 < y2,
    ensures
        days_from_civil(y2, 1, 1) >= days_from_civil(y1, 12, 1) + 31,
    decreases y2 - y1,
{
    lemma_new_year_step(y2 - 1);
    if y2 > y1 + 1 {
        lemma_year_starts_increase(y1, y2 - 1);
        lemma_month_starts_increase(y2 - 1, 1, 12);
    }
}

/// A valid civil date.
pub open spec fn valid_date(y: int, m: int, d: int) -> bool {
    1 <= m <= 12 && 1 <= d <= days_in_month(y, m)
}

/// Days since the epoch increase strictly with the date: a date earlier in
/// (year, month, day) order is an earlier day.
pub proof fn lemma_days_from_civil_increasing(y1: int, m1: int, d1: int, y2: int, m2: int, d2: int)
    requires
        valid_date(y1, m1, d1),
        valid_date(y2, m2, d2),
        y1 < y2 || (y1 == y2 && m1 < m2) || (y1 == y2 && m1 == m2 && d1 < d2),
    ensures
        days_from_civil(y1, m1, d1) < days_from_civil(y2, m2, d2),
{
    lemma_day_offset(y1, m1, d1);
    lemma_day_offset(y2, m2, d2);
    if y1 < y2 {
        if m1 < 12 {
            lemma_month_starts_increase(y1, m1, 12);
        }
        if m2 > 1 {
            lemma_month_starts_increase(y2, 1, m2);
        }
        lemma_year_starts_increase(y1, y2);
    } else if m1 < m2 {
        lemma_month_starts_increase(y1, m1, m2);
    }
}

// ---------------------------------------------------------------------------
// UTC timestamps to the second
// ---------------------------------------------------------------------------

/// A `YYYY-MM-DDTHH:MM:SSZ` timestamp: twenty characters, digits in the
/// digit places, the separators in theirs.
pub open spec fn is_utc_second_stamp(s: Seq<char>) -> bool {
    &&& s.len() == 20
    &&& s[4] == '-' && s[7] == '-' && s[10] == 'T' && s[13] == ':' && s[16] == ':' && s[19] == 'Z'
    &&& digits_at(s, 0, 4) && digits_at(s, 5, 2) && digits_at(s, 8, 2)
    &&& digits_at(s, 11, 2) && digits_at(s, 14, 2) && digits_at(s, 17, 2)
}

/// The second of the day a timestamp names.
pub open spec fn second_of_day(s: Seq<char>) -> int {
    number_at(s, 11, 2) * 3600 + number_at(s, 14, 2) * 60 + number_at(s, 17, 2)
}

/// What such a timestamp parses to, when it parses.
proof fn lemma_stamp_millis(s: Seq<char>)
    requires
        is_utc_second_stamp(s),
        rfc3339_millis(s) is Some,
    ensures
        valid_date(number_at(s, 0, 4), number_at(s, 5, 2), number_at(s, 8, 2)),
        0 <= second_of_day(s) < 86_400,
        rfc3339_millis(s) == Some(
            (days_from_civil(number_at(s, 0, 4), number_at(s, 5, 2), number_at(s, 8, 2))
                * 86_400 + second_of_day(s)) * 1_000,
        ),
{
    assert(utc_offset_at(s, 19) == Some(0int));
    lemma_two_digits(s, 11);
    lemma_two_digits(s, 14);
    lemma_two_digits(s, 17);
}

/// Two fields of `w` digits that agree before position `k` and differ
/// there with `a`'s digit smaller spell a smaller number in `a`.
proof fn lemma_field_less(a: Seq<char>, b: Seq<char>, start: int, w: nat, k: int)
    requires
        digits_at(a, start, w as int),
        digits_at(b, start, w as int),
        start <= k < start + w,
        forall|i: int| start <= i < k ==> a[i] == b[i],
        a[k] < b[k],
    ensures
        number_at(a, start, w) < number_at(b, start, w),
    decreases w,
{
    let last = start + w - 1;
    assert(is_ascii_digit(a[last]) && is_ascii_digit(b[last]));
    if k < last {
        lemma_field_less(a, b, start, (w - 1) as nat, k);
    } else {
        lemma_field_equal(a, b, start, (w - 1) as nat);
    }
}

/// Two fields that agree everywhere spell the same number.
proof fn lemma_field_equal(a: Seq<char>, b: Seq<char>, start: int, w: nat)
    requires
        forall|i: int| start <= i < start + w ==> a[i] == b[i],
    ensures
        number_at(a, start, w) == number_at(b, start, w),
    decreases w,
{
    if w > 0 {
        lemma_field_equal(a, b, start, (w - 1) as nat);
    }
}

/// Two-digit fields are below 100.
proof fn lemma_two_digits(s: Seq<char>, start: int)
    requires
        digits_at(s, start, 2),
    ensures
        0 <= number_at(s, start, 2) < 100,
{
    assert(is_ascii_digit(s[start]) && is_ascii_digit(s[start + 1]));
    reveal_with_fuel(number_at, 3);
}

/// The first place where two different sequences of one length differ.
proof fn first_difference(a: Seq<char>, b: Seq<char>, from: int) -> (k: int)
    requires
        a.len() == b.len(),
        0 <= from <= a.len(),
        forall|i: int| 0 <= i < from ==> a[i] == b[i],
        a != b,
    ensures
        from <= k < a.len(),
        forall|i: int| 0 <= i < k ==> a[i] == b[i],
        a[k] != b[k],
    decreases a.len() - from,
{
    if from == a.len() {
        assert(a =~= b);
        0
    } else if a[from] != b[from] {
        from
    } else {
        first_difference(a, b, from + 1)
    }
}

/// Between sequences of one length that agree before `k` and differ at
/// `k`, the string order is the order of their characters at `k`.
proof fn lemma_seq_less_at(a: Seq<char>, b: Seq<char>, k: int)
    requires
        a.len() == b.len(),
        0 <= k < a.len(),
        forall|i: int| 0 <= i < k ==> a[i] == b[i],
        a[k] != b[k],
    ensures
        seq_less(a, b) <==> a[k] < b[k],
    decreases k,
{
    if k > 0 {
        assert(a[0] == b[0]);
        assert forall|i: int| 0 <= i < k - 1 implies a.drop_first()[i] == b.drop_first()[i] by {
            assert(a[i + 1] == b[i + 1]);
        }
        lemma_seq_less_at(a.drop_first(), b.drop_first(), k - 1);
    }
}

/// A timestamp that first differs from another by a smaller digit names
/// an earlier instant.
proof fn lemma_earlier_stamp(a: Seq<char>, b: Seq<char>, k: int)
    requires
        is_utc_second_stamp(a),
        is_utc_second_stamp(b),
        rfc3339_millis(a) is Some,
        rfc3339_millis(b) is Some,
        0 <= k < 20,
        forall|i: int| 0 <= i < k ==> a[i] == b[i],
        a[k] < b[k],
    ensures
        rfc3339_millis(a)->0 < rfc3339_millis(b)->0,
{
    lemma_stamp_millis(a);
    lemma_stamp_millis(b);
    lemma_two_digits(a, 11);
    lemma_two_digits(a, 14);
    lemma_two_digits(a, 17);
    lemma_two_digits(b, 11);
    lemma_two_digits(b, 14);
    lemma_two_digits(b, 17);
    let ya = number_at(a, 0, 4);
    let yb = number_at(b, 0, 4);
    let ma = number_at(a, 5, 2);
    let mb = number_at(b, 5, 2);
    let da = number_at(a, 8, 2);
    let db = number_at(b, 8, 2);
    if k < 4 {
        lemma_field_less(a, b, 0, 4, k);
        lemma_days_from_civil_increasing(ya, ma, da, yb, mb, db);
    } else {
        lemma_field_equal(a, b, 0, 4);
        if k < 7 {
            lemma_field_less(a, b, 5, 2, k);
            lemma_days_from_civil_increasing(ya, ma, da, yb, mb, db);
        } else {
            lemma_field_equal(a, b, 5, 2);
            if k < 10 {
                lemma_field_less(a, b, 8, 2, k);
                lemma_days_from_civil_increasing(ya, ma, da, yb, mb, db);
            } else {
                lemma_field_equal(a, b, 8, 2);
                if k < 13 {
                    lemma_field_less(a, b, 11, 2, k);
                } else {
                    lemma_field_equal(a, b, 11, 2);
                    if k < 16 {
                        lemma_field_less(a, b, 14, 2, k);
                    } else {
                        lemma_field_equal(a, b, 14, 2);
                        lemma_field_less(a, b, 17, 2, k);
                    }
                }
            }
        }
    }
}

/// For two `YYYY-MM-DDTHH:MM:SSZ` timestamps that parse, the string order
/// is the order of the instants they name, and two such timestamps name
/// the same instant exactly when they are the same string.
pub proof fn lemma_utc_stamp_order(a: Seq<char>, b: Seq<char>)
    requires
        is_utc_second_stamp(a),
        is_utc_second_stamp(b),
        rfc3339_millis(a) is Some,
        rfc3339_millis(b) is Some,
    ensures
        seq_less(a, b) <==> rfc3339_millis(a)->0 < rfc3339_millis(b)->0,
        a == b <==> rfc3339_millis(a)->0 == rfc3339_millis(b)->0,
{
    if a == b {
        lemma_less_irreflexive(a);
    } else {
        let k = first_difference(a, b, 0);
        lemma_seq_less_at(a, b, k);
        if a[k] < b[k] {
            lemma_earlier_stamp(a, b, k);
        } else {
            assert forall|i: int| 0 <= i < k implies b[i] == a[i] by {}
            lemma_earlier_stamp(b, a, k);
        }
    }
}

// ---------------------------------------------------------------------------
// Offsets
// ---------------------------------------------------------------------------

/// Two sequences that agree from `start` up to a non-digit at `k` in both
/// have the same run of digits at `start`.
proof fn lemma_digit_run_agree(s: Seq<char>, t: Seq<char>, start: int, k: int)
    requires
        0 <= start <= k,
        k < s.len(),
        k < t.len(),
        forall|i: int| start <= i < k ==> s[i] == t[i],
        !is_ascii_digit(s[k]),
        !is_ascii_digit(t[k]),
    ensures
        digit_run(s, start) == digit_run(t, start),
    decreases k - start,
{
    if start < k {
        lemma_digit_run_agree(s, t, start + 1, k);
    }
}

/// A run of digits stops at the first non-digit.
proof fn lemma_digit_run_bound(s: Seq<char>, start: int, k: int)
    requires
        0 <= start <= k < s.len(),
        !is_ascii_digit(s[k]),
    ensures
        0 <= digit_run(s, start) <= k - start,
    decreases k - start,
{
    if start < k && is_ascii_digit(s[start]) {
        lemma_digit_run_bound(s, start + 1, k);
    }
}

/// The same datetime written in UTC: the trailing `±HH:MM` replaced by `Z`.
pub open spec fn utc_twin(s: Seq<char>) -> Seq<char> {
    s.take(s.len() - 6).push('Z')
}

/// Parsing subtracts the written offset: a datetime ending in `±HH:MM`
/// parses exactly when the same local date and time written with `Z`
/// parses and the offset has hours at most 23 and minutes at most 59, and
/// then it names the UTC instant of its local fields minus the offset,
/// `HH * 3600 + MM * 60` seconds east of UTC (west for `-`).
pub proof fn lemma_offset_shifts_instant(s: Seq<char>)
    requires
        s.len() >= 25,
        s[s.len() - 6] == '+' || s[s.len() - 6] == '-',
        s[s.len() - 3] == ':',
    ensures
        rfc3339_millis(s) is Some <==> (rfc3339_millis(utc_twin(s)) is Some && digits_at(
            s,
            s.len() - 5,
            2,
        ) && digits_at(s, s.len() - 2, 2) && number_at(s, s.len() - 5, 2) <= 23 && number_at(
            s,
            s.len() - 2,
            2,
        ) <= 59),
        rfc3339_millis(s) is Some && s[s.len() - 6] == '+' ==> rfc3339_millis(s)->0
            == rfc3339_millis(utc_twin(s))->0 - (number_at(s, s.len() - 5, 2) * 3600 + number_at(
            s,
            s.len() - 2,
            2,
        ) * 60) * 1000,
        rfc3339_millis(s) is Some && s[s.len() - 6] == '-' ==> rfc3339_millis(s)->0
            == rfc3339_millis(utc_twin(s))->0 + (number_at(s, s.len() - 5, 2) * 3600 + number_at(
            s,
            s.len() - 2,
            2,
        ) * 60) * 1000,
{
    let n = s.len() as int;
    let t = utc_twin(s);
    let z = n - 6;
    assert(t.len() == n - 5);
    assert forall|i: int| 0 <= i < z implies t[i] == s[i] by {}
    assert(t[z] == 'Z');
    assert(!is_ascii_digit(s[z]) && !is_ascii_digit(t[z]));
    lemma_field_equal(s, t, 0, 4);
    lemma_field_equal(s, t, 5, 2);
    lemma_field_equal(s, t, 8, 2);
    lemma_field_equal(s, t, 11, 2);
    lemma_field_equal(s, t, 14, 2);
    lemma_field_equal(s, t, 17, 2);
    assert(digits_at(s, 0, 4) == digits_at(t, 0, 4));
    assert(digits_at(s, 5, 2) == digits_at(t, 5, 2));
    assert(digits_at(s, 8, 2) == digits_at(t, 8, 2));
    assert(digits_at(s, 11, 2) == digits_at(t, 11, 2));
    assert(digits_at(s, 14, 2) == digits_at(t, 14, 2));
    assert(digits_at(s, 17, 2) == digits_at(t, 17, 2));
    let frac = s[19] == '.';
    assert(frac == (t[19] == '.'));
    if frac {
        assert(z > 19);
        lemma_digit_run_agree(s, t, 20, z);
        lemma_digit_run_bound(s, 20, z);
        let d = digit_run(s, 20);
        assert(fraction_millis(s, 20, d) == fraction_millis(t, 20, d)) by {
            if d >= 1 {
                assert(s[20] == t[20]);
            }
            if d >= 2 {
                assert(s[21] == t[21]);
            }
            if d >= 3 {
                assert(s[22] == t[22]);
            }
        }
        let c = 20 + d;
        if c != z {
            assert(c < z);
            assert(utc_offset_at(s, c) is None);
            assert(!is_ascii_digit(t[z]));
            assert(utc_offset_at(t, c) is None);
        }
    } else {
        if 19 != z {
            assert(utc_offset_at(s, 19) is None);
            assert(utc_offset_at(t, 19) is None);
        }
    }
}

// ---------------------------------------------------------------------------
// The calendar count
// ---------------------------------------------------------------------------

/// The day after a valid date.
pub open spec fn next_day(y: int, m: int, d: int) -> (int, int, int) {
    if d < days_in_month(y, m) {
        (y, m, d + 1)
    } else if m < 12 {
        (y, m + 1, 1)
    } else {
        (y + 1, 1, 1)
    }
}

/// Days are counted from 1970-01-01, one per calendar day: the epoch day
/// is day 0 and the day after any valid date is the next day.
pub proof fn lemma_days_count_calendar_days(y: int, m: int, d: int)
    requires
        valid_date(y, m, d),
    ensures
        days_from_civil(1970, 1, 1) == 0,
        valid_date(next_day(y, m, d).0, next_day(y, m, d).1, next_day(y, m, d).2),
        days_from_civil(next_day(y, m, d).0, next_day(y, m, d).1, next_day(y, m, d).2)
            == days_from_civil(y, m, d) + 1,
{
    lemma_days_from_civil_parts(1970, 1, 1);
    lemma_day_offset(y, m, d);
    if d < days_in_month(y, m) {
        lemma_day_offset(y, m, d + 1);
    } else if m < 12 {
        lemma_month_step(y, m);
    } else {
        lemma_new_year_step(y);
    }
}

// ---------------------------------------------------------------------------
// Fields of a parsed datetime
// ---------------------------------------------------------------------------

/// A datetime that parses is written `YYYY-MM-DDTHH:MM:SS`, with an
/// optional fraction, and ends in `Z` or a `±HH:MM` offset; it names a
/// real date and a time with hours at most 23 and minutes and seconds at
/// most 59.
pub proof fn lemma_parsed_fields_in_range(s: Seq<char>)
    requires
        rfc3339_millis(s) is Some,
    ensures
        s.len() >= 20,
        s[4] == '-' && s[7] == '-' && s[10] == 'T' && s[13] == ':' && s[16] == ':',
        digits_at(s, 0, 4) && digits_at(s, 5, 2) && digits_at(s, 8, 2),
        digits_at(s, 11, 2) && digits_at(s, 14, 2) && digits_at(s, 17, 2),
        s[s.len() - 1] == 'Z' || ((s[s.len() - 6] == '+' || s[s.len() - 6] == '-') && s[s.len()
            - 3] == ':' && digits_at(s, s.len() - 5, 2) && digits_at(s, s.len() - 2, 2)),
        valid_date(number_at(s, 0, 4), number_at(s, 5, 2), number_at(s, 8, 2)),
        0 <= number_at(s, 11, 2) <= 23,
        0 <= number_at(s, 14, 2) <= 59,
        0 <= number_at(s, 17, 2) <= 59,
{
    lemma_two_digits(s, 11);
    lemma_two_digits(s, 14);
    lemma_two_digits(s, 17);
}

/// A `Z` datetime to the second is its date's midnight plus the time of
/// day: `HH * 3600 + MM * 60 + SS` seconds, in milliseconds; and midnight
/// of a date is its day count times 86 400 000 milliseconds.
pub proof fn lemma_time_of_day(s: Seq<char>)
    requires
        is_utc_second_stamp(s),
        rfc3339_millis(s) is Some,
    ensures
        rfc3339_millis(s.take(10) + "T00:00:00Z"@) == Some(
            days_from_civil(number_at(s, 0, 4), number_at(s, 5, 2), number_at(s, 8, 2))
                * 86_400_000,
        ),
        rfc3339_millis(s)->0 == rfc3339_millis(s.take(10) + "T00:00:00Z"@)->0 + (number_at(
            s,
            11,
            2,
        ) * 3600 + number_at(s, 14, 2) * 60 + number_at(s, 17, 2)) * 1000,
{
    reveal_strlit("T00:00:00Z");
    lemma_stamp_millis(s);
    let u = s.take(10) + "T00:00:00Z"@;
    assert(u.len() == 20);
    assert forall|i: int| 0 <= i < 10 implies u[i] == s[i] by {}
    assert(u[10] == 'T' && u[11] == '0' && u[12] == '0' && u[13] == ':' && u[14] == '0'
        && u[15] == '0' && u[16] == ':' && u[17] == '0' && u[18] == '0' && u[19] == 'Z');
    lemma_field_equal(s, u, 0, 4);
    lemma_field_equal(s, u, 5, 2);
    lemma_field_equal(s, u, 8, 2);
    assert(is_utc_second_stamp(u));
    reveal_with_fuel(number_at, 3);
    assert(number_at(u, 11, 2) == 0 && number_at(u, 14, 2) == 0 && number_at(u, 17, 2) == 0);
    assert(utc_offset_at(u, 19) == Some(0int));
}

/// Numbers spelled at two places of two sequences that agree there are
/// equal.
proof fn lemma_number_at_shift(s: Seq<char>, t: Seq<char>, a: int, b: int, n: nat)
    requires
        forall|i: int| 0 <= i < n ==> #[trigger] s[a + i] == t[b + i],
    ensures
        number_at(s, a, n) == number_at(t, b, n),
    decreases n,
{
    if n > 0 {
        assert(s[a + (n - 1)] == t[b + (n - 1)]);
        lemma_number_at_shift(s, t, a, b, (n - 1) as nat);
    }
}

/// The characters of a run of digits are digits.
proof fn lemma_digit_run_digits(s: Seq<char>, start: int, i: int)
    requires
        0 <= start <= i < start + digit_run(s, start),
    ensures
        i < s.len(),
        is_ascii_digit(s[i]),
    decreases i - start,
{
    if i > start {
        lemma_digit_run_digits(s, start + 1, i);
    }
}

proof fn lemma_digit_run_nonneg(s: Seq<char>, start: int)
    ensures
        digit_run(s, start) >= 0,
    decreases s.len() - start,
{
    if !(start < 0 || start >= s.len() || !is_ascii_digit(s[start])) {
        lemma_digit_run_nonneg(s, start + 1);
    }
}

/// The datetime with its fraction removed.
pub open spec fn without_fraction(s: Seq<char>) -> Seq<char> {
    s.take(19) + s.skip(20 + digit_run(s, 20))
}

/// A fraction of a second adds its first three digits as milliseconds
/// (a single digit counts hundreds, two count tens) to the datetime without
/// it, and the datetime without it parses.
pub proof fn lemma_fraction_adds_millis(s: Seq<char>)
    requires
        rfc3339_millis(s) is Some,
        s[19] == '.',
    ensures
        1 <= digit_run(s, 20) <= 9,
        rfc3339_millis(without_fraction(s)) is Some,
        rfc3339_millis(s)->0 == rfc3339_millis(without_fraction(s))->0 + if digit_run(s, 20)
            >= 3 {
            number_at(s, 20, 3)
        } else if digit_run(s, 20) == 2 {
            number_at(s, 20, 2) * 10
        } else {
            number_at(s, 20, 1) * 100
        },
{
    let n = digit_run(s, 20);
    let c = 20 + n;
    let w = without_fraction(s);
    lemma_digit_run_nonneg(s, 20);
    assert(utc_offset_at(s, c) is Some);
    assert(c < s.len());
    assert(w.len() == s.len() - n - 1);
    assert forall|i: int| 0 <= i < 19 implies w[i] == s[i] by {}
    assert forall|j: int| 0 <= j < s.len() - c implies #[trigger] w[19 + j] == s[c + j] by {}
    assert(w[19] == s[c]);
    assert(s[c] != '.' && !is_ascii_digit(s[c]));
    lemma_field_equal(s, w, 0, 4);
    lemma_field_equal(s, w, 5, 2);
    lemma_field_equal(s, w, 8, 2);
    lemma_field_equal(s, w, 11, 2);
    lemma_field_equal(s, w, 14, 2);
    lemma_field_equal(s, w, 17, 2);
    assert(digits_at(s, 0, 4) == digits_at(w, 0, 4));
    assert(digits_at(s, 5, 2) == digits_at(w, 5, 2));
    assert(digits_at(s, 8, 2) == digits_at(w, 8, 2));
    assert(digits_at(s, 11, 2) == digits_at(w, 11, 2));
    assert(digits_at(s, 14, 2) == digits_at(w, 14, 2));
    assert(digits_at(s, 17, 2) == digits_at(w, 17, 2));
    if s[c] != 'Z' {
        assert forall|i: int| 0 <= i < 2 implies #[trigger] s[(c + 1) + i] == w[(19 + 1) + i] by {
            assert(w[19 + (1 + i)] == s[c + (1 + i)]);
        }
        assert forall|i: int| 0 <= i < 2 implies #[trigger] s[(c + 4) + i] == w[(19 + 4) + i] by {
            assert(w[19 + (4 + i)] == s[c + (4 + i)]);
        }
        lemma_number_at_shift(s, w, c + 1, 20, 2);
        lemma_number_at_shift(s, w, c + 4, 23, 2);
        assert(w[22] == s[c + 3]);
        assert(digits_at(s, c + 1, 2) == digits_at(w, 20, 2)) by {
            assert(w[19int + 1] == s[c + 1]);
            assert(w[19int + 2] == s[c + 2]);
        }
        assert(digits_at(s, c + 4, 2) == digits_at(w, 23, 2)) by {
            assert(w[19int + 4] == s[c + 4]);
            assert(w[19int + 5] == s[c + 5]);
        }
    }
    assert(utc_offset_at(w, 19) == utc_offset_at(s, c));
    lemma_digit_run_digits(s, 20, 20);
    if n >= 2 {
        lemma_digit_run_digits(s, 20, 21);
    }
    if n >= 3 {
        lemma_digit_run_digits(s, 20, 22);
    }
    reveal_with_fuel(number_at, 4);
}

} // verus!

//! Character classes and small string operations shared by every record
//! validator: character predicates, trimming, prefix tests, equality and
//! message building.
use vstd::prelude::*;

verus! {

// ---------------------------------------------------------------------------
// Character classes
// ---------------------------------------------------------------------------

pub open spec fn is_ascii_digit(c: char) -> bool {
    '0' <= c && c <= '9'
}

pub open spec fn is_ascii_upper(c: char) -> bool {
    'A' <= c && c <= 'Z'
}

pub open spec fn is_ascii_lower(c: char) -> bool {
    'a' <= c && c <= 'z'
}

pub open spec fn is_ascii_alnum(c: char) -> bool {
    is_ascii_digit(c) || is_ascii_upper(c) || is_ascii_lower(c)
}

/// Lowercase hexadecimal digit.
pub open spec fn is_lower_hex(c: char) -> bool {
    is_ascii_digit(c) || ('a' <= c && c <= 'f')
}

/// Path-safe identifier character: `[A-Za-z0-9_-]`.
pub open spec fn is_path_safe(c: char) -> bool {
    is_ascii_alnum(c) || c == '_' || c == '-'
}

/// Character of a compact JWS field: `[A-Za-z0-9._~-]`.
pub open spec fn is_jws_char(c: char) -> bool {
    is_ascii_alnum(c) || c == '.' || c == '_' || c == '~' || c == '-'
}

/// Character allowed in the tail of a marketplace URI path.
pub open spec fn is_uri_path_char(c: char) -> bool {
    is_ascii_alnum(c) || c == '_' || c == '.' || c == '/' || c == '-'
}

/// Uppercase letter or digit.
pub open spec fn is_upper_alnum(c: char) -> bool {
    is_ascii_upper(c) || is_ascii_digit(c)
}

/// The Unicode `White_Space` property, as `char::is_whitespace` defines it.
pub open spec fn is_whitespace(c: char) -> bool {
    ||| ('\u{9}' <= c && c <= '\u{d}')
    ||| c == ' '
    ||| c == '\u{85}'
    ||| c == '\u{a0}'
    ||| c == '\u{1680}'
    ||| ('\u{2000}' <= c && c <= '\u{200a}')
    ||| c == '\u{2028}'
    ||| c == '\u{2029}'
    ||| c == '\u{202f}'
    ||| c == '\u{205f}'
    ||| c == '\u{3000}'
}

pub fn ascii_digit(c: char) -> (r: bool)
    ensures
        r == is_ascii_digit(c),
{
    '0' <= c && c <= '9'
}

pub fn ascii_upper(c: char) -> (r: bool)
    ensures
        r == is_ascii_upper(c),
{
    'A' <= c && c <= 'Z'
}

pub fn ascii_lower(c: char) -> (r: bool)
    ensures
        r == is_ascii_lower(c),
{
    'a' <= c && c <= 'z'
}

pub fn ascii_alnum(c: char) -> (r: bool)
    ensures
        r == is_ascii_alnum(c),
{
    ascii_digit(c) || ascii_upper(c) || ascii_lower(c)
}

pub fn whitespace(c: char) -> (r: bool)
    ensures
        r == is_whitespace(c),
{
    ('\u{9}' <= c && c <= '\u{d}') || c == ' ' || c == '\u{85}' || c == '\u{a0}' || c
        == '\u{1680}' || ('\u{2000}' <= c && c <= '\u{200a}') || c == '\u{2028}' || c
        == '\u{2029}' || c == '\u{202f}' || c == '\u{205f}' || c == '\u{3000}'
}

// ---------------------------------------------------------------------------
// Whole-string predicates
// ---------------------------------------------------------------------------

pub open spec fn all_path_safe(s: Seq<char>) -> bool {
    forall|i: int| 0 <= i < s.len() ==> #[trigger] is_path_safe(s[i])
}

pub open spec fn all_jws_chars(s: Seq<char>) -> bool {
    forall|i: int| 0 <= i < s.len() ==> #[trigger] is_jws_char(s[i])
}

pub open spec fn all_uri_path_chars(s: Seq<char>) -> bool {
    forall|i: int| 0 <= i < s.len() ==> #[trigger] is_uri_path_char(s[i])
}

pub open spec fn all_lower_hex(s: Seq<char>) -> bool {
    forall|i: int| 0 <= i < s.len() ==> #[trigger] is_lower_hex(s[i])
}

pub open spec fn all_ascii_upper(s: Seq<char>) -> bool {
    forall|i: int| 0 <= i < s.len() ==> #[trigger] is_ascii_upper(s[i])
}

pub open spec fn all_upper_alnum(s: Seq<char>) -> bool {
    forall|i: int| 0 <= i < s.len() ==> #[trigger] is_upper_alnum(s[i])
}

/// Copies the characters of `s` into a vector, in order.
pub fn chars_of(s: &str) -> (v: Vec<char>)
    ensures
        v@ == s@,
{
    let mut v: Vec<char> = Vec::new();
    for c in it: s.chars()
        invariant
            v@ == it.seq().take(it.index() as int),
            it.seq() == s@,
    {
        v.push(c);
    }
    v
}

/// Number of characters (Unicode scalar values) in `s`.
pub fn char_count(s: &str) -> (n: usize)
    ensures
        n == s@.len(),
{
    s.unicode_len()
}

pub fn check_all_path_safe(s: &Vec<char>) -> (r: bool)
    ensures
        r == all_path_safe(s@),
{
    let mut i: usize = 0;
    while i < s.len()
        invariant
            i <= s.len(),
            forall|j: int| 0 <= j < i ==> #[trigger] is_path_safe(s@[j]),
        decreases s.len() - i,
    {
        let c = s[i];
        if !(ascii_alnum(c) || c == '_' || c == '-') {
            assert(!is_path_safe(s@[i as int]));
            return false;
        }
        i = i + 1;
    }
    true
}

pub fn check_all_jws_chars(s: &Vec<char>) -> (r: bool)
    ensures
        r == all_jws_chars(s@),
{
    let mut i: usize = 0;
    while i < s.len()
        invariant
            i <= s.len(),
            forall|j: int| 0 <= j < i ==> #[trigger] is_jws_char(s@[j]),
        decreases s.len() - i,
    {
        let c = s[i];
        if !(ascii_alnum(c) || c == '.' || c == '_' || c == '~' || c == '-') {
            assert(!is_jws_char(s@[i as int]));
            return false;
        }
        i = i + 1;
    }
    true
}

pub fn check_all_uri_path_chars(s: &Vec<char>) -> (r: bool)
    ensures
        r == all_uri_path_chars(s@),
{
    let mut i: usize = 0;
    while i < s.len()
        invariant
            i <= s.len(),
            forall|j: int| 0 <= j < i ==> #[trigger] is_uri_path_char(s@[j]),
        decreases s.len() - i,
    {
        let c = s[i];
        if !(ascii_alnum(c) || c == '_' || c == '.' || c == '/' || c == '-') {
            assert(!is_uri_path_char(s@[i as int]));
            return false;
        }
        i = i + 1;
    }
    true
}

pub fn check_all_lower_hex(s: &Vec<char>) -> (r: bool)
    ensures
        r == all_lower_hex(s@),
{
    let mut i: usize = 0;
    while i < s.len()
        invariant
            i <= s.len(),
            forall|j: int| 0 <= j < i ==> #[trigger] is_lower_hex(s@[j]),
        decreases s.len() - i,
    {
        let c = s[i];
        if !(ascii_digit(c) || ('a' <= c && c <= 'f')) {
            assert(!is_lower_hex(s@[i as int]));
            return false;
        }
        i = i + 1;
    }
    true
}

pub fn check_all_ascii_upper(s: &Vec<char>) -> (r: bool)
    ensures
        r == all_ascii_upper(s@),
{
    let mut i: usize = 0;
    while i < s.len()
        invariant
            i <= s.len(),
            forall|j: int| 0 <= j < i ==> #[trigger] is_ascii_upper(s@[j]),
        decreases s.len() - i,
    {
        if !ascii_upper(s[i]) {
            assert(!is_ascii_upper(s@[i as int]));
            return false;
        }
        i = i + 1;
    }
    true
}

pub fn check_all_upper_alnum(s: &Vec<char>) -> (r: bool)
    ensures
        r == all_upper_alnum(s@),
{
    let mut i: usize = 0;
    while i < s.len()
        invariant
            i <= s.len(),
            forall|j: int| 0 <= j < i ==> #[trigger] is_upper_alnum(s@[j]),
        decreases s.len() - i,
    {
        let c = s[i];
        if !(ascii_upper(c) || ascii_digit(c)) {
            assert(!is_upper_alnum(s@[i as int]));
            return false;
        }
        i = i + 1;
    }
    true
}

// ---------------------------------------------------------------------------
// Equality and prefixes
// ---------------------------------------------------------------------------

/// Character-wise equality of two string slices.
pub fn str_eq(a: &str, b: &str) -> (r: bool)
    ensures
        r == (a@ == b@),
{
    let va = chars_of(a);
    let vb = chars_of(b);
    if va.len() != vb.len() {
        return false;
    }
    let mut i: usize = 0;
    while i < va.len()
        invariant
            va@ == a@,
            vb@ == b@,
            va.len() == vb.len(),
            i <= va.len(),
            forall|j: int| 0 <= j < i ==> va@[j] == vb@[j],
        decreases va.len() - i,
    {
        if va[i] != vb[i] {
            return false;
        }
        i = i + 1;
    }
    assert(va@ =~= vb@);
    true
}

/// `p` is a prefix of `s`.
pub open spec fn has_prefix(s: Seq<char>, p: Seq<char>) -> bool {
    p.len() <= s.len() && s.take(p.len() as int) == p
}

/// Whether `prefix` is a prefix of `s`.
pub fn starts_with(s: &str, prefix: &str) -> (r: bool)
    ensures
        r == has_prefix(s@, prefix@),
{
    let vs = chars_of(s);
    let vp = chars_of(prefix);
    if vp.len() > vs.len() {
        return false;
    }
    let mut i: usize = 0;
    while i < vp.len()
        invariant
            vs@ == s@,
            vp@ == prefix@,
            vp.len() <= vs.len(),
            i <= vp.len(),
            forall|j: int| 0 <= j < i ==> vs@[j] == vp@[j],
        decreases vp.len() - i,
    {
        if vs[i] != vp[i] {
            assert(s@.take(prefix@.len() as int)[i as int] != prefix@[i as int]);
            return false;
        }
        i = i + 1;
    }
    assert(s@.take(prefix@.len() as int) =~= prefix@);
    true
}

// ---------------------------------------------------------------------------
// Trimming
// ---------------------------------------------------------------------------

/// `s` without its leading whitespace.
pub open spec fn trim_start(s: Seq<char>) -> Seq<char>
    decreases s.len(),
{
    if s.len() > 0 && is_whitespace(s[0]) {
        trim_start(s.drop_first())
    } else {
        s
    }
}

/// `s` without its trailing whitespace.
pub open spec fn trim_end(s: Seq<char>) -> Seq<char>
    decreases s.len(),
{
    if s.len() > 0 && is_whitespace(s.last()) {
        trim_end(s.drop_last())
    } else {
        s
    }
}

/// `s` without leading and trailing whitespace, as `str::trim` gives it.
pub open spec fn trim(s: Seq<char>) -> Seq<char> {
    trim_end(trim_start(s))
}

/// `trim_start(s)` is the suffix of `s` after its first non-whitespace
/// position `k`; every character before `k` is whitespace.
proof fn lemma_trim_start_shape(s: Seq<char>) -> (k: int)
    ensures
        0 <= k <= s.len(),
        trim_start(s) == s.skip(k),
        forall|j: int| 0 <= j < k ==> #[trigger] is_whitespace(s[j]),
        k < s.len() ==> !is_whitespace(s[k]),
    decreases s.len(),
{
    if s.len() > 0 && is_whitespace(s[0]) {
        let k0 = lemma_trim_start_shape(s.drop_first());
        assert(s.drop_first().skip(k0) =~= s.skip(k0 + 1));
        assert forall|j: int| 0 <= j < k0 + 1 implies #[trigger] is_whitespace(s[j]) by {
            if j > 0 {
                assert(s[j] == s.drop_first()[j - 1]);
            }
        }
        k0 + 1
    } else {
        assert(s.skip(0) =~= s);
        0
    }
}

/// `trim_end(s)` is the prefix of `s` before position `k`; every character
/// from `k` on is whitespace.
proof fn lemma_trim_end_shape(s: Seq<char>) -> (k: int)
    ensures
        0 <= k <= s.len(),
        trim_end(s) == s.take(k),
        forall|j: int| k <= j < s.len() ==> #[trigger] is_whitespace(s[j]),
        k > 0 ==> !is_whitespace(s[k - 1]),
    decreases s.len(),
{
    if s.len() > 0 && is_whitespace(s.last()) {
        let k0 = lemma_trim_end_shape(s.drop_last());
        assert(s.drop_last().take(k0) =~= s.take(k0));
        assert forall|j: int| k0 <= j < s.len() implies #[trigger] is_whitespace(s[j]) by {
            if j < s.len() - 1 {
                assert(s[j] == s.drop_last()[j]);
            }
        }
        k0
    } else {
        assert(s.take(s.len() as int) =~= s);
        s.len() as int
    }
}

proof fn lemma_trim_start_of_nonspace(s: Seq<char>)
    requires
        s.len() == 0 || !is_whitespace(s[0]),
    ensures
        trim_start(s) == s,
{
}

proof fn lemma_trim_end_of_nonspace(s: Seq<char>)
    requires
        s.len() == 0 || !is_whitespace(s.last()),
    ensures
        trim_end(s) == s,
{
}

/// Trimming is idempotent: a trimmed string is left unchanged by a second
/// trim.
pub proof fn lemma_trim_idempotent(s: Seq<char>)
    ensures
        trim(trim(s)) == trim(s),
{
    let a = trim_start(s);
    let b = trim_end(a);
    let ka = lemma_trim_start_shape(s);
    let kb = lemma_trim_end_shape(a);
    if b.len() > 0 {
        assert(b[0] == a[0]);
        lemma_trim_start_of_nonspace(b);
        assert(b.last() == a[kb - 1]);
        lemma_trim_end_of_nonspace(b);
    } else {
        lemma_trim_start_of_nonspace(b);
        lemma_trim_end_of_nonspace(b);
    }
}

/// A trimmed string neither starts nor ends with whitespace.
pub proof fn lemma_trim_has_no_outer_space(s: Seq<char>)
    ensures
        trim(s).len() > 0 ==> !is_whitespace(trim(s)[0]) && !is_whitespace(trim(s).last()),
{
    let a = trim_start(s);
    let ka = lemma_trim_start_shape(s);
    let kb = lemma_trim_end_shape(a);
    if trim(s).len() > 0 {
        assert(trim(s)[0] == a[0]);
        assert(trim(s).last() == a[kb - 1]);
    }
}

/// `s` with leading and trailing whitespace removed (`str::trim`).
pub fn trim_str(s: &str) -> (r: String)
    ensures
        r@ == trim(s@),
{
    let v = chars_of(s);
    let ghost ka = lemma_trim_start_shape(s@);
    let mut start: usize = 0;
    while start < v.len() && whitespace(v[start])
        invariant
            v@ == s@,
            start <= v.len(),
            start <= ka,
            0 <= ka <= s@.len(),
            forall|j: int| 0 <= j < ka ==> #[trigger] is_whitespace(s@[j]),
            ka < s@.len() ==> !is_whitespace(s@[ka]),
        decreases v.len() - start,
    {
        start = start + 1;
    }
    assert(start == ka);
    let ghost a = trim_start(s@);
    let ghost kb = lemma_trim_end_shape(a);
    let mut end: usize = v.len();
    while end > start && whitespace(v[end - 1])
        invariant
            v@ == s@,
            a == s@.skip(start as int),
            start <= end <= v.len(),
            end - start >= kb,
            0 <= kb <= a.len(),
            forall|j: int| kb <= j < a.len() ==> #[trigger] is_whitespace(a[j]),
            kb > 0 ==> !is_whitespace(a[kb - 1]),
        decreases end,
    {
        assert(v@[end - 1] == a[end - 1 - start]);
        end = end - 1;
    }
    assert(end - start == kb) by {
        if end - start > kb {
            assert(v@[end - 1] == a[end - 1 - start]);
        }
    }
    assert(trim(s@) =~= s@.subrange(start as int, end as int));
    let sub = s.substring_char(start, end);
    sub.to_owned()
}

/// Trims an optional string.
pub fn trim_opt(s: &Option<String>) -> (r: Option<String>)
    ensures
        r is Some <==> s is Some,
        r is Some ==> r->0@ == trim(s->0@),
{
    match s {
        Some(v) => Some(trim_str(v.as_str())),
        None => None,
    }
}

pub open spec fn opt_view(s: Option<String>) -> Option<Seq<char>> {
    match s {
        Some(v) => Some(v@),
        None => None,
    }
}

/// The view of an optional string slice.
pub open spec fn opt_str_view(s: Option<&str>) -> Option<Seq<char>> {
    match s {
        Some(v) => Some(v@),
        None => None,
    }
}

pub open spec fn trim_opt_spec(s: Option<Seq<char>>) -> Option<Seq<char>> {
    match s {
        Some(v) => Some(trim(v)),
        None => None,
    }
}

// ---------------------------------------------------------------------------
// Building strings and messages
// ---------------------------------------------------------------------------

/// Appends one character to a string (`String::push`).
#[verifier::external_body]
pub(crate) fn push_char(s: &mut String, c: char)
    ensures
        final(s)@ == old(s)@.push(c),
{
    s.push(c);
}

/// A new owned copy of `s`.
pub fn owned(s: &str) -> (r: String)
    ensures
        r@ == s@,
{
    s.to_owned()
}

/// The concatenation `a ++ b`.
pub fn concat2(a: &str, b: &str) -> (r: String)
    ensures
        r@ == a@ + b@,
{
    let mut r = a.to_owned();
    r.append(b);
    r
}

/// The concatenation `a ++ b ++ c`.
pub fn concat3(a: &str, b: &str, c: &str) -> (r: String)
    ensures
        r@ == a@ + b@ + c@,
{
    let mut r = a.to_owned();
    r.append(b);
    r.append(c);
    r
}

/// A string made of the characters of `v`.
pub fn string_of(v: &Vec<char>) -> (r: String)
    ensures
        r@ == v@,
{
    let mut r = String::new();
    let mut i: usize = 0;
    while i < v.len()
        invariant
            i <= v.len(),
            r@ == v@.take(i as int),
        decreases v.len() - i,
    {
        push_char(&mut r, v[i]);
        assert(v@.take(i + 1) =~= v@.take(i as int).push(v@[i as int]));
        i = i + 1;
    }
    assert(v@.take(v.len() as int) =~= v@);
    r
}

/// Maps an error message to the abstract outcome of a check.
pub open spec fn outcome(r: Result<(), String>) -> Result<(), Seq<char>> {
    match r {
        Ok(_) => Ok(()),
        Err(e) => Err(e@),
    }
}

/// Sequential composition of two checks: the first error wins.
pub open spec fn and_then(a: Result<(), Seq<char>>, b: Result<(), Seq<char>>) -> Result<(), Seq<char>> {
    match a {
        Err(e) => Err(e),
        Ok(_) => b,
    }
}

/// The first error among a sequence of check outcomes.
pub open spec fn first_error(rs: Seq<Result<(), Seq<char>>>) -> Result<(), Seq<char>>
    decreases rs.len(),
{
    if rs.len() == 0 {
        Ok(())
    } else {
        and_then(rs[0], first_error(rs.drop_first()))
    }
}

// ---------------------------------------------------------------------------
// Sequences of strings
// ---------------------------------------------------------------------------

/// The character sequences of a sequence of strings.
pub open spec fn views(v: Seq<String>) -> Seq<Seq<char>> {
    v.map_values(|s: String| s@)
}

/// No two elements of `s` are equal.
pub open spec fn all_distinct(s: Seq<Seq<char>>) -> bool {
    forall|i: int, j: int| 0 <= i < j < s.len() ==> #[trigger] s[i] != #[trigger] s[j]
}

/// The outcome of requiring the elements of `values` to be unique.
pub open spec fn unique_check(values: Seq<Seq<char>>, what: Seq<char>) -> Result<(), Seq<char>> {
    if all_distinct(values) {
        Ok(())
    } else {
        Err("Validation Error: "@ + what + " must be unique"@)
    }
}

/// Whether the strings of `values` are pairwise different.
pub fn strings_distinct(values: &Vec<String>) -> (r: bool)
    ensures
        r == all_distinct(views(values@)),
{
    let ghost s = views(values@);
    let mut j: usize = 0;
    while j < values.len()
        invariant
            s == views(values@),
            j <= values.len(),
            forall|a: int, b: int| 0 <= a < b < j ==> #[trigger] s[a] != #[trigger] s[b],
        decreases values.len() - j,
    {
        let mut i: usize = 0;
        while i < j
            invariant
                s == views(values@),
                i <= j < values.len(),
                forall|a: int| 0 <= a < i ==> #[trigger] s[a] != s[j as int],
            decreases j - i,
        {
            if values[i] == values[j] {
                assert(s[i as int] == s[j as int]);
                return false;
            }
            i = i + 1;
        }
        j = j + 1;
    }
    true
}

/// Requires the elements of `values` to be unique.
pub fn ensure_unique(values: &Vec<String>, what: &str) -> (r: Result<(), String>)
    ensures
        outcome(r) == unique_check(views(values@), what@),
{
    if strings_distinct(values) {
        Ok(())
    } else {
        Err(concat3("Validation Error: ", what, " must be unique"))
    }
}

/// The first error of `f` over the elements of `items`, in order.
pub open spec fn each_check<T>(items: Seq<T>, f: spec_fn(T) -> Result<(), Seq<char>>) -> Result<(), Seq<char>>
    decreases items.len(),
{
    if items.len() == 0 {
        Ok(())
    } else {
        and_then(f(items[0]), each_check(items.drop_first(), f))
    }
}

/// One step of an in-order scan: the outcome over `items[i..]` is the
/// outcome of element `i` followed by the outcome over `items[i + 1..]`.
pub proof fn lemma_each_check_step<T>(items: Seq<T>, f: spec_fn(T) -> Result<(), Seq<char>>, i: int)
    requires
        0 <= i < items.len(),
    ensures
        each_check(items.skip(i), f) == and_then(f(items[i]), each_check(items.skip(i + 1), f)),
{
    assert(items.skip(i).drop_first() =~= items.skip(i + 1));
    assert(items.skip(i)[0] == items[i]);
}

/// A scan over no element succeeds.
pub proof fn lemma_each_check_end<T>(items: Seq<T>, f: spec_fn(T) -> Result<(), Seq<char>>)
    ensures
        each_check(items.skip(items.len() as int), f) is Ok,
{
    assert(items.skip(items.len() as int) =~= Seq::<T>::empty());
}

/// Each element passes when the whole scan does.
pub proof fn lemma_each_check_all<T>(items: Seq<T>, f: spec_fn(T) -> Result<(), Seq<char>>, i: int)
    requires
        each_check(items, f) is Ok,
        0 <= i < items.len(),
    ensures
        f(items[i]) is Ok,
    decreases items.len(),
{
    if i > 0 {
        lemma_each_check_all(items.drop_first(), f, i - 1);
        assert(items.drop_first()[i - 1] == items[i]);
    }
}

// ---------------------------------------------------------------------------
// Lexicographic order
// ---------------------------------------------------------------------------

/// `a` sorts strictly before `b`: the order of `String`'s `Ord`, which
/// compares UTF-8 bytes and so orders by code point, character by
/// character, a proper prefix first.
pub open spec fn seq_less(a: Seq<char>, b: Seq<char>) -> bool
    decreases a.len(),
{
    if b.len() == 0 {
        false
    } else if a.len() == 0 {
        true
    } else if a[0] != b[0] {
        a[0] < b[0]
    } else {
        seq_less(a.drop_first(), b.drop_first())
    }
}

/// Nothing sorts before itself.
pub proof fn lemma_less_irreflexive(a: Seq<char>)
    ensures
        !seq_less(a, a),
    decreases a.len(),
{
    if a.len() > 0 {
        lemma_less_irreflexive(a.drop_first());
    }
}

/// Two different sequences are ordered one way or the other.
pub proof fn lemma_less_total(a: Seq<char>, b: Seq<char>)
    requires
        a != b,
    ensures
        seq_less(a, b) || seq_less(b, a),
    decreases a.len(),
{
    if a.len() > 0 && b.len() > 0 && a[0] == b[0] {
        if a.drop_first() == b.drop_first() {
            assert(a =~= seq![a[0]] + a.drop_first());
            assert(b =~= seq![b[0]] + b.drop_first());
        }
        lemma_less_total(a.drop_first(), b.drop_first());
    } else if a.len() == 0 && b.len() == 0 {
        assert(a =~= b);
    }
}

/// The order is transitive.
pub proof fn lemma_less_transitive(a: Seq<char>, b: Seq<char>, c: Seq<char>)
    requires
        seq_less(a, b),
        seq_less(b, c),
    ensures
        seq_less(a, c),
    decreases a.len(),
{
    if a.len() > 0 && b.len() > 0 && c.len() > 0 && a[0] == b[0] && b[0] == c[0] {
        lemma_less_transitive(a.drop_first(), b.drop_first(), c.drop_first());
    }
}

/// Whether `a` sorts strictly before `b`.
pub fn str_less(a: &str, b: &str) -> (r: bool)
    ensures
        r == seq_less(a@, b@),
{
    let va = chars_of(a);
    let vb = chars_of(b);
    let mut i: usize = 0;
    assert(va@.skip(0) =~= va@);
    assert(vb@.skip(0) =~= vb@);
    while i < va.len() && i < vb.len() && va[i] == vb[i]
        invariant
            va@ == a@,
            vb@ == b@,
            i <= va.len(),
            i <= vb.len(),
            seq_less(a@, b@) == seq_less(va@.skip(i as int), vb@.skip(i as int)),
        decreases va.len() - i,
    {
        assert(va@.skip(i as int).drop_first() =~= va@.skip(i + 1));
        assert(vb@.skip(i as int).drop_first() =~= vb@.skip(i + 1));
        i = i + 1;
    }
    assert(i < va.len() ==> va@.skip(i as int)[0] == va@[i as int]);
    assert(i < vb.len() ==> vb@.skip(i as int)[0] == vb@[i as int]);
    if i == vb.len() {
        false
    } else if i == va.len() {
        true
    } else {
        va[i] < vb[i]
    }
}

// ---------------------------------------------------------------------------
// Sorted keys
// ---------------------------------------------------------------------------

/// The `i`-th key of `s` sorts strictly before the next one.
pub open spec fn key_step<V>(s: Seq<(String, V)>, i: int) -> bool {
    seq_less(s[i].0@, s[i + 1].0@)
}

/// The keys of `s` ascend strictly, as the keys of an ordered map do.
pub open spec fn keys_ascending<V>(s: Seq<(String, V)>) -> bool {
    forall|i: int| 0 <= i < s.len() - 1 ==> #[trigger] key_step(s, i)
}

/// The keys of `s` are pairwise different.
pub open spec fn keys_distinct<V>(s: Seq<(String, V)>) -> bool {
    forall|i: int, j: int| 0 <= i < j < s.len() ==> s[i].0@ != s[j].0@
}

/// Strictly ascending keys sort pairwise, first before later.
pub proof fn lemma_keys_ascending_sorted<V>(s: Seq<(String, V)>, i: int, j: int)
    requires
        keys_ascending(s),
        0 <= i < j < s.len(),
    ensures
        seq_less(s[i].0@, s[j].0@),
    decreases j - i,
{
    assert(key_step(s, i));
    if j > i + 1 {
        lemma_keys_ascending_sorted(s, i + 1, j);
        lemma_less_transitive(s[i].0@, s[i + 1].0@, s[j].0@);
    }
}

/// Strictly ascending keys are pairwise different.
pub proof fn lemma_keys_ascending_distinct<V>(s: Seq<(String, V)>)
    requires
        keys_ascending(s),
    ensures
        keys_distinct(s),
{
    assert forall|i: int, j: int| 0 <= i < j < s.len() implies s[i].0@ != s[j].0@ by {
        lemma_keys_ascending_sorted(s, i, j);
        lemma_less_irreflexive(s[i].0@);
    }
}

/// Whether the keys of `s` ascend strictly.
pub fn check_keys_ascending<V>(s: &Vec<(String, V)>) -> (r: bool)
    ensures
        r == keys_ascending(s@),
{
    let mut i: usize = 1;
    while i < s.len()
        invariant
            1 <= i,
            forall|j: int| 0 <= j < i - 1 && j < s@.len() - 1 ==> #[trigger] key_step(s@, j),
        decreases s.len() - i,
    {
        if !str_less(s[i - 1].0.as_str(), s[i].0.as_str()) {
            assert(!key_step(s@, i - 1));
            return false;
        }
        assert(key_step(s@, i - 1));
        i = i + 1;
    }
    true
}

} // verus!

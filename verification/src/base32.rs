//! Unpadded base32 in 5-bit groups, as `base32::encode` writes it, with the
//! Crockford and z-base-32 alphabets, and the round trip of z-base-32
//! pubkys through their decoding.
use vstd::prelude::*;
use vstd::arithmetic::div_mod::lemma_fundamental_div_mod_converse;
use crate::encoding::{all_zbase32, is_zbase32_char, zb32_bytes, zb32_value, zbase32_pubky_key};

verus! {

// ---------------------------------------------------------------------------
// base32 in 5-bit groups
// ---------------------------------------------------------------------------

/// Byte `i` of `b`, or 0 past its end.
pub open spec fn byte_or_zero(b: Seq<u8>, i: int) -> int {
    if 0 <= i < b.len() {
        b[i] as int
    } else {
        0
    }
}

/// The eight 5-bit digits of the 40 big-endian bits of the first five
/// bytes of `b`, a missing byte read as zero.
pub open spec fn b32_group_digits(b: Seq<u8>) -> Seq<int> {
    let x0 = byte_or_zero(b, 0);
    let x1 = byte_or_zero(b, 1);
    let x2 = byte_or_zero(b, 2);
    let x3 = byte_or_zero(b, 3);
    let x4 = byte_or_zero(b, 4);
    seq![
        x0 / 8,
        (x0 % 8) * 4 + x1 / 64,
        (x1 % 64) / 2,
        (x1 % 2) * 16 + x2 / 16,
        (x2 % 16) * 2 + x3 / 128,
        (x3 % 128) / 4,
        (x3 % 4) * 8 + x4 / 32,
        x4 % 32,
    ]
}

/// The digits kept of a group of `n` bytes: all 8 of a full group of five,
/// else the `ceil(8n / 5)` that carry its bits (2, 4, 5 or 7).
pub open spec fn b32_group_len(n: int) -> int {
    if n >= 5 {
        8
    } else {
        (n * 8 + 4) / 5
    }
}

/// Unpadded base32 in the alphabet `alphabet` (digit value to character):
/// every five bytes become eight characters and a final shorter group keeps
/// only the characters that carry its bits.
#[verifier::opaque]
pub open spec fn b32_encode(alphabet: spec_fn(int) -> char, b: Seq<u8>) -> Seq<char>
    decreases b.len(),
{
    if b.len() == 0 {
        seq![]
    } else {
        let head = b32_group_digits(b).take(b32_group_len(b.len() as int)).map_values(
            |d: int| alphabet(d),
        );
        if b.len() <= 5 {
            head
        } else {
            head + b32_encode(alphabet, b.skip(5))
        }
    }
}

/// The Crockford base32 character of a 5-bit value: the digits, then the
/// capital letters without `I`, `L`, `O` and `U`.
pub open spec fn crockford_char(v: int) -> char {
    if v < 10 {
        (48 + v) as char
    } else if v < 18 {
        (65 + (v - 10)) as char
    } else if v < 20 {
        (74 + (v - 18)) as char
    } else if v < 22 {
        (77 + (v - 20)) as char
    } else if v < 27 {
        (80 + (v - 22)) as char
    } else {
        (86 + (v - 27)) as char
    }
}

/// The Crockford alphabet `0123456789ABCDEFGHJKMNPQRSTVWXYZ`.
pub open spec fn crockford_alphabet() -> spec_fn(int) -> char {
    |v: int| crockford_char(v)
}

/// The z-base-32 character of a 5-bit value (alphabet
/// `ybndrfg8ejkmcpqxot1uwisza345h769`).
pub open spec fn zb32_char(v: int) -> char {
    if v == 0 { 'y' }
    else if v == 1 { 'b' }
    else if v == 2 { 'n' }
    else if v == 3 { 'd' }
    else if v == 4 { 'r' }
    else if v == 5 { 'f' }
    else if v == 6 { 'g' }
    else if v == 7 { '8' }
    else if v == 8 { 'e' }
    else if v == 9 { 'j' }
    else if v == 10 { 'k' }
    else if v == 11 { 'm' }
    else if v == 12 { 'c' }
    else if v == 13 { 'p' }
    else if v == 14 { 'q' }
    else if v == 15 { 'x' }
    else if v == 16 { 'o' }
    else if v == 17 { 't' }
    else if v == 18 { '1' }
    else if v == 19 { 'u' }
    else if v == 20 { 'w' }
    else if v == 21 { 'i' }
    else if v == 22 { 's' }
    else if v == 23 { 'z' }
    else if v == 24 { 'a' }
    else if v == 25 { '3' }
    else if v == 26 { '4' }
    else if v == 27 { '5' }
    else if v == 28 { 'h' }
    else if v == 29 { '7' }
    else if v == 30 { '6' }
    else { '9' }
}

/// The z-base-32 alphabet.
pub open spec fn zbase32_alphabet() -> spec_fn(int) -> char {
    |v: int| zb32_char(v)
}

proof fn lemma_zb32_char_value(v: int)
    requires
        0 <= v < 32,
    ensures
        zb32_value(zb32_char(v)) == v,
{
}

proof fn lemma_b32_group_arith(x0: int, x1: int, x2: int, x3: int, x4: int)
    requires
        0 <= x0 < 256,
        0 <= x1 < 256,
        0 <= x2 < 256,
        0 <= x3 < 256,
        0 <= x4 < 256,
    ensures
        0 <= x0 / 8 < 32,
        0 <= (x0 % 8) * 4 + x1 / 64 < 32,
        0 <= (x1 % 64) / 2 < 32,
        0 <= (x1 % 2) * 16 + x2 / 16 < 32,
        0 <= (x2 % 16) * 2 + x3 / 128 < 32,
        0 <= (x3 % 128) / 4 < 32,
        0 <= (x3 % 4) * 8 + x4 / 32 < 32,
        0 <= x4 % 32 < 32,
        (x0 / 8) * 8 + ((x0 % 8) * 4 + x1 / 64) / 4 == x0,
        (((x0 % 8) * 4 + x1 / 64) % 4) * 64 + ((x1 % 64) / 2) * 2 + ((x1 % 2) * 16 + x2 / 16) / 16
            == x1,
        (((x1 % 2) * 16 + x2 / 16) % 16) * 16 + ((x2 % 16) * 2 + x3 / 128) / 2 == x2,
        (((x2 % 16) * 2 + x3 / 128) % 2) * 128 + ((x3 % 128) / 4) * 4 + ((x3 % 4) * 8 + x4 / 32)
            / 8 == x3,
        (((x3 % 4) * 8 + x4 / 32) % 8) * 32 + x4 % 32 == x4,
{
}

/// The z-base-32 decoding of the encoding of a group.
proof fn lemma_zb32_group(b: Seq<u8>, s: Seq<char>)
    requires
        b.len() >= 2,
        s.len() >= 4,
        forall|k: int|
            0 <= k < b32_group_len(b.len() as int) && k < s.len() ==> s[k] == zb32_char(
                b32_group_digits(b)[k],
            ),
    ensures
        b.len() >= 5 && s.len() >= 8 ==> forall|k: int| 0 <= k < 8 ==> #[trigger] is_zbase32_char(s[k]),
        forall|k: int| 0 <= k < 4 ==> #[trigger] is_zbase32_char(s[k]),
        zb32_bytes(s).take(2) == b.take(2),
        s.len() == 4 ==> zb32_bytes(s) == b.take(2),
        b.len() >= 5 && s.len() >= 8 ==> zb32_bytes(s).take(5) == b.take(5),
{
    let x0 = b[0] as int;
    let x1 = b[1] as int;
    let x2 = byte_or_zero(b, 2);
    let x3 = byte_or_zero(b, 3);
    let x4 = byte_or_zero(b, 4);
    lemma_b32_group_arith(x0, x1, x2, x3, x4);
    let d = b32_group_digits(b);
    assert(b32_group_len(b.len() as int) >= 4);
    assert forall|k: int| 0 <= k < 8 implies 0 <= #[trigger] d[k] < 32 by {}
    assert forall|k: int| 0 <= k < 4 implies zb32_value(#[trigger] s[k]) == d[k] by {
        lemma_zb32_char_value(d[k]);
    }
    assert(zb32_bytes(s).take(2) =~= b.take(2));
    if b.len() >= 5 && s.len() >= 8 {
        assert forall|k: int| 0 <= k < 8 implies zb32_value(#[trigger] s[k]) == d[k] by {
            lemma_zb32_char_value(d[k]);
        }
        assert(zb32_bytes(s).take(5) =~= b.take(5));
    }
}

/// The encoding of more than five bytes is the eight characters of the
/// first group followed by the encoding of the rest.
proof fn lemma_b32_encode_split(alphabet: spec_fn(int) -> char, b: Seq<u8>)
    requires
        b.len() > 5,
    ensures
        b32_encode(alphabet, b).len() == 8 + b32_encode(alphabet, b.skip(5)).len(),
        forall|k: int| 0 <= k < 8 ==> #[trigger] b32_encode(alphabet, b)[k] == alphabet(
            b32_group_digits(b)[k],
        ),
        b32_encode(alphabet, b).skip(8) == b32_encode(alphabet, b.skip(5)),
{
    reveal(b32_encode);
    let head = b32_group_digits(b).take(8).map_values(|d: int| alphabet(d));
    let rest = b32_encode(alphabet, b.skip(5));
    assert(b32_encode(alphabet, b) == head + rest);
    assert((head + rest).skip(8) =~= rest);
}

/// The encoding of two bytes is four characters.
proof fn lemma_b32_encode_two(alphabet: spec_fn(int) -> char, b: Seq<u8>)
    requires
        b.len() == 2,
    ensures
        b32_encode(alphabet, b).len() == 4,
        forall|k: int| 0 <= k < 4 ==> #[trigger] b32_encode(alphabet, b)[k] == alphabet(
            b32_group_digits(b)[k],
        ),
{
    reveal(b32_encode);
    assert(b32_group_len(2) == 4);
}

/// The first five decoded bytes come from the first eight characters.
proof fn lemma_zb32_bytes_split(s: Seq<char>)
    requires
        s.len() >= 8,
    ensures
        zb32_bytes(s) == zb32_bytes(s).take(5) + zb32_bytes(s.skip(8)),
{
    assert(zb32_bytes(s).take(5) + zb32_bytes(s.skip(8)) =~= zb32_bytes(s));
}

proof fn lemma_zb32_roundtrip_bytes(b: Seq<u8>)
    requires
        b.len() % 5 == 2,
    ensures
        zb32_bytes(b32_encode(zbase32_alphabet(), b)) == b,
        b32_encode(zbase32_alphabet(), b).len() == (b.len() / 5) * 8 + 4,
    decreases b.len(),
{
    let s = b32_encode(zbase32_alphabet(), b);
    if b.len() == 2 {
        lemma_b32_encode_two(zbase32_alphabet(), b);
        lemma_zb32_group(b, s);
        assert(b =~= b.take(2));
    } else {
        lemma_zb32_roundtrip_bytes(b.skip(5));
        lemma_b32_encode_split(zbase32_alphabet(), b);
        lemma_zb32_group(b, s);
        lemma_zb32_bytes_split(s);
        assert(b =~= b.take(5) + b.skip(5));
    }
}

proof fn lemma_zb32_char_in_alphabet(v: int)
    ensures
        is_zbase32_char(zb32_char(v)),
{
}

proof fn lemma_zb32_encode_alphabet(b: Seq<u8>)
    requires
        b.len() % 5 == 2,
    ensures
        all_zbase32(b32_encode(zbase32_alphabet(), b)),
    decreases b.len(),
{
    let s = b32_encode(zbase32_alphabet(), b);
    if b.len() == 2 {
        lemma_b32_encode_two(zbase32_alphabet(), b);
        assert forall|i: int| 0 <= i < s.len() implies #[trigger] is_zbase32_char(s[i]) by {
            lemma_zb32_char_in_alphabet(b32_group_digits(b)[i]);
        }
    } else {
        lemma_zb32_encode_alphabet(b.skip(5));
        lemma_b32_encode_split(zbase32_alphabet(), b);
        let rest = b32_encode(zbase32_alphabet(), b.skip(5));
        assert forall|i: int| 0 <= i < s.len() implies #[trigger] is_zbase32_char(s[i]) by {
            if i < 8 {
                lemma_zb32_char_in_alphabet(b32_group_digits(b)[i]);
            } else {
                assert(s[i] == s.skip(8)[i - 8]);
                assert(is_zbase32_char(rest[i - 8]));
            }
        }
    }
}

/// z-base-32 decoding undoes encoding: the 52-character z-base-32
/// encoding of any 32-byte key decodes back to that key.
pub proof fn lemma_zbase32_pubky_roundtrip(key: Seq<u8>)
    requires
        key.len() == 32,
    ensures
        b32_encode(zbase32_alphabet(), key).len() == 52,
        zbase32_pubky_key(b32_encode(zbase32_alphabet(), key)) == Some(key),
{
    lemma_zb32_roundtrip_bytes(key);
    lemma_zb32_encode_alphabet(key);
}

/// The z-base-32 alphabet as written.
pub open spec fn zbase32_alphabet_text() -> Seq<char> {
    "ybndrfg8ejkmcpqxot1uwisza345h769"@
}

/// The Crockford alphabet as written.
pub open spec fn crockford_alphabet_text() -> Seq<char> {
    "0123456789ABCDEFGHJKMNPQRSTVWXYZ"@
}

/// Each 5-bit value is written as the character at its position in the
/// z-base-32 alphabet `ybndrfg8ejkmcpqxot1uwisza345h769` and in the
/// Crockford alphabet `0123456789ABCDEFGHJKMNPQRSTVWXYZ`; decoding a pubky
/// maps exactly the z-base-32 characters back to their positions.
pub proof fn lemma_base32_alphabets()
    ensures
        zbase32_alphabet_text().len() == 32,
        crockford_alphabet_text().len() == 32,
        forall|v: int| 0 <= v < 32 ==> #[trigger] zbase32_alphabet()(v) == zbase32_alphabet_text()[v],
        forall|v: int| 0 <= v < 32 ==> #[trigger] crockford_alphabet()(v) == crockford_alphabet_text()[v],
        forall|v: int| 0 <= v < 32 ==> zb32_value(#[trigger] zbase32_alphabet_text()[v]) == v,
        forall|c: char| #[trigger] zb32_value(c) >= 0 ==> zb32_value(c) < 32
            && zbase32_alphabet_text()[zb32_value(c)] == c,
{
    reveal_strlit("ybndrfg8ejkmcpqxot1uwisza345h769");
    reveal_strlit("0123456789ABCDEFGHJKMNPQRSTVWXYZ");
    let z = zbase32_alphabet_text();
    let k = crockford_alphabet_text();
    assert forall|v: int| 0 <= v < 32 implies #[trigger] zb32_char(v) == z[v] && crockford_char(v)
        == k[v] && zb32_value(z[v]) == v by {
        if v == 0 {} else
        if v == 1 {} else
        if v == 2 {} else
        if v == 3 {} else
        if v == 4 {} else
        if v == 5 {} else
        if v == 6 {} else
        if v == 7 {} else
        if v == 8 {} else
        if v == 9 {} else
        if v == 10 {} else
        if v == 11 {} else
        if v == 12 {} else
        if v == 13 {} else
        if v == 14 {} else
        if v == 15 {} else
        if v == 16 {} else
        if v == 17 {} else
        if v == 18 {} else
        if v == 19 {} else
        if v == 20 {} else
        if v == 21 {} else
        if v == 22 {} else
        if v == 23 {} else
        if v == 24 {} else
        if v == 25 {} else
        if v == 26 {} else
        if v == 27 {} else
        if v == 28 {} else
        if v == 29 {} else
        if v == 30 {} else
        if v == 31 {} else
        {}
    }
    assert forall|c: char| #[trigger] zb32_value(c) >= 0 implies zb32_value(c) < 32 && z[zb32_value(c)] == c by {
        let v = zb32_value(c);
        assert(zb32_char(v) == z[v]);
    }
}

/// The five bytes of a group read as a 40-bit big-endian number, a missing
/// byte read as zero.
pub open spec fn b32_group_value(g: Seq<u8>) -> int {
    byte_or_zero(g, 0) * 4_294_967_296 + byte_or_zero(g, 1) * 16_777_216 + byte_or_zero(g, 2)
        * 65_536 + byte_or_zero(g, 3) * 256 + byte_or_zero(g, 4)
}

/// `32^(7 - i)`: the weight of the `i`-th of eight base-32 digits.
pub open spec fn b32_weight(i: int) -> int {
    if i == 0 {
        34_359_738_368
    } else if i == 1 {
        1_073_741_824
    } else if i == 2 {
        33_554_432
    } else if i == 3 {
        1_048_576
    } else if i == 4 {
        32_768
    } else if i == 5 {
        1024
    } else if i == 6 {
        32
    } else {
        1
    }
}

proof fn lemma_b32_digits_of_value(g: Seq<u8>, i: int)
    requires
        0 <= i < 8,
    ensures
        b32_group_digits(g)[i] == (b32_group_value(g) / b32_weight(i)) % 32,
{
    let x0 = byte_or_zero(g, 0);
    let x1 = byte_or_zero(g, 1);
    let x2 = byte_or_zero(g, 2);
    let x3 = byte_or_zero(g, 3);
    let x4 = byte_or_zero(g, 4);
    assert(0 <= x0 < 256 && 0 <= x1 < 256 && 0 <= x2 < 256 && 0 <= x3 < 256 && 0 <= x4 < 256);
    let v = b32_group_value(g);
    if i == 0 {
        assert((v / 34_359_738_368) % 32 == x0 / 8) by (nonlinear_arith)
            requires
                v == x0 * 4_294_967_296 + x1 * 16_777_216 + x2 * 65_536 + x3 * 256 + x4,
                0 <= x0 < 256,
                0 <= x1 < 256,
                0 <= x2 < 256,
                0 <= x3 < 256,
                0 <= x4 < 256,
        ;
    } else if i == 1 {
        assert((v / 1_073_741_824) % 32 == (x0 % 8) * 4 + x1 / 64) by (nonlinear_arith)
            requires
                v == x0 * 4_294_967_296 + x1 * 16_777_216 + x2 * 65_536 + x3 * 256 + x4,
                0 <= x0 < 256,
                0 <= x1 < 256,
                0 <= x2 < 256,
                0 <= x3 < 256,
                0 <= x4 < 256,
        ;
    } else if i == 2 {
        assert((v / 33_554_432) % 32 == (x1 % 64) / 2) by (nonlinear_arith)
            requires
                v == x0 * 4_294_967_296 + x1 * 16_777_216 + x2 * 65_536 + x3 * 256 + x4,
                0 <= x0 < 256,
                0 <= x1 < 256,
                0 <= x2 < 256,
                0 <= x3 < 256,
                0 <= x4 < 256,
        ;
    } else if i == 3 {
        assert((v / 1_048_576) % 32 == (x1 % 2) * 16 + x2 / 16) by (nonlinear_arith)
            requires
                v == x0 * 4_294_967_296 + x1 * 16_777_216 + x2 * 65_536 + x3 * 256 + x4,
                0 <= x0 < 256,
                0 <= x1 < 256,
                0 <= x2 < 256,
                0 <= x3 < 256,
                0 <= x4 < 256,
        ;
    } else if i == 4 {
        let q = x0 * 131_072 + x1 * 512 + x2 * 2 + x3 / 128;
        lemma_fundamental_div_mod_converse(v, 32_768, q, (x3 % 128) * 256 + x4);
        lemma_fundamental_div_mod_converse(
            q,
            32,
            x0 * 4096 + x1 * 16 + x2 / 16,
            (x2 % 16) * 2 + x3 / 128,
        );
    } else if i == 5 {
        assert((v / 1024) % 32 == (x3 % 128) / 4) by (nonlinear_arith)
            requires
                v == x0 * 4_294_967_296 + x1 * 16_777_216 + x2 * 65_536 + x3 * 256 + x4,
                0 <= x0 < 256,
                0 <= x1 < 256,
                0 <= x2 < 256,
                0 <= x3 < 256,
                0 <= x4 < 256,
        ;
    } else if i == 6 {
        assert((v / 32) % 32 == (x3 % 4) * 8 + x4 / 32) by (nonlinear_arith)
            requires
                v == x0 * 4_294_967_296 + x1 * 16_777_216 + x2 * 65_536 + x3 * 256 + x4,
                0 <= x0 < 256,
                0 <= x1 < 256,
                0 <= x2 < 256,
                0 <= x3 < 256,
                0 <= x4 < 256,
        ;
    } else {
        assert(v % 32 == x4 % 32) by (nonlinear_arith)
            requires
                v == x0 * 4_294_967_296 + x1 * 16_777_216 + x2 * 65_536 + x3 * 256 + x4,
                0 <= x0 < 256,
                0 <= x1 < 256,
                0 <= x2 < 256,
                0 <= x3 < 256,
                0 <= x4 < 256,
        ;
    }
}

/// Unpadded base32 of `n` bytes has `ceil(8n / 5)` characters.
pub proof fn lemma_b32_encoded_len(alphabet: spec_fn(int) -> char, b: Seq<u8>)
    ensures
        b32_encode(alphabet, b).len() == (8 * b.len() + 4) / 5,
    decreases b.len(),
{
    reveal(b32_encode);
    if b.len() > 5 {
        lemma_b32_encoded_len(alphabet, b.skip(5));
    }
}

/// base32 is big-endian in 5-bit digits: the `i`-th character written for
/// the `j`-th group of five bytes is the alphabet's character for the
/// `i`-th base-32 digit (most significant first) of the group read as a
/// 40-bit number, missing bytes of a short last group read as zero.
pub proof fn lemma_b32_big_endian(alphabet: spec_fn(int) -> char, b: Seq<u8>, j: int, i: int)
    requires
        0 <= j,
        0 <= i < 8,
        8 * j + i < (8 * b.len() + 4) / 5,
    ensures
        b32_encode(alphabet, b)[8 * j + i] == alphabet(
            (b32_group_value(b.skip(5 * j)) / b32_weight(i)) % 32,
        ),
    decreases j,
{
    reveal(b32_encode);
    lemma_b32_digits_of_value(b.skip(5 * j), i);
    if j == 0 {
        assert(b.skip(0) =~= b);
        assert(i < b32_group_len(b.len() as int));
        if b.len() > 5 {
            lemma_b32_encode_split(alphabet, b);
        }
    } else {
        lemma_b32_encode_split(alphabet, b);
        lemma_b32_encoded_len(alphabet, b.skip(5));
        assert(b.skip(5).skip(5 * (j - 1)) =~= b.skip(5 * j));
        lemma_b32_big_endian(alphabet, b.skip(5), j - 1, i);
        assert(b32_encode(alphabet, b)[8 * j + i] == b32_encode(alphabet, b).skip(8)[8 * (j - 1)
            + i]);
    }
}

} // verus!

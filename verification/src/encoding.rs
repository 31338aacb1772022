//! Unpadded base64url (RFC 4648 §5) and the z-base-32 decoding of pubky
//! identifiers into Ed25519 key bytes.
use vstd::prelude::*;

verus! {

// ---------------------------------------------------------------------------
// base64url
// ---------------------------------------------------------------------------

/// The base64url character of a 6-bit value.
pub open spec fn b64_char(v: int) -> char {
    if v < 26 {
        (65 + v) as char
    } else if v < 52 {
        (97 + (v - 26)) as char
    } else if v < 62 {
        (48 + (v - 52)) as char
    } else if v == 62 {
        '-'
    } else {
        '_'
    }
}

/// The 6-bit value of a base64url character, or -1 for any other character
/// (padding `=` included).
pub open spec fn b64_value(c: char) -> int {
    if 'A' <= c && c <= 'Z' {
        c as int - 65
    } else if 'a' <= c && c <= 'z' {
        c as int - 97 + 26
    } else if '0' <= c && c <= '9' {
        c as int - 48 + 52
    } else if c == '-' {
        62
    } else if c == '_' {
        63
    } else {
        -1
    }
}

/// Unpadded base64url encoding: every 3 bytes become 4 characters, a final
/// group of 1 or 2 bytes becomes 2 or 3 characters.
pub open spec fn b64_encode(b: Seq<u8>) -> Seq<char>
    decreases b.len(),
{
    if b.len() == 0 {
        seq![]
    } else if b.len() == 1 {
        seq![b64_char((b[0] as int) / 4), b64_char(((b[0] as int) % 4) * 16)]
    } else if b.len() == 2 {
        seq![
            b64_char((b[0] as int) / 4),
            b64_char(((b[0] as int) % 4) * 16 + (b[1] as int) / 16),
            b64_char(((b[1] as int) % 16) * 4),
        ]
    } else {
        seq![
            b64_char((b[0] as int) / 4),
            b64_char(((b[0] as int) % 4) * 16 + (b[1] as int) / 16),
            b64_char(((b[1] as int) % 16) * 4 + (b[2] as int) / 64),
            b64_char((b[2] as int) % 64),
        ] + b64_encode(b.skip(3))
    }
}

/// Whether the first `n` characters of `s` are all base64url characters.
pub open spec fn b64_group_valid(s: Seq<char>, n: int) -> bool {
    forall|i: int| 0 <= i < n ==> #[trigger] b64_value(s[i]) >= 0
}

/// The bytes a group of 2, 3 or 4 base64url characters stands for.
pub open spec fn b64_group_bytes(s: Seq<char>, n: int) -> Seq<u8> {
    let a = b64_value(s[0]);
    let b = b64_value(s[1]);
    if n == 2 {
        seq![(a * 4 + b / 16) as u8]
    } else {
        let c = b64_value(s[2]);
        if n == 3 {
            seq![(a * 4 + b / 16) as u8, ((b % 16) * 16 + c / 4) as u8]
        } else {
            let d = b64_value(s[3]);
            seq![
                (a * 4 + b / 16) as u8,
                ((b % 16) * 16 + c / 4) as u8,
                ((c % 4) * 64 + d) as u8,
            ]
        }
    }
}

/// Unpadded base64url decoding. `None` when the length leaves a single
/// character in the last group or when any character is outside the
/// base64url alphabet. Leftover low bits of a short final group are ignored.
pub open spec fn b64_decode(s: Seq<char>) -> Option<Seq<u8>>
    decreases s.len(),
{
    if s.len() == 0 {
        Some(seq![])
    } else if s.len() % 4 == 1 {
        None
    } else if s.len() < 4 {
        if b64_group_valid(s, s.len() as int) {
            Some(b64_group_bytes(s, s.len() as int))
        } else {
            None
        }
    } else if !b64_group_valid(s, 4) {
        None
    } else {
        match b64_decode(s.skip(4)) {
            Some(rest) => Some(b64_group_bytes(s, 4) + rest),
            None => None,
        }
    }
}

/// Length of the unpadded base64url encoding of `n` bytes.
pub open spec fn b64_encoded_len(n: nat) -> nat {
    4 * (n / 3) + if n % 3 == 0 {
        0
    } else {
        n % 3 + 1
    }
}

/// The RFC 4648 §5 base64url alphabet: the character of each 6-bit value.
pub open spec fn b64url_alphabet() -> Seq<char> {
    "ABCDEFGHIJKLMNOPQRSTUVWXYZabcdefghijklmnopqrstuvwxyz0123456789-_"@
}

/// The encoding writes each 6-bit value `v` as the `v`-th character of the
/// base64url alphabet, and decoding maps exactly the alphabet's characters
/// back to their positions (every other character, `=` included, is
/// rejected).
pub proof fn lemma_b64_alphabet()
    ensures
        b64url_alphabet().len() == 64,
        forall|v: int| 0 <= v < 64 ==> #[trigger] b64_char(v) == b64url_alphabet()[v],
        forall|v: int| 0 <= v < 64 ==> b64_value(#[trigger] b64url_alphabet()[v]) == v,
        forall|c: char| #[trigger] b64_value(c) >= 0 ==> b64_value(c) < 64
            && b64url_alphabet()[b64_value(c)] == c,
{
    reveal_strlit("ABCDEFGHIJKLMNOPQRSTUVWXYZabcdefghijklmnopqrstuvwxyz0123456789-_");
    let a = b64url_alphabet();
    assert forall|v: int| 0 <= v < 64 implies #[trigger] b64_char(v) == a[v] && b64_value(a[v]) == v by {
        if v == 0 {} else
        if v == 1 {} else
        if v == 2 {} else
        if v == 3 {} else
        if v == 4 {} else
        if v == 5 {} else
        if v == 6 {} else
        if v == 7 {} else
        if v == 8 {} else
        if v == 9 {} else
        if v == 10 {} else
        if v == 11 {} else
        if v == 12 {} else
        if v == 13 {} else
        if v == 14 {} else
        if v == 15 {} else
        if v == 16 {} else
        if v == 17 {} else
        if v == 18 {} else
        if v == 19 {} else
        if v == 20 {} else
        if v == 21 {} else
        if v == 22 {} else
        if v == 23 {} else
        if v == 24 {} else
        if v == 25 {} else
        if v == 26 {} else
        if v == 27 {} else
        if v == 28 {} else
        if v == 29 {} else
        if v == 30 {} else
        if v == 31 {} else
        if v == 32 {} else
        if v == 33 {} else
        if v == 34 {} else
        if v == 35 {} else
        if v == 36 {} else
        if v == 37 {} else
        if v == 38 {} else
        if v == 39 {} else
        if v == 40 {} else
        if v == 41 {} else
        if v == 42 {} else
        if v == 43 {} else
        if v == 44 {} else
        if v == 45 {} else
        if v == 46 {} else
        if v == 47 {} else
        if v == 48 {} else
        if v == 49 {} else
        if v == 50 {} else
        if v == 51 {} else
        if v == 52 {} else
        if v == 53 {} else
        if v == 54 {} else
        if v == 55 {} else
        if v == 56 {} else
        if v == 57 {} else
        if v == 58 {} else
        if v == 59 {} else
        if v == 60 {} else
        if v == 61 {} else
        if v == 62 {} else
        if v == 63 {} else
        {}
    }
    assert forall|c: char| #[trigger] b64_value(c) >= 0 implies b64_value(c) < 64 && a[b64_value(c)] == c by {
        let v = b64_value(c);
        assert(b64_char(v) == a[v]);
    }
}

proof fn lemma_b64_char_value(v: int)
    requires
        0 <= v < 64,
    ensures
        b64_value(b64_char(v)) == v,
        crate::text::is_jws_char(b64_char(v)),
{
}

/// The encoding has the announced length and only uses base64url characters
/// (in particular never `=`), so it is a valid compact-JWS segment.
pub proof fn lemma_b64_encode_shape(b: Seq<u8>)
    ensures
        b64_encode(b).len() == b64_encoded_len(b.len()),
        forall|i: int|
            0 <= i < b64_encode(b).len() ==> b64_value(#[trigger] b64_encode(b)[i]) >= 0
                && crate::text::is_jws_char(b64_encode(b)[i]) && b64_encode(b)[i] != '=',
    decreases b.len(),
{
    if b.len() == 0 {
    } else if b.len() == 1 {
        lemma_b64_char_value((b[0] as int) / 4);
        lemma_b64_char_value(((b[0] as int) % 4) * 16);
    } else if b.len() == 2 {
        lemma_b64_char_value((b[0] as int) / 4);
        lemma_b64_char_value(((b[0] as int) % 4) * 16 + (b[1] as int) / 16);
        lemma_b64_char_value(((b[1] as int) % 16) * 4);
    } else {
        lemma_b64_encode_shape(b.skip(3));
        lemma_b64_char_value((b[0] as int) / 4);
        lemma_b64_char_value(((b[0] as int) % 4) * 16 + (b[1] as int) / 16);
        lemma_b64_char_value(((b[1] as int) % 16) * 4 + (b[2] as int) / 64);
        lemma_b64_char_value((b[2] as int) % 64);
        let head = seq![
            b64_char((b[0] as int) / 4),
            b64_char(((b[0] as int) % 4) * 16 + (b[1] as int) / 16),
            b64_char(((b[1] as int) % 16) * 4 + (b[2] as int) / 64),
            b64_char((b[2] as int) % 64),
        ];
        let rest = b64_encode(b.skip(3));
        assert(b64_encode(b) == head + rest);
        assert forall|i: int| 0 <= i < b64_encode(b).len() implies b64_value(
            #[trigger] b64_encode(b)[i],
        ) >= 0 && crate::text::is_jws_char(b64_encode(b)[i]) && b64_encode(b)[i] != '=' by {
            if i >= 4 {
                assert(b64_encode(b)[i] == rest[i - 4]);
            }
        }
    }
}

proof fn lemma_b64_arith(x: int, y: int, z: int)
    requires
        0 <= x < 256,
        0 <= y < 256,
        0 <= z < 256,
    ensures
        0 <= x / 4 < 64,
        0 <= (x % 4) * 16 < 64,
        0 <= (x % 4) * 16 + y / 16 < 64,
        0 <= (y % 16) * 4 < 64,
        0 <= (y % 16) * 4 + z / 64 < 64,
        0 <= z % 64 < 64,
        (x / 4) * 4 + ((x % 4) * 16) / 16 == x,
        (x / 4) * 4 + ((x % 4) * 16 + y / 16) / 16 == x,
        (((x % 4) * 16 + y / 16) % 16) * 16 + ((y % 16) * 4) / 4 == y,
        (((x % 4) * 16 + y / 16) % 16) * 16 + ((y % 16) * 4 + z / 64) / 4 == y,
        (((y % 16) * 4 + z / 64) % 4) * 64 + z % 64 == z,
{
}

pub open spec fn b64_head(x: int, y: int, z: int) -> Seq<char> {
    seq![
        b64_char(x / 4),
        b64_char((x % 4) * 16 + y / 16),
        b64_char((y % 16) * 4 + z / 64),
        b64_char(z % 64),
    ]
}

proof fn lemma_b64_head(x: int, y: int, z: int)
    requires
        0 <= x < 256,
        0 <= y < 256,
        0 <= z < 256,
    ensures
        b64_group_valid(b64_head(x, y, z), 4),
        b64_group_bytes(b64_head(x, y, z), 4) == seq![x as u8, y as u8, z as u8],
{
    lemma_b64_arith(x, y, z);
    lemma_b64_char_value(x / 4);
    lemma_b64_char_value((x % 4) * 16 + y / 16);
    lemma_b64_char_value((y % 16) * 4 + z / 64);
    lemma_b64_char_value(z % 64);
    assert(b64_group_bytes(b64_head(x, y, z), 4) =~= seq![x as u8, y as u8, z as u8]);
}

proof fn lemma_b64_roundtrip_short(b: Seq<u8>)
    requires
        1 <= b.len() <= 2,
    ensures
        b64_decode(b64_encode(b)) == Some(b),
{
    let e = b64_encode(b);
    if b.len() == 1 {
        let x = b[0] as int;
        lemma_b64_arith(x, 0, 0);
        lemma_b64_char_value(x / 4);
        lemma_b64_char_value((x % 4) * 16);
        assert(b64_group_valid(e, 2));
        assert(b64_group_bytes(e, 2) =~= b);
    } else {
        let x = b[0] as int;
        let y = b[1] as int;
        lemma_b64_arith(x, y, 0);
        lemma_b64_char_value(x / 4);
        lemma_b64_char_value((x % 4) * 16 + y / 16);
        lemma_b64_char_value((y % 16) * 4);
        assert(b64_group_valid(e, 3));
        assert(b64_group_bytes(e, 3) =~= b);
    }
}

/// Decoding undoes encoding: for every byte string `b`,
/// `b64_decode(b64_encode(b)) == Some(b)`.
pub proof fn lemma_b64_roundtrip(b: Seq<u8>)
    ensures
        b64_decode(b64_encode(b)) == Some(b),
    decreases b.len(),
{
    let e = b64_encode(b);
    if b.len() == 0 {
    } else if b.len() <= 2 {
        lemma_b64_roundtrip_short(b);
    } else {
        let x = b[0] as int;
        let y = b[1] as int;
        let z = b[2] as int;
        let head = b64_head(x, y, z);
        let rest = b64_encode(b.skip(3));
        lemma_b64_head(x, y, z);
        lemma_b64_roundtrip(b.skip(3));
        lemma_b64_encode_shape(b.skip(3));
        assert(e == head + rest);
        assert(e.skip(4) =~= rest);
        assert(e.len() % 4 == rest.len() % 4);
        assert(forall|k: int| 0 <= k < 4 ==> e[k] == head[k]);
        assert(b64_group_valid(e, 4));
        assert(b64_group_bytes(e, 4) == b64_group_bytes(head, 4));
        assert(b64_decode(e) == Some(b64_group_bytes(e, 4) + b.skip(3)));
        assert(b.take(3) =~= seq![x as u8, y as u8, z as u8]);
        assert(b.take(3) + b.skip(3) =~= b);
    }
}

/// The value of four base64url characters read as a base-64 number.
pub open spec fn b64_quad_value(e: Seq<char>, k: int) -> int {
    b64_value(e[k]) * 262_144 + b64_value(e[k + 1]) * 4096 + b64_value(e[k + 2]) * 64
        + b64_value(e[k + 3])
}

proof fn lemma_b64_group_value(x: int, y: int, z: int)
    requires
        0 <= x < 256,
        0 <= y < 256,
        0 <= z < 256,
    ensures
        (x / 4) * 262_144 + ((x % 4) * 16 + y / 16) * 4096 + ((y % 16) * 4 + z / 64) * 64 + z % 64
            == x * 65_536 + y * 256 + z,
        (x / 4) * 64 + (x % 4) * 16 == x * 16,
        (x / 4) * 4096 + ((x % 4) * 16 + y / 16) * 64 + (y % 16) * 4 == (x * 256 + y) * 4,
{
}

/// base64url is big-endian: each full group of three bytes, read as a
/// 24-bit number, equals its four characters read as base-64 digits (each
/// character's digit its position in the alphabet); a final single byte
/// followed by four zero bits is two characters, and a final pair of bytes
/// followed by two zero bits is three.
pub proof fn lemma_b64_big_endian(b: Seq<u8>, j: int)
    requires
        0 <= j,
        3 * j < b.len(),
    ensures
        3 * j + 3 <= b.len() ==> b64_quad_value(b64_encode(b), 4 * j) == (b[3 * j] as int)
            * 65_536 + (b[3 * j + 1] as int) * 256 + (b[3 * j + 2] as int),
        3 * j + 1 == b.len() ==> b64_encode(b).len() == 4 * j + 2 && b64_value(
            b64_encode(b)[4 * j],
        ) * 64 + b64_value(b64_encode(b)[4 * j + 1]) == (b[3 * j] as int) * 16,
        3 * j + 2 == b.len() ==> b64_encode(b).len() == 4 * j + 3 && b64_value(
            b64_encode(b)[4 * j],
        ) * 4096 + b64_value(b64_encode(b)[4 * j + 1]) * 64 + b64_value(b64_encode(b)[4 * j + 2])
            == ((b[3 * j] as int) * 256 + (b[3 * j + 1] as int)) * 4,
    decreases j,
{
    let e = b64_encode(b);
    if j == 0 {
        let x = b[0] as int;
        if b.len() == 1 {
            lemma_b64_group_value(x, 0, 0);
            lemma_b64_char_value(x / 4);
            lemma_b64_char_value((x % 4) * 16);
        } else if b.len() == 2 {
            let y = b[1] as int;
            lemma_b64_group_value(x, y, 0);
            lemma_b64_char_value(x / 4);
            lemma_b64_char_value((x % 4) * 16 + y / 16);
            lemma_b64_char_value((y % 16) * 4);
        } else {
            let y = b[1] as int;
            let z = b[2] as int;
            lemma_b64_group_value(x, y, z);
            lemma_b64_arith(x, y, z);
            lemma_b64_char_value(x / 4);
            lemma_b64_char_value((x % 4) * 16 + y / 16);
            lemma_b64_char_value((y % 16) * 4 + z / 64);
            lemma_b64_char_value(z % 64);
        }
    } else {
        let rest = b.skip(3);
        lemma_b64_big_endian(rest, j - 1);
        lemma_b64_encode_shape(rest);
        let head = b64_head(b[0] as int, b[1] as int, b[2] as int);
        assert(e == head + b64_encode(rest));
        assert(e[4 * j] == b64_encode(rest)[4 * (j - 1)]);
        assert(e[4 * j + 1] == b64_encode(rest)[4 * (j - 1) + 1]);
        assert(3 * j + 2 < b.len() ==> e[4 * j + 2] == b64_encode(rest)[4 * (j - 1) + 2]);
        assert(3 * j + 3 <= b.len() ==> e[4 * j + 3] == b64_encode(rest)[4 * (j - 1) + 3]);
        assert(rest[3 * (j - 1)] == b[3 * j]);
        assert(3 * j + 1 < b.len() ==> rest[3 * (j - 1) + 1] == b[3 * j + 1]);
        assert(3 * j + 2 < b.len() ==> rest[3 * (j - 1) + 2] == b[3 * j + 2]);
    }
}

proof fn lemma_b64_group_decode_value(a: int, b: int, c: int, d: int)
    requires
        0 <= a < 64,
        0 <= b < 64,
        0 <= c < 64,
        0 <= d < 64,
    ensures
        ((a * 4 + b / 16) as u8) as int == a * 4 + b / 16,
        (((b % 16) * 16 + c / 4) as u8) as int == (b % 16) * 16 + c / 4,
        (((c % 4) * 64 + d) as u8) as int == (c % 4) * 64 + d,
        (a * 4 + b / 16) * 65_536 + ((b % 16) * 16 + c / 4) * 256 + ((c % 4) * 64 + d) == a
            * 262_144 + b * 4096 + c * 64 + d,
        a * 4 + b / 16 == (a * 64 + b) / 16,
        (a * 4 + b / 16) * 256 + ((b % 16) * 16 + c / 4) == (a * 4096 + b * 64 + c) / 4,
{
}

/// What decodes is base64url: a string that decodes has only alphabet
/// characters and a length that is not one more than a multiple of four,
/// gives `floor(3n / 4)` bytes, and each group of four characters read as
/// base-64 digits equals its three bytes read as a 24-bit number; a final
/// group of two or three characters gives the one or two whole bytes its
/// digits carry, the leftover low bits ignored.
pub proof fn lemma_b64_decode_big_endian(s: Seq<char>, j: int)
    requires
        b64_decode(s) is Some,
        0 <= j,
    ensures
        s.len() % 4 != 1,
        forall|i: int| 0 <= i < s.len() ==> b64_value(#[trigger] s[i]) >= 0,
        match b64_decode(s) {
            Some(b) => {
                &&& b.len() == (3 * s.len()) / 4
                &&& (4 * j + 4 <= s.len() ==> b64_quad_value(s, 4 * j) == (b[3 * j] as int)
                    * 65_536 + (b[3 * j + 1] as int) * 256 + (b[3 * j + 2] as int))
                &&& (4 * j + 2 == s.len() ==> (b[3 * j] as int) == (b64_value(s[4 * j]) * 64
                    + b64_value(s[4 * j + 1])) / 16)
                &&& (4 * j + 3 == s.len() ==> (b[3 * j] as int) * 256 + (b[3 * j + 1] as int) == (
                b64_value(s[4 * j]) * 4096 + b64_value(s[4 * j + 1]) * 64 + b64_value(
                    s[4 * j + 2],
                )) / 4)
            },
            None => false,
        },
    decreases s.len(),
{
    if s.len() == 0 {
    } else if s.len() < 4 {
        let a = b64_value(s[0]);
        let b = b64_value(s[1]);
        assert(b64_group_valid(s, s.len() as int));
        assert(0 <= a < 64 && 0 <= b < 64);
        if s.len() == 3 {
            let c = b64_value(s[2]);
            assert(0 <= c < 64);
            lemma_b64_group_decode_value(a, b, c, 0);
        } else {
            lemma_b64_group_decode_value(a, b, 0, 0);
        }
    } else {
        let rest = s.skip(4);
        let a = b64_value(s[0]);
        let b = b64_value(s[1]);
        let c = b64_value(s[2]);
        let d = b64_value(s[3]);
        assert(b64_group_valid(s, 4));
        assert(0 <= a < 64 && 0 <= b < 64 && 0 <= c < 64 && 0 <= d < 64);
        lemma_b64_group_decode_value(a, b, c, d);
        lemma_b64_decode_big_endian(rest, if j > 0 { j - 1 } else { 0 });
        let bytes = b64_decode(s)->0;
        let rb = b64_decode(rest)->0;
        assert(bytes == b64_group_bytes(s, 4) + rb);
        assert forall|i: int| 0 <= i < s.len() implies b64_value(#[trigger] s[i]) >= 0 by {
            if i >= 4 {
                assert(s[i] == rest[i - 4]);
            }
        }
        if j > 0 && 4 * j + 2 <= s.len() {
            assert(s[4 * j] == rest[4 * (j - 1)]);
            assert(4 * j + 1 < s.len() ==> s[4 * j + 1] == rest[4 * (j - 1) + 1]);
            assert(4 * j + 2 < s.len() ==> s[4 * j + 2] == rest[4 * (j - 1) + 2]);
            assert(4 * j + 3 < s.len() ==> s[4 * j + 3] == rest[4 * (j - 1) + 3]);
            assert(bytes[3 * j] == rb[3 * (j - 1)]);
            assert(3 * j + 1 < bytes.len() ==> bytes[3 * j + 1] == rb[3 * (j - 1) + 1]);
            assert(3 * j + 2 < bytes.len() ==> bytes[3 * j + 2] == rb[3 * (j - 1) + 2]);
        }
    }
}

fn b64_char_exec(v: u8) -> (c: char)
    requires
        v < 64,
    ensures
        c == b64_char(v as int),
{
    if v < 26 {
        (65u8 + v) as char
    } else if v < 52 {
        (97u8 + (v - 26)) as char
    } else if v < 62 {
        (48u8 + (v - 52)) as char
    } else if v == 62 {
        '-'
    } else {
        '_'
    }
}

fn b64_value_exec(c: char) -> (r: Option<u32>)
    ensures
        match r {
            Some(v) => v == b64_value(c) && v < 64,
            None => b64_value(c) < 0,
        },
{
    if 'A' <= c && c <= 'Z' {
        Some(c as u32 - 65)
    } else if 'a' <= c && c <= 'z' {
        Some(c as u32 - 97 + 26)
    } else if '0' <= c && c <= '9' {
        Some(c as u32 - 48 + 52)
    } else if c == '-' {
        Some(62)
    } else if c == '_' {
        Some(63)
    } else {
        None
    }
}

/// Encodes bytes as unpadded base64url (RFC 4648 §5). Issuers and test
/// harnesses build compact JWS segments with it.
pub fn base64url_encode(input: &[u8]) -> (out: String)
    ensures
        out@ == b64_encode(input@),
{
    let mut out = String::new();
    let n = input.len();
    let mut i: usize = 0;
    assert(input@.skip(0) =~= input@);
    assert(out@ + b64_encode(input@.skip(0)) =~= b64_encode(input@));
    while i < n
        invariant
            n == input@.len(),
            i <= n,
            out@ + b64_encode(input@.skip(i as int)) == b64_encode(input@),
        decreases n - i,
    {
        let rest = Ghost(input@.skip(i as int));
        let b0 = input[i];
        crate::text::push_char(&mut out, b64_char_exec(b0 / 4));
        if n - i == 1 {
            crate::text::push_char(&mut out, b64_char_exec((b0 % 4) * 16));
            assert(b64_encode(rest@) =~= seq![b64_char((b0 as int) / 4), b64_char(((b0 as int) % 4) * 16)]);
            i = n;
        } else {
            let b1 = input[i + 1];
            crate::text::push_char(&mut out, b64_char_exec((b0 % 4) * 16 + b1 / 16));
            if n - i == 2 {
                crate::text::push_char(&mut out, b64_char_exec((b1 % 16) * 4));
                i = n;
            } else {
                let b2 = input[i + 2];
                crate::text::push_char(&mut out, b64_char_exec((b1 % 16) * 4 + b2 / 64));
                crate::text::push_char(&mut out, b64_char_exec(b2 % 64));
                assert(rest@.skip(3) =~= input@.skip(i + 3));
                i = i + 3;
            }
        }
    }
    assert(input@.skip(n as int) =~= seq![]);
    assert(out@ + seq![] =~= out@);
    out
}

/// Decodes unpadded base64url (RFC 4648 §5). Padding characters and
/// non-alphabet characters are rejected.
#[verifier::rlimit(40)]
pub fn base64url_decode(input: &str) -> (out: Option<Vec<u8>>)
    ensures
        match out {
            Some(v) => b64_decode(input@) == Some(v@),
            None => b64_decode(input@) is None,
        },
{
    let chars = crate::text::chars_of(input);
    let n = chars.len();
    if n % 4 == 1 {
        return None;
    }
    let mut output: Vec<u8> = Vec::new();
    let mut i: usize = 0;
    assert(input@.skip(0) =~= input@);
    assert forall|r: Seq<u8>| #[trigger] (output@ + r) == r by {
        assert(output@ + r =~= r);
    }
    while i < n
        invariant
            chars@ == input@,
            n == chars@.len(),
            n % 4 != 1,
            i <= n,
            i % 4 == 0 || i == n,
            b64_decode(input@) == (match b64_decode(input@.skip(i as int)) {
                Some(rest) => Some(output@ + rest),
                None => None,
            }),
        decreases n - i,
    {
        let ghost rest = input@.skip(i as int);
        assert(rest.len() % 4 == n % 4) by {
            assert(rest.len() == n - i);
        }
        assert(rest[0] == chars@[i as int]);
        assert(rest[1] == chars@[i + 1]);
        assert(rest.len() >= 3 ==> rest[2] == chars@[i + 2]);
        assert(rest.len() >= 4 ==> rest[3] == chars@[i + 3]);
        let a = match b64_value_exec(chars[i]) {
            Some(v) => v,
            None => {
                assert(!b64_group_valid(rest, if rest.len() < 4 { rest.len() as int } else { 4 }));
                return None;
            },
        };
        let b = match b64_value_exec(chars[i + 1]) {
            Some(v) => v,
            None => {
                assert(!b64_group_valid(rest, if rest.len() < 4 { rest.len() as int } else { 4 }));
                return None;
            },
        };
        if n - i == 2 {
            output.push((a * 4 + b / 16) as u8);
            assert(b64_group_valid(rest, 2));
            assert(rest.skip(2) =~= seq![]);
            i = n;
            assert(input@.skip(i as int) =~= seq![]);
        } else {
            let c = match b64_value_exec(chars[i + 2]) {
                Some(v) => v,
                None => {
                    assert(!b64_group_valid(rest, if rest.len() < 4 { rest.len() as int } else { 4 }));
                    return None;
                },
            };
            if n - i == 3 {
                output.push((a * 4 + b / 16) as u8);
                output.push(((b % 16) * 16 + c / 4) as u8);
                assert(b64_group_valid(rest, 3));
                i = n;
                assert(input@.skip(i as int) =~= seq![]);
            } else {
                let d = match b64_value_exec(chars[i + 3]) {
                    Some(v) => v,
                    None => {
                        assert(!b64_group_valid(rest, 4));
                        return None;
                    },
                };
                output.push((a * 4 + b / 16) as u8);
                output.push(((b % 16) * 16 + c / 4) as u8);
                output.push(((c % 4) * 64 + d) as u8);
                assert(b64_group_valid(rest, 4));
                assert(rest.skip(4) =~= input@.skip(i + 4));
                i = i + 4;
            }
        }
    }
    assert(input@.skip(n as int) =~= seq![]);
    assert(output@ + seq![] =~= output@);
    Some(output)
}

// ---------------------------------------------------------------------------
// z-base-32 pubky identifiers
// ---------------------------------------------------------------------------

/// The 5-bit value of a z-base-32 character (alphabet
/// `ybndrfg8ejkmcpqxot1uwisza345h769`), or -1 for any other character.
pub open spec fn zb32_value(c: char) -> int {
    if c == 'y' { 0 }
    else if c == 'b' { 1 }
    else if c == 'n' { 2 }
    else if c == 'd' { 3 }
    else if c == 'r' { 4 }
    else if c == 'f' { 5 }
    else if c == 'g' { 6 }
    else if c == '8' { 7 }
    else if c == 'e' { 8 }
    else if c == 'j' { 9 }
    else if c == 'k' { 10 }
    else if c == 'm' { 11 }
    else if c == 'c' { 12 }
    else if c == 'p' { 13 }
    else if c == 'q' { 14 }
    else if c == 'x' { 15 }
    else if c == 'o' { 16 }
    else if c == 't' { 17 }
    else if c == '1' { 18 }
    else if c == 'u' { 19 }
    else if c == 'w' { 20 }
    else if c == 'i' { 21 }
    else if c == 's' { 22 }
    else if c == 'z' { 23 }
    else if c == 'a' { 24 }
    else if c == '3' { 25 }
    else if c == '4' { 26 }
    else if c == '5' { 27 }
    else if c == 'h' { 28 }
    else if c == '7' { 29 }
    else if c == '6' { 30 }
    else if c == '9' { 31 }
    else { -1 }
}

pub open spec fn is_zbase32_char(c: char) -> bool {
    zb32_value(c) >= 0
}

pub open spec fn all_zbase32(s: Seq<char>) -> bool {
    forall|i: int| 0 <= i < s.len() ==> #[trigger] is_zbase32_char(s[i])
}

/// The bytes of the big-endian bit string formed by the 5-bit values of
/// `s`, eight characters (40 bits) at a time; a final group of four
/// characters (20 bits) yields two bytes and drops its last four bits.
pub open spec fn zb32_bytes(s: Seq<char>) -> Seq<u8>
    decreases s.len(),
{
    if s.len() < 4 {
        seq![]
    } else {
        let d0 = zb32_value(s[0]);
        let d1 = zb32_value(s[1]);
        let d2 = zb32_value(s[2]);
        let d3 = zb32_value(s[3]);
        let head = seq![(d0 * 8 + d1 / 4) as u8, ((d1 % 4) * 64 + d2 * 2 + d3 / 16) as u8];
        if s.len() < 8 {
            head
        } else {
            let d4 = zb32_value(s[4]);
            let d5 = zb32_value(s[5]);
            let d6 = zb32_value(s[6]);
            let d7 = zb32_value(s[7]);
            head + seq![
                ((d3 % 16) * 16 + d4 / 2) as u8,
                ((d4 % 2) * 128 + d5 * 4 + d6 / 8) as u8,
                ((d6 % 8) * 32 + d7) as u8,
            ] + zb32_bytes(s.skip(8))
        }
    }
}

/// The 32-byte Ed25519 key a 52-character z-base-32 pubky encodes.
pub open spec fn zbase32_pubky_key(s: Seq<char>) -> Option<Seq<u8>> {
    if s.len() == 52 && all_zbase32(s) {
        Some(zb32_bytes(s))
    } else {
        None
    }
}

fn zb32_value_exec(c: char) -> (r: Option<u32>)
    ensures
        match r {
            Some(v) => v == zb32_value(c) && v < 32,
            None => zb32_value(c) < 0,
        },
{
    let v: u32 = if c == 'y' { 0 }
    else if c == 'b' { 1 }
    else if c == 'n' { 2 }
    else if c == 'd' { 3 }
    else if c == 'r' { 4 }
    else if c == 'f' { 5 }
    else if c == 'g' { 6 }
    else if c == '8' { 7 }
    else if c == 'e' { 8 }
    else if c == 'j' { 9 }
    else if c == 'k' { 10 }
    else if c == 'm' { 11 }
    else if c == 'c' { 12 }
    else if c == 'p' { 13 }
    else if c == 'q' { 14 }
    else if c == 'x' { 15 }
    else if c == 'o' { 16 }
    else if c == 't' { 17 }
    else if c == '1' { 18 }
    else if c == 'u' { 19 }
    else if c == 'w' { 20 }
    else if c == 'i' { 21 }
    else if c == 's' { 22 }
    else if c == 'z' { 23 }
    else if c == 'a' { 24 }
    else if c == '3' { 25 }
    else if c == '4' { 26 }
    else if c == '5' { 27 }
    else if c == 'h' { 28 }
    else if c == '7' { 29 }
    else if c == '6' { 30 }
    else if c == '9' { 31 }
    else { 32 };
    if v == 32 {
        None
    } else {
        Some(v)
    }
}

proof fn lemma_zb32_bytes_len(s: Seq<char>)
    requires
        s.len() % 8 == 4,
    ensures
        zb32_bytes(s).len() == (s.len() / 8) * 5 + 2,
    decreases s.len(),
{
    if s.len() >= 8 {
        lemma_zb32_bytes_len(s.skip(8));
    }
}

/// Decodes a 52-character z-base-32 pubky into its 32-byte Ed25519 key.
pub fn zbase32_decode_pubky(pubky: &str) -> (out: Option<Vec<u8>>)
    ensures
        match out {
            Some(v) => zbase32_pubky_key(pubky@) == Some(v@) && v@.len() == 32,
            None => zbase32_pubky_key(pubky@) is None,
        },
{
    let chars = crate::text::chars_of(pubky);
    if chars.len() != 52 {
        return None;
    }
    let mut values: Vec<u32> = Vec::new();
    let mut k: usize = 0;
    while k < 52
        invariant
            chars@ == pubky@,
            chars@.len() == 52,
            k <= 52,
            values@.len() == k,
            forall|j: int| 0 <= j < k ==> #[trigger] values@[j] == zb32_value(chars@[j]) && values@[j] < 32,
            forall|j: int| 0 <= j < k ==> #[trigger] is_zbase32_char(chars@[j]),
        decreases 52 - k,
    {
        match zb32_value_exec(chars[k]) {
            Some(v) => values.push(v),
            None => {
                assert(!is_zbase32_char(pubky@[k as int]));
                return None;
            },
        }
        k = k + 1;
    }
    let mut output: Vec<u8> = Vec::new();
    let mut i: usize = 0;
    assert(pubky@.skip(0) =~= pubky@);
    assert(output@ + zb32_bytes(pubky@) =~= zb32_bytes(pubky@));
    while i < 48
        invariant
            chars@ == pubky@,
            chars@.len() == 52,
            values@.len() == 52,
            forall|j: int| 0 <= j < 52 ==> #[trigger] values@[j] == zb32_value(chars@[j]) && values@[j] < 32,
            i <= 48,
            i % 8 == 0,
            output@ + zb32_bytes(pubky@.skip(i as int)) == zb32_bytes(pubky@),
        decreases 48 - i,
    {
        let ghost rest = pubky@.skip(i as int);
        let d0 = values[i];
        let d1 = values[i + 1];
        let d2 = values[i + 2];
        let d3 = values[i + 3];
        let d4 = values[i + 4];
        let d5 = values[i + 5];
        let d6 = values[i + 6];
        let d7 = values[i + 7];
        output.push((d0 * 8 + d1 / 4) as u8);
        output.push(((d1 % 4) * 64 + d2 * 2 + d3 / 16) as u8);
        output.push(((d3 % 16) * 16 + d4 / 2) as u8);
        output.push(((d4 % 2) * 128 + d5 * 4 + d6 / 8) as u8);
        output.push(((d6 % 8) * 32 + d7) as u8);
        assert(rest.skip(8) =~= pubky@.skip(i + 8));
        assert(rest[0] == chars@[i as int]);
        assert(rest[1] == chars@[i + 1]);
        assert(rest[2] == chars@[i + 2]);
        assert(rest[3] == chars@[i + 3]);
        assert(rest[4] == chars@[i + 4]);
        assert(rest[5] == chars@[i + 5]);
        assert(rest[6] == chars@[i + 6]);
        assert(rest[7] == chars@[i + 7]);
        i = i + 8;
    }
    let ghost rest = pubky@.skip(48);
    let d0 = values[48];
    let d1 = values[49];
    let d2 = values[50];
    let d3 = values[51];
    output.push((d0 * 8 + d1 / 4) as u8);
    output.push(((d1 % 4) * 64 + d2 * 2 + d3 / 16) as u8);
    assert(rest[0] == chars@[48]);
    assert(rest[1] == chars@[49]);
    assert(rest[2] == chars@[50]);
    assert(rest[3] == chars@[51]);
    assert(all_zbase32(pubky@));
    proof {
        lemma_zb32_bytes_len(pubky@);
    }
    Some(output)
}

} // verus!

//! Compact JWS (RFC 7515) framing shared by the marketplace attestations:
//! size and charset bounds, the three dot-separated segments, the closed
//! JOSE header check, segment decoding, the signing input and the
//! verification of the issuer's Ed25519 signature.
use vstd::prelude::*;
use crate::crypto::{
    ed25519_key_decompresses, ed25519_strict_signature_valid, ed25519_verify_strict,
    SignatureCheck,
};
use crate::encoding::{
    b64_decode, b64_encode, base64url_decode, lemma_b64_encode_shape, lemma_b64_roundtrip,
    zbase32_decode_pubky, zbase32_pubky_key,
};
use crate::text::{all_jws_chars, chars_of, check_all_jws_chars, concat3, owned, str_eq};

verus! {

/// Smallest accepted compact JWS, in characters.
pub const MIN_ATTESTATION_LENGTH: usize = 32;

/// Largest accepted compact JWS, in characters.
pub const MAX_ATTESTATION_LENGTH: usize = 4096;

// ---------------------------------------------------------------------------
// Segments
// ---------------------------------------------------------------------------

/// The index of the first `c` in `s` at or after `from`, or `s.len()` when
/// there is none.
pub open spec fn index_of(s: Seq<char>, c: char, from: int) -> int
    decreases s.len() - from,
{
    if from < 0 || from >= s.len() {
        s.len() as int
    } else if s[from] == c {
        from
    } else {
        index_of(s, c, from + 1)
    }
}

/// No character of `s` is a dot.
pub open spec fn no_dot(s: Seq<char>) -> bool {
    forall|i: int| 0 <= i < s.len() ==> #[trigger] s[i] != '.'
}

/// The three segments `header.payload.signature` of a compact
/// serialization: `Some` exactly when `s` holds two dots.
pub open spec fn jws_segments(s: Seq<char>) -> Option<(Seq<char>, Seq<char>, Seq<char>)> {
    let d1 = index_of(s, '.', 0);
    let d2 = index_of(s, '.', d1 + 1);
    if d1 < s.len() && d2 < s.len() && index_of(s, '.', d2 + 1) == s.len() {
        Some((s.take(d1), s.subrange(d1 + 1, d2), s.skip(d2 + 1)))
    } else {
        None
    }
}

proof fn lemma_index_of_range(s: Seq<char>, c: char, from: int)
    requires
        0 <= from,
    ensures
        from <= index_of(s, c, from) <= s.len() || (from > s.len() && index_of(s, c, from) == s.len()),
        index_of(s, c, from) < s.len() ==> s[index_of(s, c, from)] == c,
        forall|i: int| from <= i < index_of(s, c, from) ==> #[trigger] s[i] != c,
    decreases s.len() - from,
{
    if from < s.len() && s[from] != c {
        lemma_index_of_range(s, c, from + 1);
    }
}

/// When `s[from..]` has no `c` until position `k` and `s[k] == c` (or `k`
/// is the end), `index_of(s, c, from) == k`.
proof fn lemma_index_of_is(s: Seq<char>, c: char, from: int, k: int)
    requires
        0 <= from <= k <= s.len(),
        k < s.len() ==> s[k] == c,
        forall|i: int| from <= i < k ==> #[trigger] s[i] != c,
    ensures
        index_of(s, c, from) == k,
    decreases k - from,
{
    if from < k {
        lemma_index_of_is(s, c, from + 1, k);
    }
}

/// A compact serialization joined from three dot-free segments splits back
/// into exactly those segments.
pub proof fn lemma_jws_segments_of_joined(a: Seq<char>, b: Seq<char>, c: Seq<char>)
    requires
        no_dot(a),
        no_dot(b),
        no_dot(c),
    ensures
        jws_segments(a + seq!['.'] + b + seq!['.'] + c) == Some((a, b, c)),
{
    let s = a + seq!['.'] + b + seq!['.'] + c;
    let d1 = a.len() as int;
    let d2 = d1 + 1 + b.len();
    assert forall|i: int| 0 <= i < d1 implies #[trigger] s[i] != '.' by {
        assert(s[i] == a[i]);
    }
    lemma_index_of_is(s, '.', 0, d1);
    assert forall|i: int| d1 + 1 <= i < d2 implies #[trigger] s[i] != '.' by {
        assert(s[i] == b[i - d1 - 1]);
    }
    lemma_index_of_is(s, '.', d1 + 1, d2);
    assert forall|i: int| d2 + 1 <= i < s.len() implies #[trigger] s[i] != '.' by {
        assert(s[i] == c[i - d2 - 1]);
    }
    lemma_index_of_is(s, '.', d2 + 1, s.len() as int);
    assert(s.take(d1) =~= a);
    assert(s.subrange(d1 + 1, d2) =~= b);
    assert(s.skip(d2 + 1) =~= c);
}

/// The segments a compact serialization splits into are dot-free and,
/// joined again with dots, give back the serialization.
pub proof fn lemma_jws_segments_rejoin(s: Seq<char>)
    requires
        jws_segments(s) is Some,
    ensures
        match jws_segments(s) {
            Some((a, b, c)) => no_dot(a) && no_dot(b) && no_dot(c) && s == a + seq!['.'] + b
                + seq!['.'] + c,
            None => false,
        },
{
    let d1 = index_of(s, '.', 0);
    let d2 = index_of(s, '.', d1 + 1);
    lemma_index_of_range(s, '.', 0);
    lemma_index_of_range(s, '.', d1 + 1);
    lemma_index_of_range(s, '.', d2 + 1);
    let a = s.take(d1);
    let b = s.subrange(d1 + 1, d2);
    let c = s.skip(d2 + 1);
    assert forall|i: int| 0 <= i < a.len() implies #[trigger] a[i] != '.' by {
        assert(a[i] == s[i]);
    }
    assert forall|i: int| 0 <= i < b.len() implies #[trigger] b[i] != '.' by {
        assert(b[i] == s[d1 + 1 + i]);
    }
    assert forall|i: int| 0 <= i < c.len() implies #[trigger] c[i] != '.' by {
        assert(c[i] == s[d2 + 1 + i]);
    }
    assert(s =~= a + seq!['.'] + b + seq!['.'] + c);
}

/// The index of the first `c` in `v` at or after `from`, or `v.len()`.
pub fn find_char(v: &Vec<char>, c: char, from: usize) -> (r: usize)
    ensures
        r == index_of(v@, c, from as int),
        from <= v.len() ==> from <= r <= v.len(),
        from > v.len() ==> r == v.len(),
{
    proof {
        lemma_index_of_range(v@, c, from as int);
    }
    if from >= v.len() {
        return v.len();
    }
    let mut i = from;
    while i < v.len() && v[i] != c
        invariant
            from <= i <= v.len(),
            index_of(v@, c, from as int) == index_of(v@, c, i as int),
        decreases v.len() - i,
    {
        i = i + 1;
    }
    i
}

// ---------------------------------------------------------------------------
// Framing
// ---------------------------------------------------------------------------

/// What framing a compact serialization gives: its three segments and the
/// decoded header bytes, or the first error met.
pub open spec fn frame_check(s: Seq<char>) -> Result<(Seq<char>, Seq<char>, Seq<char>, Seq<u8>), Seq<char>> {
    if !(MIN_ATTESTATION_LENGTH <= s.len() <= MAX_ATTESTATION_LENGTH) {
        Err("Attestation Error: compact JWS must be 32-4096 characters"@)
    } else if !all_jws_chars(s) {
        Err("Attestation Error: compact JWS must only contain characters [A-Za-z0-9._~-]"@)
    } else {
        match jws_segments(s) {
            None => Err("Attestation Error: compact JWS must have exactly three segments"@),
            Some((h, p, g)) => match b64_decode(h) {
                None => Err("Attestation Error: header is not valid base64url"@),
                Some(header) => Ok((h, p, g, header)),
            },
        }
    }
}

/// The three base64url segments of a compact JWS and its decoded header.
pub struct JwsFrame {
    pub header_b64: String,
    pub payload_b64: String,
    pub signature_b64: String,
    pub header: Vec<u8>,
}

/// Checks the size and charset of a compact JWS, splits it into its three
/// segments and decodes the header segment.
pub fn frame_compact(compact: &str) -> (r: Result<JwsFrame, String>)
    ensures
        match r {
            Ok(f) => frame_check(compact@) == Ok::<
                (Seq<char>, Seq<char>, Seq<char>, Seq<u8>),
                Seq<char>,
            >((f.header_b64@, f.payload_b64@, f.signature_b64@, f.header@)),
            Err(e) => frame_check(compact@) == Err::<
                (Seq<char>, Seq<char>, Seq<char>, Seq<u8>),
                Seq<char>,
            >(e@),
        },
        r matches Ok(f) ==> compact@ == f.header_b64@ + seq!['.'] + f.payload_b64@ + seq!['.']
            + f.signature_b64@ && no_dot(f.header_b64@) && no_dot(f.payload_b64@) && no_dot(
            f.signature_b64@,
        ) && 32 <= compact@.len() <= 4096 && all_jws_chars(compact@) && b64_decode(
            f.header_b64@,
        ) == Some(f.header@),
{
    proof {
        if jws_segments(compact@) is Some {
            lemma_jws_segments_rejoin(compact@);
        }
    }
    let v = chars_of(compact);
    if !(MIN_ATTESTATION_LENGTH <= v.len() && v.len() <= MAX_ATTESTATION_LENGTH) {
        return Err(owned("Attestation Error: compact JWS must be 32-4096 characters"));
    }
    if !check_all_jws_chars(&v) {
        return Err(
            owned("Attestation Error: compact JWS must only contain characters [A-Za-z0-9._~-]"),
        );
    }
    let d1 = find_char(&v, '.', 0);
    let d2 = if d1 < v.len() {
        find_char(&v, '.', d1 + 1)
    } else {
        v.len()
    };
    let d3 = if d2 < v.len() {
        find_char(&v, '.', d2 + 1)
    } else {
        v.len()
    };
    if !(d1 < v.len() && d2 < v.len() && d3 == v.len()) {
        return Err(owned("Attestation Error: compact JWS must have exactly three segments"));
    }
    let header_b64 = compact.substring_char(0, d1).to_owned();
    let payload_b64 = compact.substring_char(d1 + 1, d2).to_owned();
    let signature_b64 = compact.substring_char(d2 + 1, v.len()).to_owned();
    assert(compact@.subrange(0, d1 as int) =~= compact@.take(d1 as int));
    assert(compact@.subrange(d2 + 1, v.len() as int) =~= compact@.skip(d2 + 1));
    match base64url_decode(header_b64.as_str()) {
        None => Err(owned("Attestation Error: header is not valid base64url")),
        Some(header) => Ok(JwsFrame { header_b64, payload_b64, signature_b64, header }),
    }
}

// ---------------------------------------------------------------------------
// Header, payload and signature segments
// ---------------------------------------------------------------------------

/// The outcome of checking the protected header's `alg` and `typ`.
pub open spec fn header_check(alg: Seq<char>, typ: Seq<char>, expected_typ: Seq<char>) -> Result<(), Seq<char>> {
    if alg != "EdDSA"@ {
        Err("Attestation Error: alg must be EdDSA"@)
    } else if typ != expected_typ {
        Err("Attestation Error: typ must be "@ + expected_typ)
    } else {
        Ok(())
    }
}

/// Checks that the protected header names `EdDSA` and the expected `typ`.
pub fn check_header(alg: &str, typ: &str, expected_typ: &str) -> (r: Result<(), String>)
    ensures
        crate::text::outcome(r) == header_check(alg@, typ@, expected_typ@),
        r is Ok <==> alg@ == "EdDSA"@ && typ@ == expected_typ@,
{
    if !str_eq(alg, "EdDSA") {
        return Err(owned("Attestation Error: alg must be EdDSA"));
    }
    if !str_eq(typ, expected_typ) {
        return Err(crate::text::concat2("Attestation Error: typ must be ", expected_typ));
    }
    Ok(())
}

/// Decodes the payload segment.
pub fn decode_payload(frame: &JwsFrame) -> (r: Result<Vec<u8>, String>)
    ensures
        match r {
            Ok(p) => b64_decode(frame.payload_b64@) == Some(p@),
            Err(e) => b64_decode(frame.payload_b64@) is None && e@
                == "Attestation Error: payload is not valid base64url"@,
        },
{
    match base64url_decode(frame.payload_b64.as_str()) {
        Some(p) => Ok(p),
        None => Err(owned("Attestation Error: payload is not valid base64url")),
    }
}

/// What decoding the signature segment gives: 64 signature bytes, or the
/// first error met.
pub open spec fn signature_segment_check(g: Seq<char>) -> Result<Seq<u8>, Seq<char>> {
    match b64_decode(g) {
        None => Err("Attestation Error: signature is not valid base64url"@),
        Some(bytes) => if bytes.len() == 64 {
            Ok(bytes)
        } else {
            Err("Attestation Error: signature must be 64 bytes"@)
        },
    }
}

/// Decodes the signature segment into its 64 bytes.
pub fn decode_signature(signature_b64: &str) -> (r: Result<[u8; 64], String>)
    ensures
        match r {
            Ok(sig) => signature_segment_check(signature_b64@) == Ok::<Seq<u8>, Seq<char>>(sig@),
            Err(e) => signature_segment_check(signature_b64@) == Err::<Seq<u8>, Seq<char>>(e@),
        },
        r is Ok <==> (b64_decode(signature_b64@) matches Some(bytes) && bytes.len() == 64),
        r matches Ok(sig) ==> b64_decode(signature_b64@) == Some(sig@),
{
    let bytes = match base64url_decode(signature_b64) {
        Some(b) => b,
        None => return Err(owned("Attestation Error: signature is not valid base64url")),
    };
    if bytes.len() != 64 {
        return Err(owned("Attestation Error: signature must be 64 bytes"));
    }
    let mut sig = [0u8; 64];
    let mut i: usize = 0;
    while i < 64
        invariant
            bytes@.len() == 64,
            i <= 64,
            forall|j: int| 0 <= j < i ==> sig@[j] == bytes@[j],
        decreases 64 - i,
    {
        sig[i] = bytes[i];
        i = i + 1;
    }
    assert(sig@ =~= bytes@);
    Ok(sig)
}

/// The exact text the signature covers: `header_b64 || '.' || payload_b64`.
pub open spec fn signing_input(header_b64: Seq<char>, payload_b64: Seq<char>) -> Seq<char> {
    header_b64 + "."@ + payload_b64
}

/// The signature covers the compact serialization up to its last dot:
/// the header and payload segments joined by a dot.
pub proof fn lemma_signing_input_is_signed_prefix(h: Seq<char>, p: Seq<char>, g: Seq<char>)
    ensures
        signing_input(h, p) == h + seq!['.'] + p,
        signing_input(h, p) + seq!['.'] + g == h + seq!['.'] + p + seq!['.'] + g,
{
    reveal_strlit(".");
    assert("."@ =~= seq!['.']);
}

/// Builds the signing input of a frame.
pub fn frame_signing_input(frame: &JwsFrame) -> (r: String)
    ensures
        r@ == signing_input(frame.header_b64@, frame.payload_b64@),
{
    concat3(frame.header_b64.as_str(), ".", frame.payload_b64.as_str())
}

// ---------------------------------------------------------------------------
// Issuer signature
// ---------------------------------------------------------------------------

/// The outcome of verifying a strict Ed25519 signature over `message` under
/// the key a pubky `iss` encodes.
pub open spec fn issuer_signature_check(iss: Seq<char>, message: Seq<u8>, signature: Seq<u8>) -> Result<(), Seq<char>> {
    match zbase32_pubky_key(iss) {
        None => Err("Attestation Error: iss does not decode as a pubky"@),
        Some(key) => if !ed25519_key_decompresses(key) {
            Err("Attestation Error: iss is not a valid Ed25519 key"@)
        } else if !ed25519_strict_signature_valid(key, message, signature) {
            Err("Attestation Error: signature verification failed"@)
        } else {
            Ok(())
        },
    }
}

/// The message of each outcome of a strict Ed25519 verification.
pub open spec fn signature_check_outcome(check: SignatureCheck) -> Result<(), Seq<char>> {
    match check {
        SignatureCheck::Valid => Ok(()),
        SignatureCheck::InvalidKey => Err("Attestation Error: iss is not a valid Ed25519 key"@),
        SignatureCheck::Invalid => Err("Attestation Error: signature verification failed"@),
    }
}

/// Maps the outcome of a strict Ed25519 verification to the attestation
/// result.
pub fn signature_outcome(check: SignatureCheck) -> (r: Result<(), String>)
    ensures
        crate::text::outcome(r) == signature_check_outcome(check),
{
    match check {
        SignatureCheck::Valid => Ok(()),
        SignatureCheck::InvalidKey => Err(owned("Attestation Error: iss is not a valid Ed25519 key")),
        SignatureCheck::Invalid => Err(owned("Attestation Error: signature verification failed")),
    }
}

/// Verifies the Ed25519 signature over `signed_text` against the issuer key
/// carried in the pubky `iss` (a pubky is the z-base-32 encoding of the
/// verification key, so no key discovery is involved).
pub fn verify_issuer_signature(iss: &str, signed_text: &str, signature: &[u8; 64]) -> (r: Result<(), String>)
    ensures
        crate::text::outcome(r) == issuer_signature_check(
            iss@,
            vstd::utf8::encode_utf8(signed_text@),
            signature@,
        ),
{
    let key = match zbase32_decode_pubky(iss) {
        Some(k) => k,
        None => return Err(owned("Attestation Error: iss does not decode as a pubky")),
    };
    let check = ed25519_verify_strict(key.as_slice(), signed_text.as_bytes(), signature);
    signature_outcome(check)
}

// ---------------------------------------------------------------------------
// Issued tokens
// ---------------------------------------------------------------------------

/// The unpadded base64url encoding of any bytes is a dot-free run of
/// compact-JWS characters.
proof fn lemma_b64_segment(b: Seq<u8>)
    ensures
        no_dot(b64_encode(b)),
        all_jws_chars(b64_encode(b)),
{
    lemma_b64_encode_shape(b);
}

/// An issuer's token frames back into exactly what was issued: when a
/// compact JWS is built as `base64url(header) . base64url(payload) .
/// base64url(signature)` and its length is within bounds, framing gives
/// back the three segments and the header bytes, the payload segment
/// decodes to the payload bytes, a 64-byte signature decodes to itself and
/// the signing input is the first two segments joined by a dot.
pub proof fn lemma_issued_token_frames(header: Seq<u8>, payload: Seq<u8>, signature: Seq<u8>)
    requires
        MIN_ATTESTATION_LENGTH <= (b64_encode(header) + "."@ + b64_encode(payload) + "."@
            + b64_encode(signature)).len() <= MAX_ATTESTATION_LENGTH,
    ensures
        ({
            let h = b64_encode(header);
            let p = b64_encode(payload);
            let g = b64_encode(signature);
            let compact = h + "."@ + p + "."@ + g;
            &&& frame_check(compact) == Ok::<
                (Seq<char>, Seq<char>, Seq<char>, Seq<u8>),
                Seq<char>,
            >((h, p, g, header))
            &&& b64_decode(p) == Some(payload)
            &&& signature.len() == 64 ==> signature_segment_check(g) == Ok::<Seq<u8>, Seq<char>>(
                signature,
            )
            &&& signing_input(h, p) == compact.take((h.len() + 1 + p.len()) as int)
        }),
{
    reveal_strlit(".");
    let h = b64_encode(header);
    let p = b64_encode(payload);
    let g = b64_encode(signature);
    let compact = h + "."@ + p + "."@ + g;
    lemma_b64_segment(header);
    lemma_b64_segment(payload);
    lemma_b64_segment(signature);
    lemma_b64_roundtrip(header);
    lemma_b64_roundtrip(payload);
    lemma_b64_roundtrip(signature);
    assert(compact =~= h + seq!['.'] + p + seq!['.'] + g);
    lemma_jws_segments_of_joined(h, p, g);
    assert forall|i: int| 0 <= i < compact.len() implies #[trigger] crate::text::is_jws_char(
        compact[i],
    ) by {
        if i < h.len() {
            assert(compact[i] == h[i]);
        } else if i == h.len() {
        } else if i < h.len() + 1 + p.len() {
            assert(compact[i] == p[i - h.len() - 1]);
        } else if i == h.len() + 1 + p.len() {
        } else {
            assert(compact[i] == g[i - h.len() - 2 - p.len()]);
        }
    }
    assert(signing_input(h, p) =~= compact.take((h.len() + 1 + p.len()) as int));
}

} // verus!

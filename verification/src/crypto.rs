//! The calls into the outside cryptography and encoding crates: Ed25519
//! signature verification (`ed25519-dalek`), BLAKE3 hashing (`blake3`) and
//! Crockford base32 encoding (`base32`). The Ed25519 and BLAKE3 results are
//! named here; every decision around them is verified elsewhere.
use vstd::prelude::*;
use crate::base32::{b32_encode, crockford_alphabet};

verus! {

/// Whether 32 bytes are the compressed Edwards-Y encoding of a point that
/// decompresses, i.e. whether `ed25519_dalek::VerifyingKey::from_bytes`
/// accepts them.
pub uninterp spec fn ed25519_key_decompresses(key: Seq<u8>) -> bool;

/// Whether `ed25519_dalek::VerifyingKey::verify_strict` accepts the 64-byte
/// signature over `message` under the verifying key encoded by `key`.
pub uninterp spec fn ed25519_strict_signature_valid(
    key: Seq<u8>,
    message: Seq<u8>,
    signature: Seq<u8>,
) -> bool;

/// The 32-byte BLAKE3 digest of `data` (`blake3::hash`).
pub uninterp spec fn blake3_digest(data: Seq<u8>) -> Seq<u8>;

/// The three outcomes of a strict Ed25519 verification.
#[derive(Debug, Clone, Copy, PartialEq, Eq)]
pub enum SignatureCheck {
    /// The key decodes and the signature verifies.
    Valid,
    /// The key bytes do not decode to a curve point.
    InvalidKey,
    /// The key decodes but the signature does not verify.
    Invalid,
}

/// Decodes the 32 key bytes with `ed25519_dalek::VerifyingKey::try_from`
/// (a length check followed by `VerifyingKey::from_bytes`), builds the
/// signature with `ed25519_dalek::Signature::from_bytes` and checks it with
/// `VerifyingKey::verify_strict`. The contract claims only that the outcome
/// is the one those two named predicates give for these exact bytes: it says
/// nothing of which keys or signatures they accept.
#[verifier::external_body]
pub(crate) fn ed25519_verify_strict(key: &[u8], message: &[u8], signature: &[u8; 64]) -> (r:
    SignatureCheck)
    requires
        key@.len() == 32,
    ensures
        (r == SignatureCheck::InvalidKey) == !ed25519_key_decompresses(key@),
        (r == SignatureCheck::Valid) == (ed25519_key_decompresses(key@)
            && ed25519_strict_signature_valid(key@, message@, signature@)),
{
    match ed25519_dalek::VerifyingKey::try_from(key) {
        Err(_) => SignatureCheck::InvalidKey,
        Ok(verifying_key) => {
            let sig = ed25519_dalek::Signature::from_bytes(signature);
            match verifying_key.verify_strict(message, &sig) {
                Ok(()) => SignatureCheck::Valid,
                Err(_) => SignatureCheck::Invalid,
            }
        },
    }
}

/// `blake3::hash(data)`, returned as its 32 bytes (`blake3::OUT_LEN`). The
/// contract names the digest and states its length, nothing more.
#[verifier::external_body]
pub(crate) fn blake3_hash(data: &[u8]) -> (r: Vec<u8>)
    ensures
        r@ == blake3_digest(data@),
        r@.len() == 32,
{
    blake3::hash(data).as_bytes().to_vec()
}

/// `base32::encode(Alphabet::Crockford, data)`: unpadded base32 of the
/// bytes in 5-bit groups, in the alphabet `0123456789ABCDEFGHJKMNPQRSTVWXYZ`.
#[verifier::external_body]
pub(crate) fn crockford_base32_encode(data: &[u8]) -> (r: String)
    ensures
        r@ == b32_encode(crockford_alphabet(), data@),
{
    base32::encode(base32::Alphabet::Crockford, data)
}

// ---------------------------------------------------------------------------
// Content-hash identifiers
// ---------------------------------------------------------------------------

/// The identifier of a record keyed by content: the Crockford base32
/// encoding of the first half (16 bytes) of the BLAKE3 digest of the UTF-8
/// bytes of `data`.
pub open spec fn hash_id(data: Seq<char>) -> Seq<char> {
    b32_encode(crockford_alphabet(), blake3_digest(vstd::utf8::encode_utf8(data)).take(16))
}

/// Computes the content-hash identifier of `data`.
pub fn create_hash_id(data: &str) -> (r: String)
    ensures
        r@ == hash_id(data@),
{
    let digest = blake3_hash(data.as_bytes());
    let mut half: Vec<u8> = Vec::new();
    let mut i: usize = 0;
    while i < 16
        invariant
            digest@.len() == 32,
            i <= 16,
            half@ == digest@.take(i as int),
        decreases 16 - i,
    {
        half.push(digest[i]);
        assert(digest@.take(i + 1) =~= digest@.take(i as int).push(digest@[i as int]));
        i = i + 1;
    }
    crockford_base32_encode(half.as_slice())
}

/// The outcome of matching a claimed identifier against the generated one.
pub open spec fn id_match_check(generated: Seq<char>, id: Seq<char>) -> Result<(), Seq<char>> {
    if generated == id {
        Ok(())
    } else {
        Err("Validation Error: Invalid ID"@)
    }
}

/// Checks a claimed identifier against the generated one.
pub fn check_generated_id(generated: &str, id: &str) -> (r: Result<(), String>)
    ensures
        crate::text::outcome(r) == id_match_check(generated@, id@),
{
    if crate::text::str_eq(generated, id) {
        Ok(())
    } else {
        Err(crate::text::owned("Validation Error: Invalid ID"))
    }
}

/// Checks that `id` is the content-hash identifier of `data`.
pub fn validate_hash_id(data: &str, id: &str) -> (r: Result<(), String>)
    ensures
        crate::text::outcome(r) == id_match_check(hash_id(data@), id@),
{
    let generated = create_hash_id(data);
    check_generated_id(generated.as_str(), id)
}

} // verus!

use base32::{encode as base32_encode, Alphabet};
use ed25519_dalek::SigningKey;
use pubky_app_specs::encoding::{base64url_decode, base64url_encode, zbase32_decode_pubky};

fn attestor_key() -> SigningKey {
    SigningKey::from_bytes(&[7u8; 32])
}

fn attestor_pubky(key: &SigningKey) -> String {
    base32_encode(Alphabet::Z, key.verifying_key().as_bytes())
}

#[test]
fn test_base64url_roundtrip() {
    for input in [
        &b""[..],
        &b"f"[..],
        &b"fo"[..],
        &b"foo"[..],
        &b"foob"[..],
        &b"fooba"[..],
        &b"foobar"[..],
        &[0xFF, 0xFE, 0xFD][..],
    ] {
        let encoded = base64url_encode(input);
        assert!(!encoded.contains('='));
        assert_eq!(base64url_decode(&encoded).unwrap(), input);
    }
    assert!(base64url_decode("a").is_none());
    assert!(base64url_decode("ab=c").is_none());
    assert!(base64url_decode("a+bc").is_none());
}

#[test]
fn test_zbase32_pubky_roundtrip() {
    let key = attestor_key();
    let pubky = attestor_pubky(&key);
    assert_eq!(pubky.chars().count(), 52);
    let decoded = zbase32_decode_pubky(&pubky).expect("decodes");
    assert_eq!(decoded.as_slice(), key.verifying_key().as_bytes());
    assert!(zbase32_decode_pubky("short").is_none());
    assert!(zbase32_decode_pubky(&"l".repeat(52)).is_none());
}

#[test]
fn base64url_known_vectors() {
    assert_eq!(base64url_encode(b"foobar"), "Zm9vYmFy");
    assert_eq!(base64url_encode(b"fo"), "Zm8");
    assert_eq!(base64url_encode(&[0xFB, 0xFF]), "-_8");
    assert_eq!(base64url_decode("-_8").unwrap(), vec![0xFB, 0xFF]);
}

//! The secret codec: hex encoding, lookup hashing, token generation and
//! password hashing against the real crates.

use authcore::codec;
use authcore::keys;

#[test]
fn hex_encoding_exact() {
    assert_eq!(codec::to_hex(&[]), "");
    assert_eq!(codec::to_hex(&[0x00, 0xff]), "00ff");
    assert_eq!(codec::to_hex(&[0xde, 0xad, 0xbe, 0xef]), "deadbeef");
    assert_eq!(codec::to_hex(&[0x01, 0x23, 0x45, 0x67, 0x89, 0xab, 0xcd, 0xef]), "0123456789abcdef");
}

#[test]
fn hex_decoding_exact() {
    assert_eq!(keys::decode_hex("00ff").unwrap(), vec![0x00, 0xff]);
    assert_eq!(keys::decode_hex("DEADbeef").unwrap(), vec![0xde, 0xad, 0xbe, 0xef]);
    assert_eq!(keys::decode_hex("").unwrap(), Vec::<u8>::new());
    assert!(keys::decode_hex("0").is_err());
    assert!(keys::decode_hex("zz").is_err());
    assert!(keys::decode_hex("0g").is_err());
}

#[test]
fn hex_round_trip() {
    let bytes = vec![1u8, 2, 3, 250, 16, 255, 0, 127];
    let encoded = codec::to_hex(bytes.as_slice());
    assert_eq!(keys::decode_hex(&encoded).unwrap(), bytes);
}

#[test]
fn lookup_hash_is_sha256_hex() {
    // The SHA-256 digest of "abc" is a published test vector.
    assert_eq!(
        codec::hash_token("abc"),
        "ba7816bf8f01cfea414140de5dae2223b00361a396177a9cb410ff61f20015ad"
    );
}

#[test]
fn lookup_hash_deterministic_and_separating() {
    let a1 = codec::hash_token("token-one");
    let a2 = codec::hash_token("token-one");
    let b = codec::hash_token("token-two");
    assert_eq!(a1, a2);
    assert_ne!(a1, b);
    assert_eq!(a1.len(), 64);
}

#[test]
fn generated_tokens_are_hex_and_distinct() {
    let t1 = codec::generate_token(32).unwrap();
    let t2 = codec::generate_token(32).unwrap();
    assert_eq!(t1.len(), 64);
    assert_eq!(t2.len(), 64);
    assert_ne!(t1, t2);
    assert!(t1.chars().all(|c| c.is_ascii_hexdigit()));
    let s = codec::generate_session_token().unwrap();
    assert_eq!(s.len(), 64);
    let v = codec::generate_verification_token().unwrap();
    assert_eq!(v.len(), 64);
    let id = codec::generate_session_id().unwrap();
    assert_eq!(id.len(), 32);
}

#[test]
fn password_hash_round_trip() {
    let phc = codec::hash_password("P@ssw0rd1").unwrap();
    assert_ne!(phc, "P@ssw0rd1");
    assert!(phc.starts_with("$argon2"));
    assert_eq!(codec::verify_password("P@ssw0rd1", &phc).unwrap(), true);
    assert_eq!(codec::verify_password("wrong", &phc).unwrap(), false);
}

#[test]
fn malformed_stored_hash_is_an_error_not_a_match() {
    let r = codec::verify_password("anything", "not-a-phc-string");
    assert_eq!(r, Err(codec::CodecError::Hashing));
}

#[test]
fn explicit_key_resolution() {
    let good = "00".repeat(32);
    let key = keys::resolve_db_key(Some(&good), "svc", "user", 32).unwrap();
    assert_eq!(key, vec![0u8; 32]);
    let short = "00".repeat(16);
    assert_eq!(
        keys::resolve_db_key(Some(&short), "svc", "user", 32),
        Err(keys::KeyError::Config)
    );
    let odd = "0".to_string();
    assert_eq!(
        keys::resolve_db_key(Some(&odd), "svc", "user", 32),
        Err(keys::KeyError::Config)
    );
}

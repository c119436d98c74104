//! The authenticated codec and key derivation, exercised with the real
//! cipher and encoding underneath.

use heilo::{decrypt, derive_key, encrypt, Error};

#[test]
fn test_encrypt_decrypt() {
    let key = b"01234567890123456789012345678901"; // 32 bytes
    let plaintext = b"Hello, World!";

    let encrypted = encrypt(key, plaintext).unwrap();
    let decrypted = decrypt(key, &encrypted).unwrap();

    assert_eq!(plaintext, decrypted.as_slice());
}

#[test]
fn test_derive_key() {
    let key_str = "my-secret-key";
    let derived = derive_key(key_str);
    assert_eq!(derived.len(), 32);
}

#[test]
fn test_derive_key_cyclic_repeat() {
    // A 4-byte passphrase is repeated cyclically out to 32 bytes.
    let derived = derive_key("pass");
    assert_eq!(derived.len(), 32);
    assert_eq!(derived.as_slice(), b"passpasspasspasspasspasspasspass".as_slice());
}

#[test]
fn test_derive_key_truncates_long_passphrase() {
    let derived = derive_key("0123456789abcdef0123456789abcdefEXTRA");
    assert_eq!(derived.as_slice(), b"0123456789abcdef0123456789abcdef".as_slice());
}

#[test]
fn test_derive_key_deterministic() {
    assert_eq!(derive_key("my-secret-key"), derive_key("my-secret-key"));
}

#[test]
fn test_derive_key_empty_passphrase_all_zero() {
    let derived = derive_key("");
    assert_eq!(derived, vec![0u8; 32]);
}

#[test]
fn test_round_trip_empty_plaintext() {
    let key = [7u8; 32];
    let envelope = encrypt(&key, b"").unwrap();
    let decrypted = decrypt(&key, &envelope).unwrap();
    assert_eq!(decrypted, Vec::<u8>::new());
}

#[test]
fn test_nonce_freshness() {
    // Two encryptions of the same message differ, and both decrypt back.
    let key = [9u8; 32];
    let first = encrypt(&key, b"same message").unwrap();
    let second = encrypt(&key, b"same message").unwrap();
    assert_ne!(first, second);
    assert_eq!(decrypt(&key, &first).unwrap(), b"same message".to_vec());
    assert_eq!(decrypt(&key, &second).unwrap(), b"same message".to_vec());
}

#[test]
fn test_wrong_key_fails_authentication() {
    let key_one = [0x11u8; 32];
    let key_two = [0x22u8; 32];
    let envelope = encrypt(&key_one, b"secret").unwrap();
    let result = decrypt(&key_two, &envelope);
    assert!(matches!(result, Err(Error::Authentication)));
}

#[test]
fn test_corrupted_envelope_never_decodes() {
    let key = [5u8; 32];
    let envelope = encrypt(&key, b"hello").unwrap();
    let mut bytes: Vec<char> = envelope.chars().collect();
    bytes[0] = if bytes[0] == 'A' { 'B' } else { 'A' };
    let corrupted: String = bytes.into_iter().collect();
    let result = decrypt(&key, &corrupted);
    assert!(matches!(result, Err(Error::Authentication) | Err(Error::Format)));
}

#[test]
fn test_invalid_key_length_rejected() {
    let short_key = [1u8; 31];
    assert!(matches!(encrypt(&short_key, b"x"), Err(Error::InvalidKey)));
    assert!(matches!(decrypt(&short_key, "AAAA"), Err(Error::InvalidKey)));
}

#[test]
fn test_malformed_envelope_is_format_error() {
    let key = [3u8; 32];
    // Not base64 at all.
    assert!(matches!(decrypt(&key, "!!! not base64 !!!"), Err(Error::Format)));
    // Valid base64, but fewer than twelve decoded bytes.
    assert!(matches!(decrypt(&key, "YWJj"), Err(Error::Format)));
}

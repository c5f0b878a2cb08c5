use string_crypter::crypter::{
    decrypt_rust, encrypt_rust, encrypt_with_salt, generate_salt_rust, process_string_rust,
    CrypterError,
};
use string_crypter::xor::xor_bytes_rust;

#[test]
fn round_trip_via_dispatcher() {
    let original = "Hello from Rust!";
    let encrypted = process_string_rust('e', original).unwrap();
    let decrypted = process_string_rust('d', &encrypted).unwrap();
    assert_eq!(decrypted, original);
}

#[test]
fn round_trip_with_explicit_key() {
    let original = "a plaintext with spaces and punctuation!?";
    let key = "another key";
    let encrypted = encrypt_rust(original, key).unwrap();
    let decrypted = decrypt_rust(&encrypted, key).unwrap();
    assert_eq!(decrypted, original);
}

#[test]
fn round_trip_empty_plaintext() {
    let encrypted = process_string_rust('e', "").unwrap();
    let decrypted = process_string_rust('d', &encrypted).unwrap();
    assert_eq!(decrypted, "");
}

#[test]
fn round_trip_non_ascii_plaintext() {
    let original = "héllo \u{2603} snowman";
    let key = "test_key";
    let encrypted = encrypt_rust(original, key).unwrap();
    let decrypted = decrypt_rust(&encrypted, key).unwrap();
    assert_eq!(decrypted, original);
}

#[test]
fn salt_freshness_two_encodings_differ() {
    let a = process_string_rust('e', "same input").unwrap();
    let b = process_string_rust('e', "same input").unwrap();
    assert_ne!(a, b);
}

#[test]
fn salt_is_32_lowercase_hex_chars() {
    let salt = generate_salt_rust().unwrap();
    assert_eq!(salt.len(), 32);
    assert!(salt.chars().all(|c| c.is_ascii_hexdigit() && !c.is_ascii_uppercase()));
}

#[test]
fn xor_empty_key_is_noop() {
    let buffer = vec![0u8, 1, 2, 254, 255];
    assert_eq!(xor_bytes_rust(&buffer, &[]), buffer);
    let empty: Vec<u8> = Vec::new();
    assert_eq!(xor_bytes_rust(&empty, &[]), empty);
}

#[test]
fn xor_known_values() {
    let out = xor_bytes_rust(&[0x00, 0xff, 0x41, 0x10], &[0x0f]);
    assert_eq!(out, vec![0x0f, 0xf0, 0x4e, 0x1f]);
    let cycled = xor_bytes_rust(&[0x01, 0x02, 0x03], &[0x10, 0x20]);
    assert_eq!(cycled, vec![0x11, 0x22, 0x13]);
}

#[test]
fn xor_is_involution_on_bytes() {
    let buffer = vec![7u8, 0, 99, 200, 13];
    let key = b"key".to_vec();
    let twice = xor_bytes_rust(&xor_bytes_rust(&buffer, &key), &key);
    assert_eq!(twice, buffer);
}

#[test]
fn truncated_payload_detected() {
    // "AAAA" is the base64 of three zero bytes: far too short to hold the
    // 32-character salt prefix after unmasking.
    let r = process_string_rust('d', "AAAA");
    assert!(matches!(r, Err(CrypterError::TruncatedPayloadError)));
}

#[test]
fn malformed_base64_rejected() {
    let r = process_string_rust('d', "not valid base64 !!!");
    assert!(matches!(r, Err(CrypterError::DecodeFormatError(_))));
}

#[test]
fn unknown_operation_rejected_with_value() {
    let r = process_string_rust('x', "anything");
    assert_eq!(r, Err(CrypterError::UnsupportedOperationError('x')));
    let q = process_string_rust('E', "case matters");
    assert_eq!(q, Err(CrypterError::UnsupportedOperationError('E')));
}

#[test]
fn encoding_length_is_fixed_by_input_length() {
    // 32 salt bytes + 5 plaintext bytes = 37 masked bytes -> 52 base64 chars.
    let encrypted = encrypt_rust("Hello", "test_key").unwrap();
    assert_eq!(encrypted.len(), 52);
    assert_eq!(decrypt_rust(&encrypted, "test_key").unwrap(), "Hello");
    // 32 masked bytes alone -> 44 base64 chars.
    let empty = encrypt_rust("", "test_key").unwrap();
    assert_eq!(empty.len(), 44);
}

#[test]
fn wrong_key_never_silently_returns_plaintext() {
    // The keys differ at every letter (by case), so each plaintext byte at an
    // offset hitting a letter is flipped; "Hello" cannot come back unchanged.
    let encrypted = encrypt_rust("Hello", "test_key").unwrap();
    match decrypt_rust(&encrypted, "TEST_KEY") {
        Ok(garbled) => assert_ne!(garbled, "Hello"),
        Err(_) => {},
    }
}

#[test]
fn encrypt_with_salt_is_deterministic() {
    let salt = "000102030405060708090a0b0c0d0e0f";
    let a = encrypt_with_salt(salt, "payload", "test_key");
    let b = encrypt_with_salt(salt, "payload", "test_key");
    assert_eq!(a, b);
    assert_eq!(a.len(), 52);
}

#[test]
fn hex_salt_prefix_survives_round_trip_through_codecs() {
    // Masking with an empty key leaves the buffer unchanged, so decryption
    // sees exactly the salt text followed by the plaintext bytes.
    let salt = "ffeeddccbbaa99887766554433221100";
    let c = encrypt_with_salt(salt, "tail", "");
    let r = decrypt_rust(&c, "").unwrap();
    assert_eq!(r, "tail");
}

use base64::engine::general_purpose::STANDARD;
use base64::Engine;
use violet::{Algorithm, EncryptionEnvelope, EnvelopeEncryptor, VioletError};

#[test]
fn test_envelope_encryption_gcm() {
    let kek = [42u8; 32];
    let plaintext = b"Sensitive data that needs protection";

    let encryptor = EnvelopeEncryptor::new(Algorithm::Aes256Gcm);
    let envelope = encryptor.encrypt(plaintext, &kek, "test-key-123".to_string()).unwrap();

    // Verify envelope structure
    assert_eq!(envelope.key_id, "test-key-123");
    assert_eq!(envelope.algorithm, "AES-256-GCM");
    assert!(!envelope.encrypted_data.is_empty());
    assert!(!envelope.encrypted_key.is_empty());
    assert!(!envelope.iv.is_empty());
    assert!(!envelope.auth_tag.is_empty());

    // Decrypt
    let decrypted = encryptor.decrypt(&envelope, &kek).unwrap();
    assert_eq!(plaintext, &decrypted[..]);
}

#[test]
fn test_envelope_encryption_gcm_siv() {
    let kek = [99u8; 32];
    let plaintext = b"Another secret message";

    let encryptor = EnvelopeEncryptor::new(Algorithm::Aes256GcmSiv);
    let envelope = encryptor.encrypt(plaintext, &kek, "key-uuid-456".to_string()).unwrap();

    assert_eq!(envelope.algorithm, "AES-256-GCM-SIV");

    let decrypted = encryptor.decrypt(&envelope, &kek).unwrap();
    assert_eq!(plaintext, &decrypted[..]);
}

#[test]
fn test_decrypt_with_wrong_kek() {
    let kek1 = [1u8; 32];
    let kek2 = [2u8; 32];
    let plaintext = b"secret";

    let encryptor = EnvelopeEncryptor::new(Algorithm::Aes256Gcm);
    let envelope = encryptor.encrypt(plaintext, &kek1, "test".to_string()).unwrap();

    let result = encryptor.decrypt(&envelope, &kek2);
    assert!(result.is_err());
}

#[test]
fn test_invalid_kek_size() {
    let encryptor = EnvelopeEncryptor::new(Algorithm::Aes256Gcm);
    let result = encryptor.encrypt(b"test", &[0u8; 16], "test".to_string());
    assert!(matches!(result, Err(VioletError::InvalidKeySize(16))));
}

#[test]
fn test_decrypt_invalid_kek_size() {
    let kek = [5u8; 32];
    let encryptor = EnvelopeEncryptor::new(Algorithm::Aes256Gcm);
    let envelope = encryptor.encrypt(b"x", &kek, "id".to_string()).unwrap();

    let result = encryptor.decrypt(&envelope, &[0u8; 31]);
    assert!(matches!(result, Err(VioletError::InvalidKeySize(31))));
}

#[test]
fn test_empty_plaintext_roundtrip() {
    let kek = [7u8; 32];
    for algorithm in [Algorithm::Aes256Gcm, Algorithm::Aes256GcmSiv] {
        let encryptor = EnvelopeEncryptor::new(algorithm);
        let envelope = encryptor.encrypt(b"", &kek, "empty".to_string()).unwrap();
        let decrypted = encryptor.decrypt(&envelope, &kek).unwrap();
        assert!(decrypted.is_empty());
    }
}

#[test]
fn test_hello_world_end_to_end() {
    // Plaintext "Hello, World!" under a KEK of 32 zero bytes with GCM.
    let kek = [0u8; 32];
    let encryptor = EnvelopeEncryptor::new(Algorithm::Aes256Gcm);
    let envelope = encryptor.encrypt(b"Hello, World!", &kek, "zero-key".to_string()).unwrap();

    assert_eq!(envelope.algorithm, "AES-256-GCM");

    let decrypted = encryptor.decrypt(&envelope, &kek).unwrap();
    assert_eq!(String::from_utf8(decrypted).unwrap(), "Hello, World!");
}

#[test]
fn test_short_encrypted_key_is_structural_error() {
    // 27 decoded bytes cannot hold a 12-byte nonce plus a 16-byte tag.
    let envelope = EncryptionEnvelope {
        key_id: "k".to_string(),
        encrypted_data: STANDARD.encode(b"some ciphertext"),
        encrypted_key: STANDARD.encode([0u8; 27]),
        iv: STANDARD.encode([0u8; 12]),
        algorithm: "AES-256-GCM".to_string(),
        auth_tag: STANDARD.encode([0u8; 16]),
    };

    let encryptor = EnvelopeEncryptor::new(Algorithm::Aes256Gcm);
    let result = encryptor.decrypt(&envelope, &[0u8; 32]);
    assert!(matches!(result, Err(VioletError::CryptoError(27))));
}

#[test]
fn test_invalid_algorithm_in_envelope() {
    let kek = [3u8; 32];
    let encryptor = EnvelopeEncryptor::new(Algorithm::Aes256Gcm);
    let mut envelope = encryptor.encrypt(b"data", &kek, "id".to_string()).unwrap();
    envelope.algorithm = "INVALID".to_string();

    let result = encryptor.decrypt(&envelope, &kek);
    assert!(matches!(result, Err(VioletError::InvalidAlgorithm)));
}

#[test]
fn test_malformed_base64_in_envelope() {
    let kek = [3u8; 32];
    let encryptor = EnvelopeEncryptor::new(Algorithm::Aes256Gcm);
    let mut envelope = encryptor.encrypt(b"data", &kek, "id".to_string()).unwrap();
    envelope.encrypted_data = "!!! not base64 !!!".to_string();

    let result = encryptor.decrypt(&envelope, &kek);
    assert!(matches!(result, Err(VioletError::Base64Error)));
}

fn flip_one_character(s: &str) -> String {
    // Swap the first character for a different alphabet character, which
    // corrupts the decoded bytes (or the encoding itself).
    let mut chars: Vec<char> = s.chars().collect();
    chars[0] = if chars[0] == 'A' { 'B' } else { 'A' };
    chars.into_iter().collect()
}

#[test]
fn test_tampered_envelope_fails() {
    let kek = [9u8; 32];
    let plaintext = b"integrity protected";
    let encryptor = EnvelopeEncryptor::new(Algorithm::Aes256Gcm);
    let envelope = encryptor.encrypt(plaintext, &kek, "id".to_string()).unwrap();

    let mut tampered = envelope.clone();
    tampered.encrypted_data = flip_one_character(&envelope.encrypted_data);
    assert!(encryptor.decrypt(&tampered, &kek).is_err());

    let mut tampered = envelope.clone();
    tampered.encrypted_key = flip_one_character(&envelope.encrypted_key);
    assert!(encryptor.decrypt(&tampered, &kek).is_err());

    let mut tampered = envelope.clone();
    tampered.iv = flip_one_character(&envelope.iv);
    assert!(encryptor.decrypt(&tampered, &kek).is_err());

    let mut tampered = envelope.clone();
    tampered.auth_tag = flip_one_character(&envelope.auth_tag);
    assert!(encryptor.decrypt(&tampered, &kek).is_err());

    // The untampered envelope still decrypts.
    assert_eq!(encryptor.decrypt(&envelope, &kek).unwrap(), plaintext);
}

#[test]
fn test_fresh_randomness_per_envelope() {
    let kek = [4u8; 32];
    let encryptor = EnvelopeEncryptor::new(Algorithm::Aes256Gcm);
    let first = encryptor.encrypt(b"same input", &kek, "id".to_string()).unwrap();
    let second = encryptor.encrypt(b"same input", &kek, "id".to_string()).unwrap();

    // A fresh DEK and fresh nonces make every envelope unique.
    assert_ne!(first.encrypted_data, second.encrypted_data);
    assert_ne!(first.encrypted_key, second.encrypted_key);
}

#[test]
fn test_envelope_equality_with_clone() {
    let kek = [8u8; 32];
    let encryptor = EnvelopeEncryptor::new(Algorithm::Aes256Gcm);
    let envelope = encryptor.encrypt(b"payload", &kek, "id".to_string()).unwrap();
    assert_eq!(envelope, envelope.clone());

    let mut other = envelope.clone();
    other.key_id = "different".to_string();
    assert_ne!(envelope, other);
}

use violet::gcm::{decrypt, encrypt};
use violet::VioletError;

#[test]
fn aes_gcm_test_encrypt_decrypt_roundtrip() {
    let key = [0u8; 32];
    let plaintext = b"Hello, World!";

    let (ciphertext, nonce, tag) = encrypt(plaintext, &key).unwrap();
    let decrypted = decrypt(&ciphertext, &key, &nonce, &tag).unwrap();

    assert_eq!(plaintext, &decrypted[..]);
}

#[test]
fn aes_gcm_test_invalid_key_size() {
    let result = encrypt(b"test", &[0u8; 16]);
    assert!(matches!(result, Err(VioletError::InvalidKeySize(16))));
}

#[test]
fn test_invalid_nonce_size() {
    let result = decrypt(&[0u8; 10], &[0u8; 32], &[0u8; 10], &[0u8; 16]);
    assert!(matches!(result, Err(VioletError::InvalidNonceSize(10))));
}

#[test]
fn test_invalid_tag_size() {
    let result = decrypt(&[0u8; 10], &[0u8; 32], &[0u8; 12], &[0u8; 10]);
    assert!(matches!(result, Err(VioletError::InvalidTagSize(10))));
}

#[test]
fn aes_gcm_test_decrypt_with_wrong_key() {
    let key1 = [1u8; 32];
    let key2 = [2u8; 32];
    let plaintext = b"secret";

    let (ciphertext, nonce, tag) = encrypt(plaintext, &key1).unwrap();
    let result = decrypt(&ciphertext, &key2, &nonce, &tag);

    assert!(result.is_err());
}

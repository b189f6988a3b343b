use violet::Key;

#[test]
fn test_key_as_bytes() {
    let key = Key {
        uuid: "test-uuid".to_string(),
        key: "0123456789abcdef".to_string(), // 8 bytes
    };

    let bytes = key.as_bytes().unwrap();
    assert_eq!(bytes.len(), 8);
    assert_eq!(bytes, vec![0x01, 0x23, 0x45, 0x67, 0x89, 0xab, 0xcd, 0xef]);
}

#[test]
fn test_key_size_bytes() {
    let key = Key {
        uuid: "test".to_string(),
        key: "00".repeat(32), // 32 bytes = 64 hex chars
    };

    assert_eq!(key.size_bytes(), 32);
}

#[test]
fn test_invalid_hex() {
    let key = Key {
        uuid: "test".to_string(),
        key: "not-hex".to_string(),
    };

    assert!(key.as_bytes().is_err());
}

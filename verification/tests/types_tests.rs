use violet::Algorithm;

#[test]
fn test_algorithm_as_str() {
    assert_eq!(Algorithm::Aes256Gcm.as_str(), "AES-256-GCM");
    assert_eq!(Algorithm::Aes256GcmSiv.as_str(), "AES-256-GCM-SIV");
}

#[test]
fn test_algorithm_from_str() {
    assert_eq!(Algorithm::from_str("AES-256-GCM").unwrap(), Algorithm::Aes256Gcm);
    assert_eq!(Algorithm::from_str("AES-256-GCM-SIV").unwrap(), Algorithm::Aes256GcmSiv);
    assert!(Algorithm::from_str("INVALID").is_err());
}

#[test]
fn test_algorithm_default() {
    assert_eq!(Algorithm::default(), Algorithm::Aes256Gcm);
}

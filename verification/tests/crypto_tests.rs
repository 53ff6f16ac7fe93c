use base64::Engine;
use gmanager_vault::cipher::{decrypt_field, encrypt_field, is_encrypted, validate_key};
use gmanager_vault::errors::CryptoError;
use gmanager_vault::kdf::{derive_key, generate_salt};
use gmanager_vault::records::{
    decrypt_account_fields, decrypt_accounts, decrypt_optional_field, encrypt_account_fields,
    encrypt_accounts, encrypt_optional_field, AccountFields,
};

fn make_test_key() -> Vec<u8> {
    derive_key(b"test-master-password", b"test-salt-16-bytes!!")
}

#[test]
fn test_derive_key_is_deterministic() {
    let salt = [1u8; 16];
    let key1 = derive_key(b"password", &salt);
    let key2 = derive_key(b"password", &salt);
    assert_eq!(key1, key2);
}

#[test]
fn test_derive_key_different_passwords() {
    let salt = [1u8; 16];
    let key1 = derive_key(b"password1", &salt);
    let key2 = derive_key(b"password2", &salt);
    assert_ne!(key1, key2);
}

#[test]
fn test_derive_key_different_salts() {
    let password = b"password";
    let salt1 = [1u8; 16];
    let salt2 = [2u8; 16];
    let key1 = derive_key(password, &salt1);
    let key2 = derive_key(password, &salt2);
    assert_ne!(key1, key2);
}

#[test]
fn test_encrypt_and_decrypt_field() {
    let key = make_test_key();
    let plaintext = "user@example.com";

    let encrypted = encrypt_field(plaintext, &key).unwrap();
    assert!(is_encrypted(&encrypted));
    assert!(!encrypted.contains(plaintext));

    let decrypted = decrypt_field(&encrypted, &key).unwrap();
    assert_eq!(decrypted, plaintext);
}

#[test]
fn test_encrypt_same_plaintext_different_ciphertext() {
    let key = make_test_key();
    let plaintext = "same@email.com";

    let enc1 = encrypt_field(plaintext, &key).unwrap();
    let enc2 = encrypt_field(plaintext, &key).unwrap();

    assert_ne!(enc1, enc2);

    assert_eq!(decrypt_field(&enc1, &key).unwrap(), plaintext);
    assert_eq!(decrypt_field(&enc2, &key).unwrap(), plaintext);
}

#[test]
fn test_decrypt_with_wrong_key_fails() {
    let key1 = make_test_key();
    let key2 = derive_key(b"different-password", b"different-salt-16!!");
    let plaintext = "secret@email.com";

    let encrypted = encrypt_field(plaintext, &key1).unwrap();
    let result = decrypt_field(&encrypted, &key2);

    assert!(result.is_err());
}

#[test]
fn test_encrypt_empty_field_fails() {
    let key = make_test_key();
    let result = encrypt_field("", &key);
    assert!(matches!(result, Err(CryptoError::EmptyField)));
}

#[test]
fn test_decrypt_invalid_format_fails() {
    let key = make_test_key();

    // Missing prefix
    assert!(decrypt_field("invalid", &key).is_err());
    // Invalid base64
    assert!(decrypt_field("enc1:!!!", &key).is_err());
    // Too short
    assert!(decrypt_field("enc1:YQ", &key).is_err());
}

#[test]
fn test_encrypt_account_fields() {
    let key = make_test_key();
    let account = AccountFields {
        id: "acc-1".to_string(),
        raw_import_id: None,
        email: Some("user@example.com".to_string()),
        password: Some("secret123".to_string()),
        recovery_email: Some("recovery@example.com".to_string()),
        totp_secret: Some("JBSWY3DPEHPK3PXP".to_string()),
        year: Some("2024".to_string()),
        notes: Some("Important account".to_string()),
        group_id: None,
        created_at: "2024-01-01T00:00:00Z".to_string(),
        updated_at: "2024-01-01T00:00:00Z".to_string(),
    };

    let encrypted = encrypt_account_fields(&account, &key).unwrap();

    // Sensitive fields should be encrypted
    assert!(is_encrypted(encrypted.email.as_deref().unwrap()));
    assert!(is_encrypted(encrypted.password.as_deref().unwrap()));
    assert!(is_encrypted(encrypted.recovery_email.as_deref().unwrap()));
    assert!(is_encrypted(encrypted.totp_secret.as_deref().unwrap()));
    assert!(is_encrypted(encrypted.notes.as_deref().unwrap()));

    // Non-sensitive fields unchanged
    assert_eq!(encrypted.year, account.year);
    assert_eq!(encrypted.id, account.id);
}

#[test]
fn test_round_trip_account_fields() {
    let key = make_test_key();
    let original = AccountFields {
        id: "acc-1".to_string(),
        raw_import_id: Some("import-1".to_string()),
        email: Some("user@example.com".to_string()),
        password: Some("secret123".to_string()),
        recovery_email: None, // Test None handling
        totp_secret: Some("JBSWY3DPEHPK3PXP".to_string()),
        year: Some("2024".to_string()),
        notes: None, // Test None handling
        group_id: Some("group-1".to_string()),
        created_at: "2024-01-01T00:00:00Z".to_string(),
        updated_at: "2024-01-01T00:00:00Z".to_string(),
    };

    let encrypted = encrypt_account_fields(&original, &key).unwrap();
    let decrypted = decrypt_account_fields(&encrypted, &key).unwrap();

    assert_eq!(decrypted.email, original.email);
    assert_eq!(decrypted.password, original.password);
    assert_eq!(decrypted.recovery_email, original.recovery_email);
    assert_eq!(decrypted.totp_secret, original.totp_secret);
    assert_eq!(decrypted.notes, original.notes);
    assert_eq!(decrypted.year, original.year);
    assert_eq!(decrypted.id, original.id);
}

#[test]
fn test_generate_salt() {
    let salt1 = generate_salt().unwrap();
    let salt2 = generate_salt().unwrap();

    assert_ne!(salt1, salt2, "Salts should be unique");
    assert_eq!(salt1.len(), 16);
    assert_eq!(salt2.len(), 16);
}

#[test]
fn test_validate_key() {
    assert!(validate_key(&[0u8; 32]).is_ok());
    assert!(validate_key(&[0u8; 16]).is_err());
    assert!(validate_key(&[0u8; 64]).is_err());
}

#[test]
fn test_is_encrypted() {
    assert!(is_encrypted("enc1:SGVsbG8="));
    assert!(!is_encrypted("plaintext"));
    assert!(!is_encrypted(""));
}

#[test]
fn test_decrypt_invalid_format_error_kinds() {
    let key = make_test_key();

    assert!(matches!(
        decrypt_field("no prefix here", &key),
        Err(CryptoError::InvalidFormat(_))
    ));
    assert!(matches!(
        decrypt_field("enc1:!!!", &key),
        Err(CryptoError::InvalidFormat(_))
    ));
    assert!(matches!(
        decrypt_field("enc1:YQ", &key),
        Err(CryptoError::InvalidFormat(_))
    ));
}

#[test]
fn test_decrypt_wrong_key_is_decryption_failed() {
    let key1 = make_test_key();
    let key2 = derive_key(b"another-password", b"test-salt-16-bytes!!");

    let encrypted = encrypt_field("alice@example.com", &key1).unwrap();
    assert!(encrypted.starts_with("enc1:"));
    assert_eq!(decrypt_field(&encrypted, &key1).unwrap(), "alice@example.com");
    assert!(matches!(
        decrypt_field(&encrypted, &key2),
        Err(CryptoError::DecryptionFailed(_))
    ));
}

#[test]
fn test_decrypt_tampered_field_fails() {
    let key = make_test_key();
    let encrypted = encrypt_field("payload", &key).unwrap();

    // Flip the final base64 character to another digit of the alphabet.
    let mut tampered: Vec<char> = encrypted.chars().collect();
    let last = *tampered.last().unwrap();
    let replacement = if last == 'A' { 'B' } else { 'A' };
    let pos = tampered.len() - 1;
    tampered[pos] = replacement;
    let tampered: String = tampered.into_iter().collect();

    assert!(decrypt_field(&tampered, &key).is_err());
}

#[test]
fn test_decrypt_invalid_utf8_fails() {
    // Seal bytes that are not UTF-8 under a known key and nonce, encode
    // them in the wire format, and decrypt: authentication succeeds but
    // the text check must reject them.
    let key = make_test_key();
    let nonce = [7u8; 12];

    let unbound = ring::aead::UnboundKey::new(&ring::aead::AES_256_GCM, &key).unwrap();
    let sealing = ring::aead::LessSafeKey::new(unbound);
    let n = ring::aead::Nonce::assume_unique_for_key(nonce);
    let mut buf = vec![0xFFu8, 0xFE, 0xFD];
    sealing
        .seal_in_place_append_tag(n, ring::aead::Aad::empty(), &mut buf)
        .unwrap();

    let mut data = nonce.to_vec();
    data.extend_from_slice(&buf);
    let wire = format!(
        "enc1:{}",
        base64::engine::general_purpose::STANDARD.encode(&data)
    );

    assert!(matches!(
        decrypt_field(&wire, &key),
        Err(CryptoError::InvalidUtf8)
    ));
}

#[test]
fn test_derive_key_matches_direct_pbkdf2() {
    // The library's derivation must agree with PBKDF2-HMAC-SHA256 at
    // 100,000 iterations, called directly with the same arguments.
    let salt = [9u8; 16];
    let key = derive_key(b"cross-check", &salt);

    let mut expected = [0u8; 32];
    ring::pbkdf2::derive(
        ring::pbkdf2::PBKDF2_HMAC_SHA256,
        std::num::NonZeroU32::new(100_000).unwrap(),
        &salt,
        b"cross-check",
        &mut expected,
    );
    assert_eq!(key.as_slice(), &expected);
}

#[test]
fn test_optional_field_absent_and_empty() {
    let key = make_test_key();

    // Absent stays absent.
    let enc = encrypt_optional_field(&None, &key).unwrap();
    assert_eq!(enc, None);
    let dec = decrypt_optional_field(&None, &key).unwrap();
    assert_eq!(dec, None);

    // Explicitly empty passes through unencrypted in both directions.
    let enc = encrypt_optional_field(&Some(String::new()), &key).unwrap();
    assert_eq!(enc, Some(String::new()));
    let dec = decrypt_optional_field(&Some(String::new()), &key).unwrap();
    assert_eq!(dec, Some(String::new()));

    // Non-empty is encrypted and round-trips.
    let enc = encrypt_optional_field(&Some("hidden".to_string()), &key).unwrap();
    let stored = enc.unwrap();
    assert!(is_encrypted(&stored));
    let dec = decrypt_optional_field(&Some(stored), &key).unwrap();
    assert_eq!(dec, Some("hidden".to_string()));
}

#[test]
fn test_batch_encrypt_decrypt_accounts() {
    let key = make_test_key();
    let mk = |id: &str, email: &str| AccountFields {
        id: id.to_string(),
        raw_import_id: None,
        email: Some(email.to_string()),
        password: Some("pw".to_string()),
        recovery_email: None,
        totp_secret: None,
        year: None,
        notes: None,
        group_id: None,
        created_at: "2024-01-01T00:00:00Z".to_string(),
        updated_at: "2024-01-01T00:00:00Z".to_string(),
    };
    let accounts = vec![mk("a", "a@example.com"), mk("b", "b@example.com")];

    let encrypted = encrypt_accounts(accounts, &key).unwrap();
    assert_eq!(encrypted.len(), 2);
    assert!(is_encrypted(encrypted[0].email.as_deref().unwrap()));
    assert!(is_encrypted(encrypted[1].email.as_deref().unwrap()));

    let decrypted = decrypt_accounts(encrypted, &key).unwrap();
    assert_eq!(decrypted[0].email, Some("a@example.com".to_string()));
    assert_eq!(decrypted[1].email, Some("b@example.com".to_string()));
    assert_eq!(decrypted[0].id, "a");
    assert_eq!(decrypted[1].id, "b");
}

#[test]
fn test_validate_key_error_kind() {
    assert!(matches!(
        validate_key(&[0u8; 31]),
        Err(CryptoError::InvalidFormat(_))
    ));
}

use gmanager_vault::cipher::{decrypt_field, encrypt_field};
use gmanager_vault::errors::{AuthError, CryptoError};
use gmanager_vault::kdf::derive_key;
use gmanager_vault::session::SessionManager;
use gmanager_vault::vault::{
    change_password, check_has_vault, create_vault, generate_verification_hash, get_session_key,
    logout, unlock_vault, verify_password, VaultStore,
};

fn get_test_store() -> VaultStore {
    VaultStore::new()
}

fn get_test_session_manager() -> SessionManager {
    SessionManager::new()
}

#[test]
fn test_check_has_vault_initially_false() {
    let store = get_test_store();
    assert!(!check_has_vault(&store).unwrap());
}

#[test]
fn test_create_and_check_vault() {
    let mut store = get_test_store();
    create_vault(&mut store, "test-password-123").unwrap();
    assert!(check_has_vault(&store).unwrap());
}

#[test]
fn test_create_vault_twice_fails() {
    let mut store = get_test_store();
    create_vault(&mut store, "test-password-123").unwrap();
    let result = create_vault(&mut store, "another-password");
    assert!(matches!(result, Err(AuthError::AlreadyExists)));
}

#[test]
fn test_unlock_vault_with_correct_password() {
    let mut store = get_test_store();
    let mut session_manager = get_test_session_manager();

    create_vault(&mut store, "test-password-123").unwrap();
    let result = unlock_vault(&store, "test-password-123", &mut session_manager);
    assert!(result.is_ok());
    assert!(session_manager.has_active_session());
}

#[test]
fn test_unlock_vault_with_wrong_password() {
    let mut store = get_test_store();
    let mut session_manager = get_test_session_manager();

    create_vault(&mut store, "test-password-123").unwrap();
    let result = unlock_vault(&store, "wrong-password", &mut session_manager);
    assert!(matches!(result, Err(AuthError::InvalidPassword)));
    assert!(!session_manager.has_active_session());
}

#[test]
fn test_unlock_vault_when_not_initialized() {
    let store = get_test_store();
    let mut session_manager = get_test_session_manager();

    let result = unlock_vault(&store, "any-password", &mut session_manager);
    assert!(matches!(result, Err(AuthError::NotInitialized)));
}

#[test]
fn test_change_password_with_correct_old_password() {
    let mut store = get_test_store();
    let mut session_manager = get_test_session_manager();

    create_vault(&mut store, "old-password-123").unwrap();
    unlock_vault(&store, "old-password-123", &mut session_manager).unwrap();

    change_password(
        &mut store,
        "old-password-123",
        "new-password-456",
        &mut session_manager,
    )
    .unwrap();

    // Should be able to unlock with new password
    session_manager.clear_session().unwrap();
    unlock_vault(&store, "new-password-456", &mut session_manager).unwrap();
}

#[test]
fn test_change_password_with_wrong_old_password() {
    let mut store = get_test_store();
    let mut session_manager = get_test_session_manager();

    create_vault(&mut store, "correct-password").unwrap();

    let result = change_password(
        &mut store,
        "wrong-password",
        "new-password-456",
        &mut session_manager,
    );
    assert!(matches!(result, Err(AuthError::InvalidPassword)));
}

#[test]
fn test_logout_clears_session() {
    let mut store = get_test_store();
    let mut session_manager = get_test_session_manager();

    create_vault(&mut store, "test-password-123").unwrap();
    unlock_vault(&store, "test-password-123", &mut session_manager).unwrap();

    assert!(session_manager.has_active_session());

    logout(&mut session_manager).unwrap();

    assert!(!session_manager.has_active_session());
}

#[test]
fn test_get_session_key_when_logged_in() {
    let mut store = get_test_store();
    let mut session_manager = get_test_session_manager();

    create_vault(&mut store, "test-password-123").unwrap();
    unlock_vault(&store, "test-password-123", &mut session_manager).unwrap();

    let key = get_session_key(&session_manager);
    assert!(key.is_ok());
    // Key should be 32 bytes
    assert_eq!(key.unwrap().len(), 32);
}

#[test]
fn test_get_session_key_when_not_logged_in() {
    let session_manager = get_test_session_manager();

    let result = get_session_key(&session_manager);
    assert!(matches!(result, Err(AuthError::NotLoggedIn)));
}

#[test]
fn test_verification_hash_generation() {
    let key = derive_key(b"test-password", b"test-salt-16-bytes!!");
    let hash1 = generate_verification_hash(&key);
    let hash2 = generate_verification_hash(&key);

    // Same key should produce same hash
    assert_eq!(hash1, hash2);
    assert!(hash1.starts_with("vault1:"));
}

#[test]
fn test_verify_password_with_correct_key() {
    let key = derive_key(b"test-password", b"test-salt-16-bytes!!");
    let hash = generate_verification_hash(&key);

    assert!(verify_password(&key, &hash));
}

#[test]
fn test_verify_password_with_wrong_key() {
    let correct_key = derive_key(b"test-password", b"test-salt-16-bytes!!");
    let wrong_key = derive_key(b"wrong-password", b"test-salt-16-bytes!!");
    let hash = generate_verification_hash(&correct_key);

    assert!(!verify_password(&wrong_key, &hash));
}

#[test]
fn test_session_key_zeroed_on_logout() {
    let mut store = get_test_store();
    let mut session_manager = get_test_session_manager();

    create_vault(&mut store, "test-password-123").unwrap();
    unlock_vault(&store, "test-password-123", &mut session_manager).unwrap();

    let _key_before = get_session_key(&session_manager).unwrap();

    logout(&mut session_manager).unwrap();

    // After logout, we should get NotLoggedIn error
    let result = get_session_key(&session_manager);
    assert!(matches!(result, Err(AuthError::NotLoggedIn)));

    // The key bytes are overwritten with zeros before the session is
    // dropped; only the absence of the session is observable here.
}

#[test]
fn test_create_unlock_scenario_bit_identical_key() {
    // create -> K1; unlock with the creation password -> K1 bit for bit;
    // any other password -> InvalidPassword.
    let mut store = get_test_store();
    let mut session_manager = get_test_session_manager();

    let k1 = create_vault(&mut store, "correct-horse-battery").unwrap();
    let unlocked = unlock_vault(&store, "correct-horse-battery", &mut session_manager).unwrap();
    assert_eq!(k1, unlocked);
    assert_eq!(get_session_key(&session_manager).unwrap(), k1);

    let wrong = unlock_vault(&store, "wrong", &mut session_manager);
    assert!(matches!(wrong, Err(AuthError::InvalidPassword)));
}

#[test]
fn test_encrypt_field_scenario_with_session_keys() {
    // encrypt under the vault's key, decrypt under it, and fail under a
    // key derived from another vault.
    let mut store1 = get_test_store();
    let mut store2 = get_test_store();
    let k1 = create_vault(&mut store1, "first-password-123").unwrap();
    let k2 = create_vault(&mut store2, "second-password-456").unwrap();
    assert_ne!(k1, k2);

    let encrypted = encrypt_field("alice@example.com", &k1).unwrap();
    assert!(encrypted.starts_with("enc1:"));
    assert_eq!(decrypt_field(&encrypted, &k1).unwrap(), "alice@example.com");
    assert!(matches!(
        decrypt_field(&encrypted, &k2),
        Err(CryptoError::DecryptionFailed(_))
    ));
}

#[test]
fn test_change_password_wrong_old_leaves_record_unchanged() {
    let mut store = get_test_store();
    let mut session_manager = get_test_session_manager();

    create_vault(&mut store, "correct-password").unwrap();
    let (salt_before, ver_before) = {
        let rec = store.load_vault().unwrap();
        (rec.salt_hex.clone(), rec.verification.clone())
    };

    let result = change_password(
        &mut store,
        "wrong-password",
        "new-password-456",
        &mut session_manager,
    );
    assert!(matches!(result, Err(AuthError::InvalidPassword)));

    let rec = store.load_vault().unwrap();
    assert_eq!(rec.salt_hex, salt_before);
    assert_eq!(rec.verification, ver_before);
}

#[test]
fn test_change_password_replaces_active_session_key() {
    let mut store = get_test_store();
    let mut session_manager = get_test_session_manager();

    create_vault(&mut store, "old-password-123").unwrap();
    let old_key = unlock_vault(&store, "old-password-123", &mut session_manager).unwrap();

    change_password(
        &mut store,
        "old-password-123",
        "new-password-456",
        &mut session_manager,
    )
    .unwrap();

    // The session now holds the new key, and the old password no longer
    // unlocks.
    let current = get_session_key(&session_manager).unwrap();
    assert_ne!(current, old_key);
    let reunlocked = unlock_vault(&store, "new-password-456", &mut session_manager).unwrap();
    assert_eq!(current, reunlocked);
    assert!(matches!(
        unlock_vault(&store, "old-password-123", &mut session_manager),
        Err(AuthError::InvalidPassword)
    ));
}

#[test]
fn test_unlock_with_wrong_length_salt_is_invalid_format() {
    // Valid hexadecimal, but two bytes instead of sixteen.
    let mut session_manager = get_test_session_manager();
    let store = VaultStore::from_record("abcd".to_string(), "vault1:00".to_string());
    let result = unlock_vault(&store, "whatever", &mut session_manager);
    assert!(matches!(
        result,
        Err(AuthError::Crypto(CryptoError::InvalidFormat(_)))
    ));
}

#[test]
fn test_verify_password_rejects_malformed_artifacts() {
    let key = derive_key(b"test-password", b"test-salt-16-bytes!!");
    // No version prefix.
    assert!(!verify_password(&key, "deadbeef"));
    // Prefix but no hexadecimal behind it.
    assert!(!verify_password(&key, "vault1:zz"));
    // Prefix and hexadecimal of the wrong length.
    assert!(!verify_password(&key, "vault1:00"));
}

#[test]
fn test_unlock_with_corrupt_salt_is_invalid_format() {
    let mut session_manager = get_test_session_manager();
    let store = VaultStore::from_record(
        "not-hexadecimal".to_string(),
        "vault1:00".to_string(),
    );
    let result = unlock_vault(&store, "whatever", &mut session_manager);
    assert!(matches!(
        result,
        Err(AuthError::Crypto(CryptoError::InvalidFormat(_)))
    ));
    assert!(!session_manager.has_active_session());
}

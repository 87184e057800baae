use blog_crypto::algo::{multithread_init, sign, verify, VerificationInput, HASH_BYTES, KEY_BYTES, SALT_BYTES};
use blog_crypto::credentials::{
    authenticate, create_password, update_password, verify_password, CredentialError, Password,
    PasswordWithBackingInfo, Requester, SavableCredential,
};
use blog_crypto::rotating::RotatingKeyStore;
use blog_crypto::stable::StableKeyStore;

fn key(b: u8) -> Vec<u8> {
    vec![b; KEY_BYTES]
}

fn owner() -> Requester {
    Requester { user_id: 10, can_edit_user_credentials: false }
}

fn stranger() -> Requester {
    Requester { user_id: 20, can_edit_user_credentials: false }
}

fn admin() -> Requester {
    Requester { user_id: 30, can_edit_user_credentials: true }
}

fn pw(text: &str) -> Password {
    Password { user_id: 10, password: text.to_string() }
}

#[test]
fn sign_is_deterministic_and_keyed() {
    assert_eq!(multithread_init(), Ok(()));
    let input = VerificationInput::new_default_hash_len(b"hunter2".to_vec(), Some(vec![1u8; SALT_BYTES]));
    let d1 = sign(&input, &key(1));
    let d2 = sign(&input, &key(1));
    let d3 = sign(&input, &key(2));
    assert_eq!(d1.len(), HASH_BYTES);
    assert_eq!(d1, d2);
    assert_ne!(d1, d3);
    assert_ne!(d1, b"hunter2".to_vec());
    assert!(verify(&input, &key(1), &d1));
    assert!(!verify(&input, &key(2), &d1));
}

#[test]
fn salt_is_part_of_the_digest() {
    let a = VerificationInput::new(b"pw".to_vec(), vec![1u8; SALT_BYTES], HASH_BYTES);
    let b = VerificationInput::new(b"pw".to_vec(), vec![2u8; SALT_BYTES], HASH_BYTES);
    assert_ne!(sign(&a, &key(1)), sign(&b, &key(1)));
    assert_eq!(a.salt(), &[1u8; SALT_BYTES][..]);
}

#[test]
fn fresh_salts_are_drawn() {
    let a = VerificationInput::new_default_hash_len(b"pw".to_vec(), None);
    let b = VerificationInput::new_default_hash_len(b"pw".to_vec(), None);
    assert_eq!(a.salt().len(), SALT_BYTES);
    assert_ne!(a.salt(), b.salt());
}

#[test]
fn owner_creates_password() {
    let keys = StableKeyStore::new(key(3));
    let rec = create_password(&owner(), &keys, &pw("secret"), 0).unwrap();
    assert_eq!(rec.user_id, 10);
    assert_eq!(rec.written_by, 10);
    assert_eq!(rec.generation_id, 0);
    assert_eq!(base64::decode(&rec.salt).unwrap().len(), SALT_BYTES);
    assert_eq!(base64::decode(&rec.hash).unwrap().len(), HASH_BYTES);
}

#[test]
fn create_with_existing_record_is_invariant_violation() {
    let keys = StableKeyStore::new(key(3));
    assert_eq!(
        create_password(&owner(), &keys, &pw("secret"), 1).err(),
        Some(CredentialError::InvariantViolation)
    );
}

#[test]
fn update_without_record_is_invariant_violation() {
    let keys = StableKeyStore::new(key(3));
    assert_eq!(
        update_password(&owner(), &keys, &pw("secret"), 0).err(),
        Some(CredentialError::InvariantViolation)
    );
    assert_eq!(
        update_password(&owner(), &keys, &pw("secret"), 2).err(),
        Some(CredentialError::InvariantViolation)
    );
}

#[test]
fn stranger_update_is_unauthorized() {
    let keys = StableKeyStore::new(key(3));
    assert_eq!(
        update_password(&stranger(), &keys, &pw("secret"), 1).err(),
        Some(CredentialError::Unauthorized)
    );
    // Authorization is checked before the record count.
    assert_eq!(
        update_password(&stranger(), &keys, &pw("secret"), 5).err(),
        Some(CredentialError::Unauthorized)
    );
}

#[test]
fn capability_holder_updates_other_users_password() {
    let keys = StableKeyStore::new(key(3));
    let rec = update_password(&admin(), &keys, &pw("secret"), 1).unwrap();
    assert_eq!(rec.user_id, 10);
    assert_eq!(rec.written_by, 30);
}

#[test]
fn trait_entry_points_match_free_functions() {
    let keys = StableKeyStore::new(key(3));
    let requester = owner();
    let password = pw("secret");
    let info = PasswordWithBackingInfo { credentials: &requester, keys: &keys, pw: &password, existing_records: 0 };
    assert!(info.convert_and_save_with_credentials().is_ok());
    let info = PasswordWithBackingInfo { credentials: &requester, keys: &keys, pw: &password, existing_records: 0 };
    assert_eq!(info.convert_and_update_with_credentials().err(), Some(CredentialError::InvariantViolation));
}

#[test]
fn hash_then_verify_round_trips() {
    let mut keys = RotatingKeyStore::new(key(1), 2);
    keys.rotate(key(2));
    let rec = create_password(&owner(), &keys, &pw("correct horse"), 0).unwrap();
    assert_eq!(rec.generation_id, 1);
    assert_eq!(verify_password(&keys, "correct horse", &rec.salt, &rec.hash, 1), Ok(true));
    assert_eq!(verify_password(&keys, "correct hors", &rec.salt, &rec.hash, 1), Ok(false));
    assert_eq!(verify_password(&keys, "correct horse", &rec.salt, &rec.hash, 0), Ok(false));
    assert_eq!(authenticate(&keys, "correct horse", &rec.salt, &rec.hash, 1), Ok(()));
    assert_eq!(
        authenticate(&keys, "wrong", &rec.salt, &rec.hash, 1),
        Err(CredentialError::VerificationMismatch)
    );
}

#[test]
fn old_generation_still_verifies_within_window() {
    let mut keys = RotatingKeyStore::new(key(1), 1);
    let rec = create_password(&owner(), &keys, &pw("pw"), 0).unwrap();
    keys.rotate(key(2));
    assert_eq!(verify_password(&keys, "pw", &rec.salt, &rec.hash, rec.generation_id), Ok(true));
}

#[test]
fn evicted_generation_is_not_found() {
    let mut keys = RotatingKeyStore::new(key(1), 1);
    let rec = create_password(&owner(), &keys, &pw("pw"), 0).unwrap();
    keys.rotate(key(2));
    keys.rotate(key(3));
    assert_eq!(
        verify_password(&keys, "pw", &rec.salt, &rec.hash, rec.generation_id),
        Err(CredentialError::GenerationNotFound)
    );
    assert_eq!(
        authenticate(&keys, "pw", &rec.salt, &rec.hash, rec.generation_id),
        Err(CredentialError::VerificationMismatch)
    );
}

#[test]
fn undecodable_record_matches_nothing() {
    let keys = StableKeyStore::new(key(1));
    let rec = create_password(&owner(), &keys, &pw("pw"), 0).unwrap();
    assert_eq!(verify_password(&keys, "pw", "!!not base64!!", &rec.hash, 0), Ok(false));
    assert_eq!(verify_password(&keys, "pw", &rec.salt, "***", 0), Ok(false));
}

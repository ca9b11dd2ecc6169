//! Password hashing and verification against the real hash function.

use bread::credentials::CredentialManager;
use bread::errors::AppError;
use bread::models::user::User;

/// Cheap cost parameters so the memory-hard function stays fast in tests.
fn cheap() -> CredentialManager {
    CredentialManager::with_params(8, 1, 1, 4)
}

#[test]
fn hash_then_verify_accepts_the_password() {
    let credentials = cheap();
    let hash = credentials.hash("correct horse battery staple").unwrap();
    assert_eq!(credentials.verify(hash.as_str(), "correct horse battery staple"), Ok(true));
}

#[test]
fn verify_rejects_a_wrong_password() {
    let credentials = cheap();
    let hash = credentials.hash("secret1").unwrap();
    assert_eq!(credentials.verify(hash.as_str(), "secret2"), Ok(false));
}

#[test]
fn two_hashes_differ_yet_both_verify() {
    let credentials = cheap();
    let first = credentials.hash("secret1").unwrap();
    let second = credentials.hash("secret1").unwrap();
    assert_ne!(first, second);
    assert_eq!(credentials.verify(first.as_str(), "secret1"), Ok(true));
    assert_eq!(credentials.verify(second.as_str(), "secret1"), Ok(true));
}

#[test]
fn malformed_hash_is_a_hash_error() {
    let credentials = cheap();
    assert_eq!(credentials.verify("not an encoded hash", "whatever"), Err(AppError::HashError));
    assert_eq!(credentials.verify("", "whatever"), Err(AppError::HashError));
}

#[test]
fn reference_parameters_match_the_design() {
    let credentials = CredentialManager::new();
    assert_eq!(credentials.mem_cost, 65536);
    assert_eq!(credentials.time_cost, 10);
    assert_eq!(credentials.lanes, 4);
    assert_eq!(credentials.hash_length, 32);
}

#[test]
fn created_user_carries_a_verifying_hash_and_defaults() {
    let credentials = cheap();
    let user = User::create("alice".to_string(), "secret1".to_string(), &credentials).unwrap();
    assert!(user.id.is_none());
    assert_eq!(user.name, "alice");
    assert_ne!(user.password, "secret1");
    assert_eq!(credentials.verify(user.password.as_str(), "secret1"), Ok(true));
    assert!(user.preferences.prefers_darkmode);
}

#[test]
fn hash_password_output_is_no_echo_of_its_input() {
    let credentials = cheap();
    let hash = User::hash_password("hunter2", &credentials).unwrap();
    assert_ne!(hash, "hunter2");
    assert_eq!(credentials.verify(hash.as_str(), "hunter2"), Ok(true));
    assert_eq!(credentials.verify(hash.as_str(), "hunter3"), Ok(false));
}

//! End-to-end flows against a stub store: registration, verification, and
//! the session decisions that follow.

use authcore::credentials::{VerifyOutcome, finalize_registration, save_credentials,
    verify_credentials};
use authcore::errors::AuthError;
use authcore::hasher::Hasher;
use authcore::idgen::{IdSearch, id_search_new, id_search_step};
use authcore::models::{Session, User};
use authcore::sessions::SessionManager;

/// Registers a user against a stub store kept as a plain vector.
fn register(store: &mut Vec<User>, username: &str, password: &str) -> Result<u128, AuthError> {
    let pending = save_credentials(&String::from(username), &String::from(password))?;
    let mut search = id_search_new();
    loop {
        match search {
            IdSearch::Searching { .. } => {
                let candidate = uuid::Uuid::new_v4().as_u128();
                let exists = store.iter().any(|u| u.get_id() == candidate);
                search = id_search_step(search, candidate, exists);
            }
            IdSearch::Found { id } => {
                store.push(finalize_registration(pending, id));
                return Ok(id);
            }
            IdSearch::Exhausted => return Err(AuthError::RetriesExhausted),
        }
    }
}

/// The store lookup verification starts from: every account whose stored
/// fingerprint equals the fingerprint of the presented username.
fn accounts_by_fingerprint(store: &Vec<User>, username: &str) -> Vec<User> {
    let hasher = Hasher::new();
    let fingerprint = hasher.hash_username(&String::from(username));
    store
        .iter()
        .filter(|u| u.get_username() == &fingerprint)
        .cloned()
        .collect()
}

#[test]
fn registering_the_same_username_twice_yields_two_accounts_with_one_fingerprint() {
    // The store does not enforce fingerprint uniqueness: both registrations
    // land, observable as two accounts sharing a fingerprint. This pins the
    // current behavior, not an endorsement of it.
    let mut store: Vec<User> = Vec::new();
    let first = register(&mut store, "alice", "Secret1!").unwrap();
    let second = register(&mut store, "alice", "Secret2!").unwrap();
    assert_ne!(first, second);
    assert_eq!(store.len(), 2);
    assert_eq!(store[0].get_username(), store[1].get_username());
}

#[test]
fn registration_rejects_a_policy_violation() {
    let mut store: Vec<User> = Vec::new();
    let result = register(&mut store, "alice", "password");
    assert_eq!(result, Err(AuthError::ValidationError));
    assert!(store.is_empty());
}

#[test]
fn registered_account_starts_with_no_active_sessions() {
    let mut store: Vec<User> = Vec::new();
    let id = register(&mut store, "alice", "Secret1!").unwrap();
    assert_eq!(store[0].get_id(), id);
    assert_eq!(store[0].get_active_sessions(), 0);
}

#[test]
fn verify_with_correct_credentials_and_no_session_yields_a_new_session_for_the_account() {
    let mut store: Vec<User> = Vec::new();
    let id = register(&mut store, "alice", "Secret1!").unwrap();
    let candidates = accounts_by_fingerprint(&store, "alice");
    let outcome = verify_credentials(&candidates, &String::from("Secret1!"), None, 100_000);
    match outcome {
        Ok(VerifyOutcome::NewSessionNeeded { user_id }) => {
            assert_eq!(user_id, id);
            // The caller now creates the session, confirms its identifier
            // collision-free, and persists it.
            let manager = SessionManager::new();
            let session = manager.create_session(user_id, 100_000);
            assert_eq!(session.get_user_id(), id);
            assert_eq!(session.get_expires_at() - session.get_created_at(), 3600);
        }
        other => panic!("unexpected outcome: {:?}", other),
    }
}

#[test]
fn verify_with_a_wrong_password_is_a_credential_mismatch() {
    let mut store: Vec<User> = Vec::new();
    register(&mut store, "alice", "Secret1!").unwrap();
    let candidates = accounts_by_fingerprint(&store, "alice");
    let outcome = verify_credentials(&candidates, &String::from("Wrong1!!"), None, 100_000);
    assert_eq!(outcome, Err(AuthError::CredentialMismatch));
}

#[test]
fn verify_with_an_unknown_username_is_a_credential_mismatch() {
    let mut store: Vec<User> = Vec::new();
    register(&mut store, "alice", "Secret1!").unwrap();
    let candidates = accounts_by_fingerprint(&store, "mallory");
    let outcome = verify_credentials(&candidates, &String::from("Secret1!"), None, 100_000);
    assert_eq!(outcome, Err(AuthError::CredentialMismatch));
}

#[test]
fn verify_with_two_matching_accounts_is_an_integrity_error() {
    // Both accounts carry the same username fingerprint and the same
    // password, so both match: that ambiguity is never silently resolved.
    let mut store: Vec<User> = Vec::new();
    register(&mut store, "alice", "Secret1!").unwrap();
    register(&mut store, "alice", "Secret1!").unwrap();
    let candidates = accounts_by_fingerprint(&store, "alice");
    let outcome = verify_credentials(&candidates, &String::from("Secret1!"), None, 100_000);
    assert_eq!(outcome, Err(AuthError::IntegrityError));
}

#[test]
fn verify_renews_a_session_bound_to_the_matching_account() {
    let mut store: Vec<User> = Vec::new();
    let id = register(&mut store, "alice", "Secret1!").unwrap();
    let manager = SessionManager::new();
    let presented = manager.create_session(id, 50_000);
    let candidates = accounts_by_fingerprint(&store, "alice");
    let outcome = verify_credentials(
        &candidates,
        &String::from("Secret1!"),
        Some(&presented),
        90_000,
    );
    match outcome {
        Ok(VerifyOutcome::Renewed { session }) => {
            assert_eq!(session.get_id(), presented.get_id());
            assert_eq!(session.get_user_id(), id);
            assert_eq!(session.get_created_at(), 90_000);
            assert_eq!(session.get_expires_at(), 90_000 + 3600);
        }
        other => panic!("unexpected outcome: {:?}", other),
    }
}

#[test]
fn verify_rejects_a_session_bound_to_another_account() {
    let mut store: Vec<User> = Vec::new();
    let alice = register(&mut store, "alice", "Secret1!").unwrap();
    let presented = Session::new(555, alice.wrapping_add(1), 50_000);
    let candidates = accounts_by_fingerprint(&store, "alice");
    let outcome = verify_credentials(
        &candidates,
        &String::from("Secret1!"),
        Some(&presented),
        90_000,
    );
    assert_eq!(outcome, Err(AuthError::SessionIntegrityError));
}

#[test]
fn only_the_policy_violation_is_a_client_fault() {
    assert!(AuthError::ValidationError.is_client_fault());
    assert!(!AuthError::CredentialMismatch.is_client_fault());
    assert!(!AuthError::PersistenceError.is_client_fault());
    assert!(!AuthError::RetriesExhausted.is_client_fault());
}

#[test]
fn registration_fails_cleanly_when_the_salt_cannot_be_encoded() {
    // Thirty bytes of username plus eight of password exceed what even the
    // fallback salt material can fit.
    let mut store: Vec<User> = Vec::new();
    let result = register(&mut store, "an-extremely-long-username-xyz", "Secret1!");
    assert_eq!(result, Err(AuthError::HashError));
    assert!(store.is_empty());
}

//! Session lifecycle: creation, expiry validation, renewal, and the
//! handling of ambiguous session lookups.

use authcore::errors::AuthError;
use authcore::models::Session;
use authcore::sessions::{SessionManager, SessionState};
use authcore::store::{rows_contain_id, select_session};

#[test]
fn created_session_expires_one_hour_after_creation() {
    let manager = SessionManager::new();
    let session = manager.create_session(42, 1_000_000);
    assert_eq!(session.get_expires_at() - session.get_created_at(), 3600);
    assert_eq!(session.get_user_id(), 42);
    assert_eq!(session.get_created_at(), 1_000_000);
}

#[test]
fn guest_session_expires_one_hour_after_creation() {
    let manager = SessionManager::new();
    let session = manager.guest_session(5_000);
    assert_eq!(session.get_expires_at() - session.get_created_at(), 3600);
}

#[test]
fn validate_without_a_session_is_unauthenticated() {
    let manager = SessionManager::new();
    assert_eq!(manager.validate(None, 12345), SessionState::Unauthenticated);
}

#[test]
fn validate_before_expiry_is_active() {
    let manager = SessionManager::new();
    let session = manager.create_session(7, 10_000);
    assert_eq!(manager.validate(Some(&session), 10_000 + 3599), SessionState::Active);
}

#[test]
fn validate_one_second_past_the_hour_is_expired() {
    let manager = SessionManager::new();
    let session = manager.create_session(7, 10_000);
    assert_eq!(manager.validate(Some(&session), 10_000 + 3601), SessionState::Expired);
}

#[test]
fn validate_exactly_at_the_hour_is_expired() {
    // Validity demands that the clock still be strictly before the expiry
    // time, so the session is already expired the moment it is reached.
    let manager = SessionManager::new();
    let session = manager.create_session(7, 10_000);
    assert_eq!(manager.validate(Some(&session), 10_000 + 3600), SessionState::Expired);
}

#[test]
fn renewal_keeps_identity_and_resets_the_clock() {
    let manager = SessionManager::new();
    let session = manager.create_session(9, 20_000);
    let renewed = manager.renew(&session, 30_000);
    assert_eq!(renewed.get_id(), session.get_id());
    assert_eq!(renewed.get_user_id(), 9);
    assert_eq!(renewed.get_created_at(), 30_000);
    assert_eq!(renewed.get_expires_at(), 30_000 + 3600);
}

#[test]
fn renewal_revives_an_expired_session() {
    let manager = SessionManager::new();
    let session = manager.create_session(9, 20_000);
    let later = 20_000 + 50_000;
    assert_eq!(manager.validate(Some(&session), later), SessionState::Expired);
    let renewed = manager.renew(&session, later);
    assert_eq!(manager.validate(Some(&renewed), later + 1), SessionState::Active);
}

#[test]
fn select_session_of_no_rows_is_none() {
    assert_eq!(select_session(&Vec::new()), Ok(None));
}

#[test]
fn select_session_of_one_row_is_that_row() {
    let session = Session::new(1, 2, 100);
    assert_eq!(select_session(&vec![session]), Ok(Some(session)));
}

#[test]
fn select_session_of_two_rows_is_an_integrity_error() {
    let a = Session::new(1, 2, 100);
    let b = Session::new(1, 3, 200);
    assert_eq!(select_session(&vec![a, b]), Err(AuthError::IntegrityError));
}

#[test]
fn rows_contain_id_finds_a_matching_row() {
    let rows = vec![String::from("aa"), String::from("bb")];
    assert!(rows_contain_id(&rows, &String::from("bb")));
    assert!(!rows_contain_id(&rows, &String::from("cc")));
    assert!(!rows_contain_id(&Vec::new(), &String::from("aa")));
}

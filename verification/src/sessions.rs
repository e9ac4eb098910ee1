//! The session lifecycle state machine: creation, validation against
//! expiry, renewal, and guest-session construction.
//!
//! Looking a presented reference up is the store's business; everything that
//! is decided about the result happens here. Persisting what comes back is
//! the caller's responsibility.

use vstd::prelude::*;

use crate::idgen::fresh_id;
use crate::models::{Session, SESSION_LIFETIME_SECS, session_wf};

verus! {

/// What a presented session reference turned out to be.
#[derive(Clone, Copy, Debug, PartialEq, Eq, Structural)]
pub enum SessionState {
    /// No session with the presented reference is persisted.
    Unauthenticated,
    /// A session was found and has not yet expired.
    Active,
    /// A session was found and its expiry time has passed.
    Expired,
}

/// What `validate` decides from a lookup result and the current time: a
/// session is valid exactly while `now` is before its expiry time.
pub open spec fn validate_spec(found: Option<Session>, now: u64) -> SessionState {
    match found {
        None => SessionState::Unauthenticated,
        Some(s) => if now < s.expires_at {
            SessionState::Active
        } else {
            SessionState::Expired
        },
    }
}

/// Owns session construction and the expiry rule.
pub struct SessionManager {}

impl SessionManager {
    pub fn new() -> SessionManager {
        SessionManager {}
    }

    /// Creates a session for the given account: a fresh random session
    /// identifier, created now, expiring exactly one lifetime later. Pure
    /// in-memory construction; it always succeeds, and persisting the result
    /// is the caller's business.
    pub fn create_session(&self, user_id: u128, now: u64) -> (s: Session)
        requires
            now + SESSION_LIFETIME_SECS <= u64::MAX,
        ensures
            s.user_id == user_id,
            s.created_at == now,
            s.expires_at == now + SESSION_LIFETIME_SECS,
            session_wf(s),
    {
        let session_id = fresh_id();
        Session::new(session_id, user_id, now)
    }

    /// Creates a session for a brand-new guest: both the account identifier
    /// and the session identifier are drawn fresh at random. The caller must
    /// still confirm the pair absent from the store before persisting it.
    pub fn guest_session(&self, now: u64) -> (s: Session)
        requires
            now + SESSION_LIFETIME_SECS <= u64::MAX,
        ensures
            s.created_at == now,
            s.expires_at == now + SESSION_LIFETIME_SECS,
            session_wf(s),
    {
        let user_id = fresh_id();
        let session_id = fresh_id();
        Session::new(session_id, user_id, now)
    }

    /// Decides what a presented session reference is worth: absent from the
    /// store means unauthenticated, otherwise the expiry time against the
    /// clock decides between active and expired.
    pub fn validate(&self, found: Option<&Session>, now: u64) -> (st: SessionState)
        ensures
            st == validate_spec(match found {
                Some(s) => Some(*s),
                None => None,
            }, now),
    {
        match found {
            None => SessionState::Unauthenticated,
            Some(s) => {
                if now < s.expires_at {
                    SessionState::Active
                } else {
                    SessionState::Expired
                }
            },
        }
    }

    /// Re-issues a session: same identifier, same account, clock reset to
    /// now. Renewal always succeeds, whether the prior state was active or
    /// expired; there is deliberately no cap on indefinite renewal.
    pub fn renew(&self, session: &Session, now: u64) -> (s: Session)
        requires
            now + SESSION_LIFETIME_SECS <= u64::MAX,
        ensures
            s.id == session.id,
            s.user_id == session.user_id,
            s.created_at == now,
            s.expires_at == now + SESSION_LIFETIME_SECS,
            session_wf(s),
    {
        Session::new(session.id, session.user_id, now)
    }
}

/// A found, well-formed session is reported expired exactly when more than
/// one lifetime has passed since it was created. At exactly one lifetime the
/// session counts as expired already, since validity demands that the clock
/// still be strictly before the expiry time.
pub proof fn lemma_validate_expiry_boundary(s: Session, now: u64)
    requires
        session_wf(s),
        s.created_at <= now,
        now - s.created_at != SESSION_LIFETIME_SECS,
    ensures
        validate_spec(Some(s), now) == (if now - s.created_at > SESSION_LIFETIME_SECS {
            SessionState::Expired
        } else {
            SessionState::Active
        }),
{
}

} // verus!

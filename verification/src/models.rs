//! Data model: stored account and session records, and the request-scoped
//! credential values.
//!
//! Identifiers are 128-bit values; the store renders them as text however it
//! likes. A session always expires exactly [`SESSION_LIFETIME_SECS`] seconds
//! after it was created or last renewed.

use vstd::prelude::*;

verus! {

/// How long a session stays valid after creation or renewal, in seconds.
pub const SESSION_LIFETIME_SECS: u64 = 3600;

/// A stored account record.
///
/// `username` holds the deterministic fingerprint of the username, never the
/// plaintext; `password` holds the memory-hard hash of the password in PHC
/// string form; `salt` holds the per-account B64 salt string that the hash
/// was keyed with.
#[derive(Clone, Debug)]
pub struct User {
    pub id: u128,
    pub username: String,
    pub password: String,
    pub active_sessions: i32,
    pub salt: String,
}

impl User {
    pub fn new(id: u128, username: String, password: String, active_sessions: i32, salt: String) -> (u: User)
        ensures
            u.id == id,
            u.username == username,
            u.password == password,
            u.active_sessions == active_sessions,
            u.salt == salt,
    {
        User { id, username, password, active_sessions, salt }
    }

    pub fn get_id(&self) -> (r: u128)
        ensures
            r == self.id,
    {
        self.id
    }

    pub fn get_username(&self) -> (r: &String)
        ensures
            r == self.username,
    {
        &self.username
    }

    pub fn get_password(&self) -> (r: &String)
        ensures
            r == self.password,
    {
        &self.password
    }

    pub fn get_active_sessions(&self) -> (r: i32)
        ensures
            r == self.active_sessions,
    {
        self.active_sessions
    }

    pub fn get_salt(&self) -> (r: &String)
        ensures
            r == self.salt,
    {
        &self.salt
    }
}

/// A stored session record: a time-bounded credential bound to one account.
#[derive(Clone, Copy, Debug, PartialEq, Eq, Structural)]
pub struct Session {
    pub id: u128,
    pub user_id: u128,
    pub created_at: u64,
    pub expires_at: u64,
}

/// A well-formed session expires exactly one lifetime after it was created.
pub open spec fn session_wf(s: Session) -> bool {
    s.expires_at == s.created_at + SESSION_LIFETIME_SECS
}

impl Session {
    pub fn new(session_id: u128, user_id: u128, now: u64) -> (s: Session)
        requires
            now + SESSION_LIFETIME_SECS <= u64::MAX,
        ensures
            s.id == session_id,
            s.user_id == user_id,
            s.created_at == now,
            s.expires_at == now + SESSION_LIFETIME_SECS,
            session_wf(s),
    {
        Session {
            id: session_id,
            user_id,
            created_at: now,
            expires_at: now + SESSION_LIFETIME_SECS,
        }
    }

    pub fn get_id(&self) -> (r: u128)
        ensures
            r == self.id,
    {
        self.id
    }

    pub fn get_user_id(&self) -> (r: u128)
        ensures
            r == self.user_id,
    {
        self.user_id
    }

    pub fn get_created_at(&self) -> (r: u64)
        ensures
            r == self.created_at,
    {
        self.created_at
    }

    pub fn get_expires_at(&self) -> (r: u64)
        ensures
            r == self.expires_at,
    {
        self.expires_at
    }
}

/// Request-scoped credentials sent by a client; plaintext, never persisted.
#[derive(Clone, Debug)]
pub struct Credentials {
    pub username: String,
    pub password: String,
}

/// Body of an authentication request: the credentials it carries.
#[derive(Clone, Debug)]
pub struct MessageBody {
    pub data: Credentials,
}

} // verus!

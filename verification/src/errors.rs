//! Failure taxonomy of the authentication core.

use vstd::prelude::*;

verus! {

/// Every failure the core can report.
///
/// - `ValidationError`: input fails the password policy; user-correctable.
/// - `CredentialMismatch`: authentication failed; deliberately does not say
///   whether the username or the password was wrong.
/// - `IntegrityError`: the store returned ambiguous records (several accounts
///   for one fingerprint, or several sessions for one id).
/// - `SessionIntegrityError`: the presented session is bound to a different
///   account than the one that authenticated; the caller must invalidate the
///   presented session.
/// - `HashError`: the cryptographic backend failed or a salt was malformed.
/// - `PersistenceError`: the store was unavailable or a query failed.
/// - `RetriesExhausted`: identifier generation gave up after the bounded
///   number of collision retries.
#[derive(Clone, Copy, Debug, PartialEq, Eq, Structural)]
pub enum AuthError {
    ValidationError,
    CredentialMismatch,
    IntegrityError,
    SessionIntegrityError,
    HashError,
    PersistenceError,
    RetriesExhausted,
}

impl AuthError {
    /// True exactly for the failure that the client caused and can correct;
    /// everything else is surfaced as a server-side error.
    pub fn is_client_fault(&self) -> (r: bool)
        ensures
            r == (*self == AuthError::ValidationError),
    {
        match self {
            AuthError::ValidationError => true,
            _ => false,
        }
    }
}

} // verus!

//! The three user-facing operations: credential verification, registration,
//! and guest admission.
//!
//! Every function here is a pure decision: the caller fetches whatever the
//! store knows, hands it in as plain values, and persists whatever comes
//! back. Zero matching accounts read as a credential mismatch, never as a
//! hint about which factor failed; more than one match for a fingerprint is
//! an integrity error that is never silently resolved.

use vstd::prelude::*;
use vstd::utf8::encode_utf8;
use vstd::utf8::encode_utf8_decode_utf8;

use crate::errors::AuthError;
use crate::hasher::{Hasher, password_hash_of, salt_b64_of, salt_material, spec_fingerprint};
use crate::idgen::GuestSearch;
use crate::models::{SESSION_LIFETIME_SECS, Session, User, session_wf};
use crate::sessions::SessionManager;

verus! {

// ------------------------------------------------------------------
// Password policy
// ------------------------------------------------------------------

/// The fewest bytes a password may have.
pub const MIN_PASSWORD_BYTES: usize = 8;

pub open spec fn is_ascii_digit_char(c: char) -> bool {
    0x30 <= c as u32 && c as u32 <= 0x39
}

/// ASCII punctuation: the four printable ASCII blocks that are neither
/// letters, digits nor space.
pub open spec fn is_ascii_punct_char(c: char) -> bool {
    ||| (0x21 <= c as u32 && c as u32 <= 0x2f)
    ||| (0x3a <= c as u32 && c as u32 <= 0x40)
    ||| (0x5b <= c as u32 && c as u32 <= 0x60)
    ||| (0x7b <= c as u32 && c as u32 <= 0x7e)
}

pub open spec fn is_ascii_letter_char(c: char) -> bool {
    ||| (0x41 <= c as u32 && c as u32 <= 0x5a)
    ||| (0x61 <= c as u32 && c as u32 <= 0x7a)
}

/// Whether a character counts as alphabetic, as std classifies it: a pure
/// property of the character alone.
pub uninterp spec fn is_alpha_char(c: char) -> bool;

/// Relies on std's `char::is_alphabetic`: a pure classification of the
/// character; within ASCII, exactly the letters are alphabetic.
#[verifier::external_body]
fn char_is_alphabetic(c: char) -> (r: bool)
    ensures
        r == is_alpha_char(c),
        (c as u32) < 128 ==> r == is_ascii_letter_char(c),
{
    c.is_alphabetic()
}

/// The password policy: at least [`MIN_PASSWORD_BYTES`] bytes, and at least
/// one digit, one alphabetic character, and one punctuation character.
pub open spec fn password_valid(p: Seq<char>) -> bool {
    &&& encode_utf8(p).len() >= MIN_PASSWORD_BYTES
    &&& exists|i: int| 0 <= i < p.len() && is_ascii_digit_char(p[i])
    &&& exists|i: int| 0 <= i < p.len() && is_alpha_char(p[i])
    &&& exists|i: int| 0 <= i < p.len() && is_ascii_punct_char(p[i])
}

/// Server-side check that a password meets the policy. This check is
/// authoritative; anything a client checked is advisory only.
pub fn sanitize(password: &String) -> (r: bool)
    ensures
        r == password_valid(password@),
{
    let s = password.as_str();
    let char_count = s.unicode_len();
    let mut has_digit = false;
    let mut has_letter = false;
    let mut has_special_char = false;
    let mut i: usize = 0;
    while i < char_count
        invariant
            char_count == s@.len(),
            s@ == password@,
            i <= char_count,
            has_digit == (exists|j: int| 0 <= j < i && is_ascii_digit_char(s@[j])),
            has_letter == (exists|j: int| 0 <= j < i && is_alpha_char(s@[j])),
            has_special_char == (exists|j: int| 0 <= j < i && is_ascii_punct_char(s@[j])),
        decreases char_count - i,
    {
        let c = s.get_char(i);
        let code = c as u32;
        if 0x30 <= code && code <= 0x39 {
            has_digit = true;
        }
        if char_is_alphabetic(c) {
            has_letter = true;
        }
        if (0x21 <= code && code <= 0x2f) || (0x3a <= code && code <= 0x40) || (0x5b <= code
            && code <= 0x60) || (0x7b <= code && code <= 0x7e) {
            has_special_char = true;
        }
        i += 1;
    }
    let has_length = s.as_bytes().len() >= MIN_PASSWORD_BYTES;
    has_length && has_digit && has_letter && has_special_char
}

// ------------------------------------------------------------------
// Credential verification
// ------------------------------------------------------------------

/// Whether a stored account matches a presented password: its stored hash
/// is exactly the hash of that password under the account's own salt.
pub open spec fn user_matches(u: User, password: Seq<u8>) -> bool {
    u.password@ == password_hash_of(password, u.salt@)
}

/// How many of the accounts match the presented password.
pub open spec fn match_count(users: Seq<User>, password: Seq<u8>) -> nat
    decreases users.len(),
{
    if users.len() == 0 {
        0
    } else {
        match_count(users.drop_last(), password) + (if user_matches(users.last(), password) {
            1nat
        } else {
            0nat
        })
    }
}

/// An account whose stored salt is one that salt derivation can produce:
/// the B64 encoding of 8 to 48 bytes. Hashing against such a salt never
/// fails.
pub open spec fn user_salt_wf(u: User) -> bool {
    exists|bytes: Seq<u8>| 8 <= bytes.len() <= 48 && u.salt@ == salt_b64_of(bytes)
}

/// Compares two strings byte for byte without an early exit on the first
/// difference, so that unequal strings cost the same time wherever they
/// differ.
pub fn ct_eq(a: &String, b: &String) -> (r: bool)
    ensures
        r == (a@ == b@),
{
    proof {
        encode_utf8_decode_utf8(a@);
        encode_utf8_decode_utf8(b@);
    }
    let a_bytes = a.as_str().as_bytes();
    let b_bytes = b.as_str().as_bytes();
    if a_bytes.len() != b_bytes.len() {
        return false;
    }
    let n = a_bytes.len();
    let mut diff: u8 = 0;
    let mut i: usize = 0;
    while i < n
        invariant
            n == a_bytes@.len(),
            n == b_bytes@.len(),
            i <= n,
            (diff == 0) == (forall|j: int| 0 <= j < i ==> a_bytes@[j] == b_bytes@[j]),
        decreases n - i,
    {
        let x = a_bytes[i];
        let y = b_bytes[i];
        proof {
            assert((diff | (x ^ y)) == 0 <==> diff == 0 && x == y) by (bit_vector);
        }
        diff = diff | (x ^ y);
        i += 1;
    }
    if diff == 0 {
        proof {
            assert(a_bytes@ =~= b_bytes@);
        }
        true
    } else {
        false
    }
}

/// What a successful verification decided.
#[derive(Clone, Copy, Debug, PartialEq, Eq, Structural)]
pub enum VerifyOutcome {
    /// The match presented no session: a brand-new session must be created
    /// for this account, confirmed collision-free, and persisted.
    NewSessionNeeded { user_id: u128 },
    /// The presented session belonged to the match and was re-issued with a
    /// reset clock; the caller persists the update.
    Renewed { session: Session },
}

/// Verifies presented credentials against the accounts that share the
/// username's fingerprint, and decides what happens to the session.
///
/// The caller fetches `users` from the store by fingerprint, and looks the
/// presented session reference up beforehand: `presented` is the stored
/// session, or `None` when no reference was presented or none is persisted.
///
/// Exactly one account may match the password. Zero matches are a
/// credential mismatch that deliberately does not say whether the username
/// exists; two or more are an integrity error. A presented session bound to
/// a different account than the match is a session integrity error, and the
/// caller must invalidate that session.
pub fn verify_credentials(
    users: &Vec<User>,
    password: &String,
    presented: Option<&Session>,
    now: u64,
) -> (r: Result<VerifyOutcome, AuthError>)
    requires
        now + SESSION_LIFETIME_SECS <= u64::MAX,
    ensures
        ({
            let pw = encode_utf8(password@);
            let mc = match_count(users@, pw);
            &&& (r is Ok ==> mc == 1)
            &&& (r matches Ok(VerifyOutcome::NewSessionNeeded { user_id }) ==> presented is None
                && exists|k: int|
                0 <= k < users@.len() && user_matches(users@[k], pw) && users@[k].id == user_id)
            &&& (r matches Ok(VerifyOutcome::Renewed { session }) ==> (presented matches Some(p)
                && session.id == p.id && session.user_id == p.user_id && session.created_at == now
                && session_wf(session) && user_matches_id(users@, pw, p.user_id)))
            &&& (r == Err::<VerifyOutcome, AuthError>(AuthError::CredentialMismatch) ==> mc == 0)
            &&& (r == Err::<VerifyOutcome, AuthError>(AuthError::IntegrityError) ==> mc >= 2)
            &&& (r == Err::<VerifyOutcome, AuthError>(AuthError::SessionIntegrityError) ==> mc == 1
                && (presented matches Some(p) && !user_matches_id(users@, pw, p.user_id)))
            &&& (r is Err ==> (r->Err_0 == AuthError::CredentialMismatch || r->Err_0
                == AuthError::IntegrityError || r->Err_0 == AuthError::SessionIntegrityError
                || r->Err_0 == AuthError::HashError))
            &&& ((forall|k: int| 0 <= k < users@.len() ==> user_salt_wf(users@[k])) ==> !(r
                == Err::<VerifyOutcome, AuthError>(AuthError::HashError)))
        }),
{
    let hasher = Hasher::new();
    let n = users.len();
    let mut count: usize = 0;
    let mut matched_idx: usize = 0;
    let mut i: usize = 0;
    proof {
        assert(users@.take(0) =~= Seq::<User>::empty());
    }
    while i < n
        invariant
            n == users@.len(),
            i <= n,
            count == match_count(users@.take(i as int), encode_utf8(password@)),
            count <= i,
            count > 0 ==> matched_idx < i && user_matches(
                users@[matched_idx as int],
                encode_utf8(password@),
            ),
            now + SESSION_LIFETIME_SECS <= u64::MAX,
        decreases n - i,
    {
        let computed = match hasher.hash_password(password, users[i].get_salt()) {
            Ok(hash) => hash,
            Err(_) => {
                proof {
                    assert(!user_salt_wf(users@[i as int]));
                }
                return Err(AuthError::HashError);
            },
        };
        let is_match = ct_eq(&computed, users[i].get_password());
        proof {
            assert(users@.take(i + 1).drop_last() =~= users@.take(i as int));
            assert(users@.take(i + 1).last() == users@[i as int]);
        }
        if is_match {
            count += 1;
            matched_idx = i;
        }
        i += 1;
    }
    proof {
        assert(users@.take(n as int) =~= users@);
    }
    if count == 0 {
        return Err(AuthError::CredentialMismatch);
    }
    if count > 1 {
        return Err(AuthError::IntegrityError);
    }
    let matched_id = users[matched_idx].get_id();
    proof {
        lemma_single_match_id(users@, encode_utf8(password@), matched_idx as int);
    }
    match presented {
        None => Ok(VerifyOutcome::NewSessionNeeded { user_id: matched_id }),
        Some(p) => {
            if p.get_user_id() != matched_id {
                Err(AuthError::SessionIntegrityError)
            } else {
                let manager = SessionManager::new();
                Ok(VerifyOutcome::Renewed { session: manager.renew(p, now) })
            }
        },
    }
}

/// Whether some account in the list matches the password and carries this
/// account identifier.
pub open spec fn user_matches_id(users: Seq<User>, password: Seq<u8>, id: u128) -> bool {
    exists|k: int| 0 <= k < users.len() && user_matches(users[k], password) && users[k].id == id
}

/// When exactly one account matches, the match is the one at any matching
/// index: an identifier matches the list exactly when it is that account's.
proof fn lemma_single_match_id(users: Seq<User>, password: Seq<u8>, idx: int)
    requires
        match_count(users, password) == 1,
        0 <= idx < users.len(),
        user_matches(users[idx], password),
    ensures
        forall|id: u128| user_matches_id(users, password, id) <==> id == users[idx].id,
{
    assert forall|id: u128| user_matches_id(users, password, id) <==> id == users[idx].id by {
        if id == users[idx].id {
            assert(user_matches_id(users, password, id));
        }
        if user_matches_id(users, password, id) {
            let k = choose|k: int|
                0 <= k < users.len() && user_matches(users[k], password) && users[k].id == id;
            if k != idx {
                lemma_two_matches(users, password, k, idx);
            }
        }
    }
}

/// Two distinct matching indices force a match count of at least two.
proof fn lemma_two_matches(users: Seq<User>, password: Seq<u8>, k1: int, k2: int)
    requires
        0 <= k1 < users.len(),
        0 <= k2 < users.len(),
        k1 != k2,
        user_matches(users[k1], password),
        user_matches(users[k2], password),
    ensures
        match_count(users, password) >= 2,
    decreases users.len(),
{
    lemma_match_count_ge_index(users, password, if k1 > k2 {
        k1
    } else {
        k2
    }, if k1 > k2 {
        k2
    } else {
        k1
    });
}

/// A matching index below another matching index yields two counted
/// matches among the first `hi + 1` accounts.
proof fn lemma_match_count_ge_index(users: Seq<User>, password: Seq<u8>, hi: int, lo: int)
    requires
        0 <= lo < hi < users.len(),
        user_matches(users[hi], password),
        user_matches(users[lo], password),
    ensures
        match_count(users, password) >= 2,
    decreases users.len(),
{
    if hi == users.len() - 1 {
        assert(users.drop_last()[lo] == users[lo]);
        lemma_match_count_counts_match(users.drop_last(), password, lo);
    } else {
        assert(users.drop_last()[hi] == users[hi]);
        assert(users.drop_last()[lo] == users[lo]);
        lemma_match_count_ge_index(users.drop_last(), password, hi, lo);
    }
}

/// A single matching index yields at least one counted match.
proof fn lemma_match_count_counts_match(users: Seq<User>, password: Seq<u8>, k: int)
    requires
        0 <= k < users.len(),
        user_matches(users[k], password),
    ensures
        match_count(users, password) >= 1,
    decreases users.len(),
{
    if k < users.len() - 1 {
        assert(users.drop_last()[k] == users[k]);
        lemma_match_count_counts_match(users.drop_last(), password, k);
    }
}

// ------------------------------------------------------------------
// Registration
// ------------------------------------------------------------------

/// A registration that passed the policy and the hashing stage: everything
/// an account needs except its identifier, which must still be drawn and
/// confirmed collision-free against the store.
pub struct PendingRegistration {
    pub username_fingerprint: String,
    pub password_hash: String,
    pub salt: String,
    pub used_salt_fallback: bool,
}

/// Validates and hashes a registration request.
///
/// The password must meet the policy; the username and password together
/// must leave room for the salt encoding, which caps their combined length
/// at 32 bytes. On success the result carries the username's fingerprint,
/// the hash of the password under a freshly derived salt, and the salt
/// itself; the caller assigns a collision-checked identifier with
/// [`finalize_registration`] and persists the account.
pub fn save_credentials(username: &String, password: &String) -> (r: Result<
    PendingRegistration,
    AuthError,
>)
    ensures
        ({
            let combined_len = encode_utf8(username@).len() + encode_utf8(password@).len();
            &&& (r is Ok <==> password_valid(password@) && combined_len <= 32)
            &&& (r == Err::<PendingRegistration, AuthError>(AuthError::ValidationError)
                <==> !password_valid(password@))
            &&& (r is Err ==> (r->Err_0 == AuthError::ValidationError || r->Err_0
                == AuthError::HashError))
            &&& (r is Ok ==> r->Ok_0.username_fingerprint@ == spec_fingerprint(
                encode_utf8(username@),
            ))
            &&& (r is Ok ==> r->Ok_0.password_hash@ == password_hash_of(
                encode_utf8(password@),
                r->Ok_0.salt@,
            ))
            &&& (r is Ok ==> exists|rb: Seq<u8>|
                rb.len() == (if combined_len <= 16 { 16int } else { 8int }) && r->Ok_0.salt@
                    == salt_b64_of(salt_material(username@, password@, rb)))
            &&& (r is Ok ==> r->Ok_0.used_salt_fallback == (combined_len > 16))
        }),
{
    if !sanitize(password) {
        return Err(AuthError::ValidationError);
    }
    let mut hasher = Hasher::new();
    let derived = match hasher.generate_salt_argon2(username, password) {
        Ok(derived) => derived,
        Err(_) => {
            return Err(AuthError::HashError);
        },
    };
    let hashed_username = hasher.hash_username(username);
    proof {
        let combined_len = encode_utf8(username@).len() + encode_utf8(password@).len();
        let rb = choose|rb: Seq<u8>|
            rb.len() == (if combined_len <= 16 { 16int } else { 8int }) && derived.salt@
                == salt_b64_of(salt_material(username@, password@, rb));
        crate::hasher::lemma_hex_lower_len(rb);
        assert(8 <= salt_material(username@, password@, rb).len() <= 48);
    }
    match hasher.hash_password(password, &derived.salt) {
        Ok(hashed_password) => Ok(PendingRegistration {
            username_fingerprint: hashed_username,
            password_hash: hashed_password,
            salt: derived.salt,
            used_salt_fallback: derived.used_fallback,
        }),
        Err(_) => Err(AuthError::HashError),
    }
}

/// Binds a collision-checked identifier to a pending registration. A fresh
/// account starts with no active sessions.
pub fn finalize_registration(pending: PendingRegistration, id: u128) -> (u: User)
    ensures
        u.id == id,
        u.username == pending.username_fingerprint,
        u.password == pending.password_hash,
        u.salt == pending.salt,
        u.active_sessions == 0,
{
    User::new(id, pending.username_fingerprint, pending.password_hash, 0, pending.salt)
}

// ------------------------------------------------------------------
// Guest admission
// ------------------------------------------------------------------

/// Turns a finished guest identifier search into the outgoing guest
/// session.
///
/// Admission policy: a previously presented guest reference is never
/// reused; every admission binds a freshly drawn pair whose members the
/// store confirmed absent. The search the caller ran embodies exactly that
/// confirmation, and an exhausted search is a distinct failure rather than
/// an unbounded retry.
pub fn guest_credentials(search: &GuestSearch, now: u64) -> (r: Result<Session, AuthError>)
    requires
        !(search is Searching),
        now + SESSION_LIFETIME_SECS <= u64::MAX,
    ensures
        (*search) matches GuestSearch::Found { user_id, session_id } ==> r == Ok::<
            Session,
            AuthError,
        >(
            (Session {
                id: session_id,
                user_id: user_id,
                created_at: now,
                expires_at: (now + SESSION_LIFETIME_SECS) as u64,
            }),
        ),
        search is Exhausted ==> r == Err::<Session, AuthError>(AuthError::RetriesExhausted),
{
    match search {
        GuestSearch::Found { user_id, session_id } => Ok(Session::new(*session_id, *user_id, now)),
        _ => Err(AuthError::RetriesExhausted),
    }
}

} // verus!

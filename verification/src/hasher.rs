//! Stateless cryptographic primitives: deterministic username
//! fingerprinting, randomized salt derivation, and memory-hard password
//! hashing.
//!
//! The digest and the key-derivation function come from outside
//! cryptographic crates; what each call returns is named or stated in the
//! contract of a small trusted wrapper, and everything around the calls is
//! verified against those contracts.

use vstd::prelude::*;
use vstd::utf8::encode_utf8;

use crate::errors::AuthError;

verus! {

/// The SHA-256 digest of a byte sequence, as sha2 computes it: a pure
/// function of the input alone.
pub uninterp spec fn sha256_of(bytes: Seq<u8>) -> Seq<u8>;

/// The B64 salt string that encoding a byte sequence yields, as
/// password-hash's salt encoding computes it: a pure function of the input
/// alone.
pub uninterp spec fn salt_b64_of(bytes: Seq<u8>) -> Seq<char>;

/// The PHC hash string that the memory-hard key-derivation function yields
/// for a password and a B64 salt string, with default cost parameters: a
/// pure function of password and salt alone.
pub uninterp spec fn password_hash_of(password: Seq<u8>, salt: Seq<char>) -> Seq<char>;

/// Relies on sha2's `Sha256`: the digest depends on the input bytes alone
/// and is 32 bytes long.
#[verifier::external_body]
fn sha256_digest(data: &[u8]) -> (r: Vec<u8>)
    ensures
        r@ == sha256_of(data@),
        r@.len() == 32,
{
    <sha2::Sha256 as sha2::Digest>::digest(data).to_vec()
}

/// Relies on hex's `encode`: each input byte becomes its two lowercase hex
/// digits, most significant first.
#[verifier::external_body]
fn hex_encode_bytes(data: &Vec<u8>) -> (r: Vec<u8>)
    ensures
        r@ == hex_lower_bytes_of(data@),
{
    hex::encode(data).into_bytes()
}

/// Relies on rand's thread-local generator: 16 uniformly random bytes.
/// Nothing is promised of the values; two calls may return anything.
#[verifier::external_body]
fn random_bytes_16() -> (r: Vec<u8>)
    ensures
        r@.len() == 16,
{
    let bytes: [u8; 16] = rand::Rng::gen(&mut rand::thread_rng());
    bytes.to_vec()
}

/// Relies on password-hash's `SaltString::encode_b64` (reached through
/// argon2): B64-encodes the input into a salt string of at most 64
/// characters, which fits exactly when the input is at most 48 bytes.
#[verifier::external_body]
fn salt_encode_b64(data: &Vec<u8>) -> (r: Option<String>)
    ensures
        r is Some <==> data@.len() <= 48,
        r is Some ==> r->0@ == salt_b64_of(data@),
{
    match argon2::password_hash::SaltString::encode_b64(data) {
        Ok(salt) => Some(salt.as_str().to_owned()),
        Err(_) => None,
    }
}

/// Relies on argon2's `Argon2::hash_password` with default parameters, and
/// on password-hash's `SaltString::from_b64`. The PHC string returned is a
/// function of password and salt alone, and embeds the salt string verbatim
/// between separators, so hashing under distinct salts always yields
/// distinct strings. A salt string that came out of B64-encoding 8 to 48
/// bytes re-parses and decodes to at least the 8 bytes argon2 demands, and
/// hashing with it never fails.
#[verifier::external_body]
fn argon2_hash_password(password: &[u8], salt: &String) -> (r: Option<String>)
    ensures
        r is Some ==> r->0@ == password_hash_of(password@, salt@),
        r is Some ==> forall|other: Seq<char>|
            other != salt@ ==> r->0@ != password_hash_of(password@, other),
        (exists|bytes: Seq<u8>| 8 <= bytes.len() <= 48 && salt@ == salt_b64_of(bytes)) ==> r is Some,
{
    let parsed = match argon2::password_hash::SaltString::from_b64(salt) {
        Ok(parsed) => parsed,
        Err(_) => return None,
    };
    match argon2::PasswordHasher::hash_password(&argon2::Argon2::default(), password, &parsed) {
        Ok(hash) => Some(hash.to_string()),
        Err(_) => None,
    }
}

/// Relies on std's `String::from_utf8`: bytes below 128 are valid UTF-8 and
/// decode to exactly their characters.
#[verifier::external_body]
fn ascii_string_of(bytes: &Vec<u8>) -> (r: String)
    requires
        forall|i: int| 0 <= i < bytes@.len() ==> bytes@[i] < 128,
    ensures
        r@ == ascii_chars_of(bytes@),
{
    String::from_utf8(bytes.clone()).expect("bytes below 128 are valid UTF-8")
}

/// The characters that a sequence of ASCII bytes spells.
pub open spec fn ascii_chars_of(bytes: Seq<u8>) -> Seq<char> {
    bytes.map(|_i: int, b: u8| ((b as u32) as char))
}

/// The ASCII byte of the lowercase hex digit for a value below 16.
pub open spec fn hex_lower_digit(n: u8) -> u8 {
    if n < 10 {
        (0x30 + n) as u8
    } else {
        (0x57 + n) as u8
    }
}

/// The ASCII byte of the uppercase hex digit for a value below 16.
pub open spec fn hex_upper_digit(n: u8) -> u8 {
    if n < 10 {
        (0x30 + n) as u8
    } else {
        (0x37 + n) as u8
    }
}

/// Lowercase hex encoding of a byte sequence, as ASCII bytes: each byte
/// becomes two digits, most significant first.
pub open spec fn hex_lower_bytes_of(bytes: Seq<u8>) -> Seq<u8>
    decreases bytes.len(),
{
    if bytes.len() == 0 {
        Seq::empty()
    } else {
        hex_lower_bytes_of(bytes.drop_last()) + seq![
            hex_lower_digit(bytes.last() / 16),
            hex_lower_digit(bytes.last() % 16),
        ]
    }
}

/// Uppercase hex encoding of a byte sequence, as ASCII bytes: each byte
/// becomes two digits, most significant first.
pub open spec fn hex_upper_bytes_of(bytes: Seq<u8>) -> Seq<u8>
    decreases bytes.len(),
{
    if bytes.len() == 0 {
        Seq::empty()
    } else {
        hex_upper_bytes_of(bytes.drop_last()) + seq![
            hex_upper_digit(bytes.last() / 16),
            hex_upper_digit(bytes.last() % 16),
        ]
    }
}

/// Hex encoding doubles the length.
pub proof fn lemma_hex_lower_len(bytes: Seq<u8>)
    ensures
        hex_lower_bytes_of(bytes).len() == 2 * bytes.len(),
    decreases bytes.len(),
{
    if bytes.len() > 0 {
        lemma_hex_lower_len(bytes.drop_last());
    }
}

/// Hex encoding doubles the length.
pub proof fn lemma_hex_upper_len(bytes: Seq<u8>)
    ensures
        hex_upper_bytes_of(bytes).len() == 2 * bytes.len(),
    decreases bytes.len(),
{
    if bytes.len() > 0 {
        lemma_hex_upper_len(bytes.drop_last());
    }
}

/// Uppercase hex of a byte vector, built digit pair by digit pair.
fn to_hex_upper(data: &Vec<u8>) -> (r: String)
    ensures
        r@ == ascii_chars_of(hex_upper_bytes_of(data@)),
        r@.len() == 2 * data@.len(),
{
    let mut out: Vec<u8> = Vec::new();
    let n = data.len();
    let mut i: usize = 0;
    proof {
        assert(data@.take(0) =~= Seq::<u8>::empty());
    }
    while i < n
        invariant
            n == data@.len(),
            i <= n,
            out@ == hex_upper_bytes_of(data@.take(i as int)),
            forall|j: int| 0 <= j < out@.len() ==> out@[j] < 128,
        decreases n - i,
    {
        let b = data[i];
        let hi = b / 16;
        let lo = b % 16;
        let hi_digit = if hi < 10 {
            0x30 + hi
        } else {
            0x37 + hi
        };
        let lo_digit = if lo < 10 {
            0x30 + lo
        } else {
            0x37 + lo
        };
        out.push(hi_digit);
        out.push(lo_digit);
        proof {
            assert(data@.take(i + 1).drop_last() =~= data@.take(i as int));
            assert(data@.take(i + 1).last() == data@[i as int]);
            assert(out@ =~= hex_upper_bytes_of(data@.take(i + 1)));
        }
        i += 1;
    }
    proof {
        assert(data@.take(n as int) =~= data@);
        lemma_hex_upper_len(data@);
    }
    ascii_string_of(&out)
}

/// The fingerprint of a byte sequence: the uppercase hex spelling of its
/// SHA-256 digest.
pub open spec fn spec_fingerprint(data: Seq<u8>) -> Seq<char> {
    ascii_chars_of(hex_upper_bytes_of(sha256_of(data)))
}

/// Fingerprinting is deterministic: equal inputs always yield equal
/// fingerprints, which is what lets the fingerprint serve as a lookup key
/// without storing the plaintext username.
pub proof fn lemma_fingerprint_deterministic(u1: Seq<u8>, u2: Seq<u8>)
    requires
        u1 == u2,
    ensures
        spec_fingerprint(u1) == spec_fingerprint(u2),
{
}

/// The byte material a salt is derived from: the username, the password,
/// and the lowercase hex spelling of the random bytes drawn for this salt.
pub open spec fn salt_material(username: Seq<char>, password: Seq<char>, random: Seq<u8>) -> Seq<
    u8,
> {
    encode_utf8(username) + encode_utf8(password) + hex_lower_bytes_of(random)
}

/// A salt derivation that succeeded: the B64 salt string, and whether the
/// shorter fallback amount of random material had to be used to fit the
/// salt encoding. A used fallback is worth reporting even though the
/// derivation succeeded.
pub struct DerivedSalt {
    pub salt: String,
    pub used_fallback: bool,
}

/// Object that implements the hashing primitives.
pub struct Hasher {}

impl Hasher {
    pub fn new() -> Hasher {
        Hasher {}
    }

    /// Deterministic one-way fingerprint of a username: the uppercase hex
    /// of the SHA-256 digest of its raw bytes. Purely a lookup key; no salt,
    /// and no confidentiality guarantee of its own.
    pub fn hash_username(&self, username: &String) -> (r: String)
        ensures
            r@ == spec_fingerprint(encode_utf8(username@)),
            r@.len() == 64,
    {
        let digest = sha256_digest(username.as_str().as_bytes());
        to_hex_upper(&digest)
    }

    /// Derives a fresh salt from the username, the password, and 16 random
    /// bytes. If that material does not fit the salt encoding, it retries
    /// once with 8 random bytes before giving up; the retry is reported in
    /// the result so that the caller can observe the failure path. A new
    /// salt comes out of every call, even for identical inputs.
    pub fn generate_salt_argon2(&mut self, username: &String, password: &String) -> (r: Result<
        DerivedSalt,
        AuthError,
    >)
        ensures
            ({
                let material_len = encode_utf8(username@).len() + encode_utf8(password@).len();
                &&& (r is Ok <==> material_len <= 32)
                &&& (r is Err ==> r->Err_0 == AuthError::HashError)
                &&& (r is Ok ==> r->Ok_0.used_fallback == (material_len > 16))
                &&& (r is Ok ==> exists|rb: Seq<u8>|
                    rb.len() == (if material_len <= 16 { 16int } else { 8int })
                        && r->Ok_0.salt@ == salt_b64_of(
                        salt_material(username@, password@, rb),
                    ))
            }),
    {
        let random = random_bytes_16();
        let encoded = hex_encode_bytes(&random);
        proof {
            lemma_hex_lower_len(random@);
        }
        let mut material: Vec<u8> = Vec::new();
        material.extend_from_slice(username.as_str().as_bytes());
        material.extend_from_slice(password.as_str().as_bytes());
        material.extend_from_slice(encoded.as_slice());
        assert(material@ =~= salt_material(username@, password@, random@));
        match salt_encode_b64(&material) {
            Some(salt) => Ok(DerivedSalt { salt, used_fallback: false }),
            None => {
                let fallback_random_full = random_bytes_16();
                let mut fallback_random = fallback_random_full;
                fallback_random.truncate(8);
                let fallback_encoded = hex_encode_bytes(&fallback_random);
                proof {
                    lemma_hex_lower_len(fallback_random@);
                }
                let mut fallback_material: Vec<u8> = Vec::new();
                fallback_material.extend_from_slice(username.as_str().as_bytes());
                fallback_material.extend_from_slice(password.as_str().as_bytes());
                fallback_material.extend_from_slice(fallback_encoded.as_slice());
                assert(fallback_material@ =~= salt_material(
                    username@,
                    password@,
                    fallback_random@,
                ));
                match salt_encode_b64(&fallback_material) {
                    Some(salt) => Ok(DerivedSalt { salt, used_fallback: true }),
                    None => Err(AuthError::HashError),
                }
            },
        }
    }

    /// Memory-hard hash of the password under the given B64 salt string,
    /// with default cost parameters, as a PHC string. Deterministic for a
    /// fixed password and salt; distinct salts always yield distinct hash
    /// strings; and a salt that [`Self::generate_salt_argon2`] produced is
    /// never rejected.
    pub fn hash_password(&self, password: &String, salt: &String) -> (r: Result<String, AuthError>)
        ensures
            r is Ok ==> r->Ok_0@ == password_hash_of(encode_utf8(password@), salt@),
            r is Ok ==> forall|other: Seq<char>|
                other != salt@ ==> r->Ok_0@ != password_hash_of(encode_utf8(password@), other),
            (exists|bytes: Seq<u8>| 8 <= bytes.len() <= 48 && salt@ == salt_b64_of(bytes)) ==> r
                is Ok,
            r is Err ==> r->Err_0 == AuthError::HashError,
    {
        match argon2_hash_password(password.as_str().as_bytes(), salt) {
            Some(hash) => Ok(hash),
            None => Err(AuthError::HashError),
        }
    }
}

} // verus!

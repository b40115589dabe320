//! The credential verifier: checks an email and a plaintext password against
//! the stored record of the account, with Argon2.
//!
//! The check is linear: look the record up, verify the password against the
//! stored hash (or, where there is no record, against a fixed dummy hash, so
//! that an unknown email costs what a wrong password costs), then decide.
//! The look-up itself is the caller's: it hands in what it found.

use argon2::password_hash::{Error, PasswordHash, PasswordHasher, PasswordVerifier, SaltString};
use argon2::{Algorithm, Argon2, Params, Version};
use vstd::prelude::*;

verus! {

/// Memory cost of a new hash, in KiB.
pub const MEMORY_COST: u32 = 15000;

/// Number of passes of a new hash.
pub const ITERATIONS: u32 = 2;

/// Degree of parallelism of a new hash.
pub const PARALLELISM: u32 = 1;

/// The cause behind a failed authentication. It is for the log; the client
/// never sees it.
#[derive(Clone, Copy, Debug, PartialEq, Eq, Structural)]
pub enum AuthCause {
    /// No account has the presented email.
    UnknownUsername,
    /// The password does not verify against the stored hash.
    InvalidPassword,
    /// The stored hash is no PHC string.
    MalformedHash,
    /// The stored hash names an algorithm, a version or costs with which
    /// no verification can be made.
    VerificationFailed,
    /// The stored credentials could not be read.
    LookupFailed,
    /// The verification could not be run off the request's thread.
    TaskFailed,
}

/// Why an authentication did not succeed.
#[derive(Clone, Copy, Debug, PartialEq, Eq, Structural)]
pub enum AuthError {
    /// The credentials are wrong. Never retried.
    InvalidCredentials(AuthCause),
    /// The check could not be carried out; it says nothing of the
    /// credentials.
    UnexpectedError(AuthCause),
}

impl AuthError {
    /// Whether the same request may be tried again. Refused credentials
    /// stay refused; a check that could not be carried out may succeed the
    /// next time.
    pub fn may_be_retried(&self) -> (retry: bool)
        ensures
            retry == (*self is UnexpectedError),
    {
        match self {
            AuthError::InvalidCredentials(_) => false,
            AuthError::UnexpectedError(_) => true,
        }
    }
}

/// An email and a plaintext password, as presented for one login or one
/// change of password. Both are borrowed: the library keeps no copy of a
/// password. It has no `Debug`: a password is never printed.
#[derive(Clone, Copy)]
pub struct Credentials<'a> {
    pub email: &'a str,
    pub password: &'a str,
}

/// The row of an account as the store holds it: the administrator flag may
/// be absent.
#[derive(Clone, Debug, PartialEq, Eq)]
pub struct CredentialsRow {
    pub id: u128,
    pub password_hash: String,
    pub is_admin: Option<bool>,
}

/// The stored credentials of an account, with an absent administrator flag
/// read as `false`.
#[derive(Clone, Debug, PartialEq, Eq)]
pub struct StoredCredentials {
    pub user_id: u128,
    pub password_hash: String,
    pub is_admin: bool,
}

/// The store could not be read.
#[derive(Clone, Copy, Debug, PartialEq, Eq, Structural)]
pub struct LookupFailed;

/// A password could not be hashed.
#[derive(Clone, Copy, Debug, PartialEq, Eq, Structural)]
pub struct HashingFailed;

/// How a password fares against a stored hash.
#[derive(Clone, Copy, Debug, PartialEq, Eq, Structural)]
pub enum HashCheck {
    /// The stored hash is no PHC string.
    Malformed,
    /// The hash parses, and the verification could not be carried out with
    /// what it holds.
    Unverifiable,
    /// The verification was carried out, and the password is not the one
    /// that the hash was made from.
    Mismatch,
    /// The password verifies.
    Match,
}

/// How a candidate password fares against a hash in PHC string format, by
/// the `password-hash` parser and Argon2's verification.
pub uninterp spec fn argon2_check(expected_hash: Seq<char>, candidate: Seq<char>) -> HashCheck;

/// The PHC string of the Argon2id hash (version 0x13) of a password under a
/// salt and the three costs; `None` where Argon2 refuses them.
pub uninterp spec fn argon2id_phc(
    password: Seq<char>,
    salt: Seq<char>,
    m_cost: u32,
    t_cost: u32,
    p_cost: u32,
) -> Option<Seq<char>>;

/// The text of an optional string.
pub open spec fn hash_text(hash: Option<String>) -> Option<Seq<char>> {
    match hash {
        Some(h) => Some(h@),
        None => None,
    }
}

/// Calls `PasswordHash::new` on the expected hash and then
/// `Argon2::default().verify_password` with the candidate's bytes.
///
/// Trusted: the outcome is the value named `argon2_check` of the two texts.
/// Both calls read their arguments alone: the verifier takes algorithm,
/// version, costs and salt from the hash itself. Any parse error is
/// `Malformed`; of the verification errors, `Error::Password` is
/// `Mismatch` and every other `Unverifiable`. The memory used is what the
/// hash's own parameters ask for.
#[verifier::external_body]
fn check_password_hash(expected_hash: &str, candidate: &str) -> (check: HashCheck)
    ensures
        check == argon2_check(expected_hash@, candidate@),
{
    match PasswordHash::new(expected_hash) {
        Err(_) => HashCheck::Malformed,
        Ok(parsed) => match Argon2::default().verify_password(candidate.as_bytes(), &parsed) {
            Ok(()) => HashCheck::Match,
            Err(Error::Password) => HashCheck::Mismatch,
            Err(_) => HashCheck::Unverifiable,
        },
    }
}

/// Calls `SaltString::generate` with `rand::thread_rng()`.
///
/// Trusted, and nothing is claimed of the salt: it is random.
#[verifier::external_body]
fn generate_salt() -> (salt: String) {
    SaltString::generate(&mut rand::thread_rng()).as_str().to_owned()
}

/// Calls `Params::new`, `Argon2::new` for Argon2id at version 0x13, and
/// `hash_password`, and writes the hash out as a PHC string.
///
/// Trusted: the result is the value named `argon2id_phc` of the arguments,
/// `None` on any error; and a hash that was produced verifies for the
/// password it was made from, since verification recomputes the hash from
/// the algorithm, version, costs and salt that the PHC string records.
#[verifier::external_body]
fn argon2id_hash(password: &str, salt: &str, m_cost: u32, t_cost: u32, p_cost: u32) -> (hashed:
    Option<String>)
    ensures
        hash_text(hashed) == argon2id_phc(password@, salt@, m_cost, t_cost, p_cost),
        hashed matches Some(h) ==> argon2_check(h@, password@) == HashCheck::Match,
{
    let params = Params::new(m_cost, t_cost, p_cost, None).ok()?;
    let hasher = Argon2::new(Algorithm::Argon2id, Version::V0x13, params);
    match hasher.hash_password(password.as_bytes(), salt) {
        Ok(hash) => Some(hash.to_string()),
        Err(_) => None,
    }
}

/// The hash that stands in where no account has the presented email: a
/// well-formed Argon2id hash of a password that nobody knows.
pub open spec fn dummy_hash_text() -> Seq<char> {
    "$argon2id$v=19$m=15000,t=2,p=1$gZiV/M1gPc22ElAH/Jh1Hw$CWOrkoo7oJBQ/iyh7uJ0LO2aLEfrHwTWllSAxT0zRno"@
}

/// The hash that a password is verified against: the stored one, or the
/// dummy where there is no record.
pub open spec fn expected_hash_text(stored: Option<StoredCredentials>) -> Seq<char> {
    match stored {
        Some(record) => record.password_hash@,
        None => dummy_hash_text(),
    }
}

/// What a check of the password alone amounts to.
pub open spec fn password_verdict(check: HashCheck) -> Result<(), AuthError> {
    match check {
        HashCheck::Malformed => Err(AuthError::UnexpectedError(AuthCause::MalformedHash)),
        HashCheck::Unverifiable => Err(AuthError::UnexpectedError(AuthCause::VerificationFailed)),
        HashCheck::Mismatch => Err(AuthError::InvalidCredentials(AuthCause::InvalidPassword)),
        HashCheck::Match => Ok(()),
    }
}

/// The decision, once the password was checked: a password that failed the
/// check fails the authentication; one that passed it authenticates the
/// account of the record, and nobody where there is no record.
pub open spec fn credentials_verdict(stored: Option<StoredCredentials>, checked: Result<(), AuthError>)
    -> Result<(u128, bool), AuthError> {
    match checked {
        Err(e) => Err(e),
        Ok(_) => match stored {
            Some(record) => Ok((record.user_id, record.is_admin)),
            None => Err(AuthError::InvalidCredentials(AuthCause::UnknownUsername)),
        },
    }
}

/// The whole verification of a password against what the look-up found.
pub open spec fn validation(
    password: Seq<char>,
    lookup: Result<Option<StoredCredentials>, LookupFailed>,
) -> Result<(u128, bool), AuthError> {
    match lookup {
        Err(_) => Err(AuthError::UnexpectedError(AuthCause::LookupFailed)),
        Ok(stored) => credentials_verdict(
            stored,
            password_verdict(argon2_check(expected_hash_text(stored), password)),
        ),
    }
}

/// The stored credentials that a fetched row stands for.
pub open spec fn credentials_of_row(row: CredentialsRow) -> StoredCredentials {
    StoredCredentials {
        user_id: row.id,
        password_hash: row.password_hash,
        is_admin: match row.is_admin {
            Some(flag) => flag,
            None => false,
        },
    }
}

/// Turns what the query for an email fetched into stored credentials. An
/// absent administrator flag is `false`, never an error.
pub fn get_stored_credentials(fetched: Result<Option<CredentialsRow>, LookupFailed>) -> (r: Result<
    Option<StoredCredentials>,
    LookupFailed,
>)
    ensures
        r == (match fetched {
            Err(e) => Err(e),
            Ok(None) => Ok(None),
            Ok(Some(row)) => Ok(Some(credentials_of_row(row))),
        }),
{
    match fetched {
        Err(e) => Err(e),
        Ok(None) => Ok(None),
        Ok(Some(row)) => {
            let is_admin = match row.is_admin {
                Some(flag) => flag,
                None => false,
            };
            Ok(Some(StoredCredentials { user_id: row.id, password_hash: row.password_hash, is_admin }))
        },
    }
}

/// The dummy hash.
pub fn dummy_hash() -> (hash: &'static str)
    ensures
        hash@ == dummy_hash_text(),
{
    "$argon2id$v=19$m=15000,t=2,p=1$gZiV/M1gPc22ElAH/Jh1Hw$CWOrkoo7oJBQ/iyh7uJ0LO2aLEfrHwTWllSAxT0zRno"
}

/// Picks the hash to verify against. There is always one: the verification
/// runs whether or not the account exists.
pub fn expected_password_hash<'a>(stored: &'a Option<StoredCredentials>) -> (hash: &'a str)
    ensures
        hash@ == expected_hash_text(*stored),
{
    match stored {
        Some(record) => record.password_hash.as_str(),
        None => dummy_hash(),
    }
}

/// Says what an Argon2 check of the password amounts to: a hash that does
/// not parse, or that cannot be verified against, is an unexpected error;
/// a password that does not verify is invalid credentials.
pub fn password_outcome(check: HashCheck) -> (r: Result<(), AuthError>)
    ensures
        r == password_verdict(check),
{
    match check {
        HashCheck::Malformed => Err(AuthError::UnexpectedError(AuthCause::MalformedHash)),
        HashCheck::Unverifiable => Err(AuthError::UnexpectedError(AuthCause::VerificationFailed)),
        HashCheck::Mismatch => Err(AuthError::InvalidCredentials(AuthCause::InvalidPassword)),
        HashCheck::Match => Ok(()),
    }
}

/// Verifies a candidate password against a hash in PHC string format. This
/// is the slow, memory-hard step: a server runs it off its request threads.
pub fn verify_password_hash(expected_password_hash: &str, password_candidate: &str) -> (r: Result<
    (),
    AuthError,
>)
    ensures
        r == password_verdict(argon2_check(expected_password_hash@, password_candidate@)),
{
    password_outcome(check_password_hash(expected_password_hash, password_candidate))
}

/// Decides on the authentication once the password was checked.
pub fn conclude(stored: &Option<StoredCredentials>, checked: Result<(), AuthError>) -> (r: Result<
    (u128, bool),
    AuthError,
>)
    ensures
        r == credentials_verdict(*stored, checked),
{
    match checked {
        Err(e) => Err(e),
        Ok(_) => match stored {
            Some(record) => Ok((record.user_id, record.is_admin)),
            None => Err(AuthError::InvalidCredentials(AuthCause::UnknownUsername)),
        },
    }
}

/// Validates credentials against what the look-up of their email found, and
/// returns the account's identifier and administrator flag.
///
/// A failed look-up is an unexpected error. Otherwise the password is
/// verified, against the dummy hash where no account was found, and only
/// then is the account's absence turned into invalid credentials.
pub fn validate_credentials(
    credentials: &Credentials<'_>,
    lookup: Result<Option<StoredCredentials>, LookupFailed>,
) -> (r: Result<(u128, bool), AuthError>)
    ensures
        r == validation(credentials.password@, lookup),
{
    let stored = match lookup {
        Ok(stored) => stored,
        Err(_) => {
            return Err(AuthError::UnexpectedError(AuthCause::LookupFailed));
        },
    };
    let checked = verify_password_hash(expected_password_hash(&stored), credentials.password);
    conclude(&stored, checked)
}

/// Says what a hashing attempt amounts to.
pub fn hash_outcome(hashed: Option<String>) -> (r: Result<String, HashingFailed>)
    ensures
        r == (match hashed {
            Some(hash) => Ok::<String, HashingFailed>(hash),
            None => Err(HashingFailed),
        }),
{
    match hashed {
        Some(hash) => Ok(hash),
        None => Err(HashingFailed),
    }
}

/// Hashes a password for storage, as Argon2id with a fresh random salt and
/// the fixed costs of this library.
///
/// Whatever salt was drawn, a hash that comes back verifies for the password
/// it was made from.
pub fn compute_password_hash(password: &str) -> (r: Result<String, HashingFailed>)
    ensures
        exists|salt: Seq<char>|
            hash_text(r.ok()) == #[trigger] argon2id_phc(
                password@,
                salt,
                MEMORY_COST,
                ITERATIONS,
                PARALLELISM,
            ),
        r matches Ok(hash) ==> argon2_check(hash@, password@) == HashCheck::Match,
{
    let salt = generate_salt();
    let hashed = argon2id_hash(password, salt.as_str(), MEMORY_COST, ITERATIONS, PARALLELISM);
    assert(hash_text(hashed) == argon2id_phc(
        password@,
        salt@,
        MEMORY_COST,
        ITERATIONS,
        PARALLELISM,
    ));
    hash_outcome(hashed)
}

} // verus!

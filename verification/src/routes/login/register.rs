//! The registration route: a new account from an email and a password.

use vstd::prelude::*;
use crate::authentication::password::{
    argon2_check, argon2id_phc, compute_password_hash, hash_text, HashCheck, HashingFailed,
    ITERATIONS, MEMORY_COST, PARALLELISM,
};
use crate::utils::{e500, Cause, HttpError, StorageFailed, INTERNAL_SERVER_ERROR};

verus! {

/// An account that is ready to be stored. The password is there as its
/// hash alone.
#[derive(Clone, Debug, PartialEq, Eq)]
pub struct NewUser {
    pub user_id: u128,
    pub email: String,
    pub password_hash: String,
    pub is_admin: bool,
}

/// Calls `uuid::Uuid::new_v4` and `Uuid::as_u128`.
///
/// Trusted, and nothing is claimed of the identifier: it is random.
#[verifier::external_body]
fn new_user_id() -> (id: u128) {
    uuid::Uuid::new_v4().as_u128()
}

/// Whether the outcome of a registration is the one that a hashing attempt
/// calls for: a hash makes an account that is no administrator, a failure
/// is a 500.
pub open spec fn registration_follows(
    r: Result<NewUser, HttpError>,
    email: Seq<char>,
    hashed: Option<Seq<char>>,
) -> bool {
    match hashed {
        Some(hash) => r matches Ok(user) && user.email@ == email && user.password_hash@ == hash
            && !user.is_admin,
        None => r == Err::<NewUser, HttpError>(
            HttpError { status: INTERNAL_SERVER_ERROR, cause: Cause::HashingFailed },
        ),
    }
}

/// What the route answers once the store was asked to keep the account: the
/// new identifier, or a 500.
pub open spec fn registration_verdict(user_id: u128, inserted: Result<(), StorageFailed>) -> Result<
    u128,
    HttpError,
> {
    match inserted {
        Ok(_) => Ok(user_id),
        Err(_) => Err(HttpError { status: INTERNAL_SERVER_ERROR, cause: Cause::StorageFailed }),
    }
}

/// Makes the account that is to be saved: a fresh random identifier, the
/// email and the hash as given, and no administrator rights.
pub fn insert_user(email: String, password_hash: String) -> (user: NewUser)
    ensures
        user.email == email,
        user.password_hash == password_hash,
        !user.is_admin,
{
    NewUser { user_id: new_user_id(), email, password_hash, is_admin: false }
}

/// Makes the account for an email, given how the hashing of its password
/// went: with a hash there is an account to store, without one the answer is
/// a 500.
pub fn new_account(email: &str, hashed: Result<String, HashingFailed>) -> (r: Result<
    NewUser,
    HttpError,
>)
    ensures
        registration_follows(r, email@, hash_text(hashed.ok())),
{
    match hashed {
        Ok(password_hash) => Ok(insert_user(email.to_owned(), password_hash)),
        Err(_) => Err(e500(Cause::HashingFailed)),
    }
}

/// Prepares the registration of an email and a password: hashes the
/// password and makes the account to store. The plaintext goes no further.
pub fn register(email: &str, password: &str) -> (r: Result<NewUser, HttpError>)
    ensures
        exists|salt: Seq<char>|
            registration_follows(
                r,
                email@,
                #[trigger] argon2id_phc(password@, salt, MEMORY_COST, ITERATIONS, PARALLELISM),
            ),
        r matches Ok(user) ==> argon2_check(user.password_hash@, password@) == HashCheck::Match,
{
    let hashed = compute_password_hash(password);
    let ghost witness = choose|salt: Seq<char>|
        hash_text(hashed.ok()) == #[trigger] argon2id_phc(
            password@,
            salt,
            MEMORY_COST,
            ITERATIONS,
            PARALLELISM,
        );
    let r = new_account(email, hashed);
    assert(registration_follows(
        r,
        email@,
        argon2id_phc(password@, witness, MEMORY_COST, ITERATIONS, PARALLELISM),
    ));
    r
}

/// Says what the route answers once the store was asked to keep the
/// account.
pub fn registered(user_id: u128, inserted: Result<(), StorageFailed>) -> (r: Result<u128, HttpError>)
    ensures
        r == registration_verdict(user_id, inserted),
{
    match inserted {
        Ok(_) => Ok(user_id),
        Err(_) => Err(e500(Cause::StorageFailed)),
    }
}

} // verus!

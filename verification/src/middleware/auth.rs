//! The secret comparator: decides whether a presented bearer token grants
//! access to the API at all.

use vstd::prelude::*;
use crate::utils::{same_text, text_of, Cause, HttpError, UNAUTHORIZED};

verus! {

/// The secrets that the process was configured with at start: the key of the
/// API proper and the key of the public route group. It has no `Debug`: a
/// secret is never printed.
#[derive(Clone)]
pub struct BearerSecrets {
    pub api_key: String,
    pub public_key: String,
}

/// The one outcome of every failed comparison. It says nothing of why the
/// token was refused.
#[derive(Clone, Copy, Debug, PartialEq, Eq, Structural)]
pub struct Unauthenticated;

impl Unauthenticated {
    /// The text that stands for the failure in a log.
    pub fn message(&self) -> (text: &'static str)
        ensures
            text@ == "Authenication failed."@,
    {
        "Authenication failed."
    }
}

/// What the comparator answers for a token against one secret.
pub open spec fn token_verdict(token: Seq<char>, secret: Seq<char>) -> Result<bool, Unauthenticated> {
    if token == secret {
        Ok(true)
    } else {
        Err(Unauthenticated)
    }
}

/// What the API-key guard answers: the request passes on an exact match, and
/// is answered 401 where the token is absent or differs.
pub open spec fn guard_verdict(token: Option<Seq<char>>, secret: Seq<char>) -> Result<(), HttpError> {
    if token == Some(secret) {
        Ok(())
    } else {
        Err(HttpError { status: UNAUTHORIZED, cause: Cause::Unauthenticated })
    }
}

/// Accepts a token if it is the configured API key, and fails otherwise.
/// The two are compared byte for byte, in a time that does not tell how far
/// they agree.
pub fn validate_token(token: &str, secrets: &BearerSecrets) -> (r: Result<bool, Unauthenticated>)
    ensures
        r == token_verdict(token@, secrets.api_key@),
{
    if same_text(token, secrets.api_key.as_str()) {
        return Ok(true);
    }
    Err(Unauthenticated)
}

/// Accepts a token if it is the configured public key, and fails otherwise.
pub fn validate_public_token(token: &str, secrets: &BearerSecrets) -> (r: Result<bool, Unauthenticated>)
    ensures
        r == token_verdict(token@, secrets.public_key@),
{
    if same_text(token, secrets.public_key.as_str()) {
        return Ok(true);
    }
    Err(Unauthenticated)
}

/// The guard of the API: lets the request pass if its bearer token is the
/// API key. `token` is `None` where the request has no readable
/// `Authorization: Bearer` header. Every failure is the same rejection.
pub fn api_auth(token: Option<&str>, secrets: &BearerSecrets) -> (r: Result<(), HttpError>)
    ensures
        r == guard_verdict(text_of(token), secrets.api_key@),
{
    match token {
        Some(presented) => match validate_token(presented, secrets) {
            Ok(_) => Ok(()),
            Err(_) => Err(HttpError { status: UNAUTHORIZED, cause: Cause::Unauthenticated }),
        },
        None => Err(HttpError { status: UNAUTHORIZED, cause: Cause::Unauthenticated }),
    }
}

/// The guard of the public route group: as `api_auth`, against the public
/// key.
pub fn api_auth_pub(token: Option<&str>, secrets: &BearerSecrets) -> (r: Result<(), HttpError>)
    ensures
        r == guard_verdict(text_of(token), secrets.public_key@),
{
    match token {
        Some(presented) => match validate_public_token(presented, secrets) {
            Ok(_) => Ok(()),
            Err(_) => Err(HttpError { status: UNAUTHORIZED, cause: Cause::Unauthenticated }),
        },
        None => Err(HttpError { status: UNAUTHORIZED, cause: Cause::Unauthenticated }),
    }
}

} // verus!

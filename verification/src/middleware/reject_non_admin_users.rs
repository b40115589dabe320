//! The privilege gate: restricts a route subtree to accounts whose
//! administrator flag is set.
//!
//! The guard works in two steps around one look-up. First it reads the
//! caller's identity from the request; the server then fetches the flag of
//! that account; last the guard decides on what was fetched.

use vstd::prelude::*;
use crate::authentication::password::LookupFailed;
use crate::utils::{
    get_user_id, required_identity, text_of, Cause, HttpError, INTERNAL_SERVER_ERROR,
    UNAUTHORIZED,
};

verus! {

/// The rejection of every caller that is not known to be an administrator.
pub open spec fn not_admin() -> HttpError {
    HttpError { status: UNAUTHORIZED, cause: Cause::NotAdmin }
}

/// The identity that the guard looks up: that of the `user_id` cookie, if the
/// application has a connection pool to look it up with.
pub open spec fn gate_identity(cookie: Option<Seq<char>>, pool_attached: bool) -> Result<
    u128,
    HttpError,
> {
    match required_identity(cookie) {
        Err(e) => Err(e),
        Ok(id) => if pool_attached {
            Ok(id)
        } else {
            Err(HttpError { status: INTERNAL_SERVER_ERROR, cause: Cause::MissingPool })
        },
    }
}

/// The administrator flag that a fetched column stands for: an absent flag
/// is `false`.
pub open spec fn flag_of(fetched: Result<Option<bool>, LookupFailed>) -> Result<bool, LookupFailed> {
    match fetched {
        Err(e) => Err(e),
        Ok(Some(flag)) => Ok(flag),
        Ok(None) => Ok(false),
    }
}

/// The decision of the guard on a flag: only a flag that was read and is set
/// lets the request through. A failed look-up is answered as an unset flag
/// is, so that the answer does not tell whether the account exists.
pub open spec fn admin_verdict(is_admin: Result<bool, LookupFailed>) -> Result<(), HttpError> {
    if is_admin == Ok::<bool, LookupFailed>(true) {
        Ok(())
    } else {
        Err(not_admin())
    }
}

/// First step of the guard: whose flag is to be looked up. Fails with a 500
/// where the request has no `user_id` cookie, with a 400 where the cookie
/// holds no UUID, and with a 500 where no pool is attached.
pub fn admin_candidate(cookie: Option<&str>, pool_attached: bool) -> (r: Result<u128, HttpError>)
    ensures
        r == gate_identity(text_of(cookie), pool_attached),
{
    let user_id = get_user_id(cookie)?;
    if !pool_attached {
        return Err(HttpError { status: INTERNAL_SERVER_ERROR, cause: Cause::MissingPool });
    }
    Ok(user_id)
}

/// Reads the administrator flag out of what the query for the account
/// fetched. An absent flag is `false`, never an error.
pub fn get_user_is_admin(fetched: Result<Option<bool>, LookupFailed>) -> (r: Result<
    bool,
    LookupFailed,
>)
    ensures
        r == flag_of(fetched),
{
    match fetched {
        Err(e) => Err(e),
        Ok(Some(flag)) => Ok(flag),
        Ok(None) => Ok(false),
    }
}

/// Last step of the guard: forwards the request of an administrator, and
/// answers every other with the same 401.
pub fn reject_non_admin_users(is_admin: Result<bool, LookupFailed>) -> (r: Result<(), HttpError>)
    ensures
        r == admin_verdict(is_admin),
{
    match is_admin {
        Ok(true) => Ok(()),
        Ok(false) | Err(_) => Err(HttpError { status: UNAUTHORIZED, cause: Cause::NotAdmin }),
    }
}

} // verus!

//! The order of the guards before each group of routes.
//!
//! Every route but the health check stands behind the API key. The
//! administration routes stand, behind that, behind the privilege gate,
//! which needs the caller's identity first. A request that one guard turns
//! away reaches neither the next guard nor any handler.

use vstd::prelude::*;
use crate::authentication::password::LookupFailed;
use crate::middleware::auth::{api_auth, api_auth_pub, guard_verdict, BearerSecrets};
use crate::middleware::reject_non_admin_users::{
    admin_candidate, admin_verdict, flag_of, gate_identity, get_user_is_admin,
    reject_non_admin_users,
};
use crate::utils::{is_success, text_of, uuid_value, Cause, HttpError, UNAUTHORIZED};

verus! {

/// A group of routes, by the guards that it stands behind.
#[derive(Clone, Copy, Debug, PartialEq, Eq, Structural)]
pub enum Scope {
    /// No guard: the health check.
    Open,
    /// Behind the public key.
    Public,
    /// Behind the API key.
    Api,
    /// Behind the API key and the privilege gate.
    Admin,
}

/// What the guards say of a request before anything is looked up.
#[derive(Clone, Copy, Debug, PartialEq, Eq, Structural)]
pub enum Screening {
    /// The request goes on to its handler.
    Forward,
    /// The request goes on if this account is an administrator.
    LookUpFlag(u128),
    /// The request ends here.
    Reject(HttpError),
}

/// The screening of a request: the guards of its scope, in order, up to the
/// first that turns it away.
pub open spec fn screening(
    scope: Scope,
    token: Option<Seq<char>>,
    cookie: Option<Seq<char>>,
    pool_attached: bool,
    secrets: BearerSecrets,
) -> Screening {
    match scope {
        Scope::Open => Screening::Forward,
        Scope::Public => match guard_verdict(token, secrets.public_key@) {
            Ok(_) => Screening::Forward,
            Err(e) => Screening::Reject(e),
        },
        Scope::Api => match guard_verdict(token, secrets.api_key@) {
            Ok(_) => Screening::Forward,
            Err(e) => Screening::Reject(e),
        },
        Scope::Admin => match guard_verdict(token, secrets.api_key@) {
            Err(e) => Screening::Reject(e),
            Ok(_) => match gate_identity(cookie, pool_attached) {
                Ok(user_id) => Screening::LookUpFlag(user_id),
                Err(e) => Screening::Reject(e),
            },
        },
    }
}

/// Whether a screened request reaches its handler, given what the look-up
/// of the administrator flag fetched where one was asked for.
pub open spec fn admission(screened: Screening, fetched: Result<Option<bool>, LookupFailed>) -> Result<
    (),
    HttpError,
> {
    match screened {
        Screening::Forward => Ok(()),
        Screening::LookUpFlag(_) => admin_verdict(flag_of(fetched)),
        Screening::Reject(e) => Err(e),
    }
}

/// Screens a request of a scope: `token` is its bearer token and `cookie`
/// the value of its `user_id` cookie, where it has them.
pub fn screen(
    scope: Scope,
    token: Option<&str>,
    cookie: Option<&str>,
    pool_attached: bool,
    secrets: &BearerSecrets,
) -> (screened: Screening)
    ensures
        screened == screening(scope, text_of(token), text_of(cookie), pool_attached, *secrets),
{
    let keyed = match scope {
        Scope::Open => {
            return Screening::Forward;
        },
        Scope::Public => api_auth_pub(token, secrets),
        Scope::Api | Scope::Admin => api_auth(token, secrets),
    };
    if let Err(e) = keyed {
        return Screening::Reject(e);
    }
    match scope {
        Scope::Admin => match admin_candidate(cookie, pool_attached) {
            Ok(user_id) => Screening::LookUpFlag(user_id),
            Err(e) => Screening::Reject(e),
        },
        _ => Screening::Forward,
    }
}

/// Concludes on a screened request. `fetched` is what the look-up of the
/// administrator flag brought, and is read only where the screening asked
/// for it.
pub fn conclude_screening(screened: Screening, fetched: Result<Option<bool>, LookupFailed>) -> (r: Result<
    (),
    HttpError,
>)
    ensures
        r == admission(screened, fetched),
{
    match screened {
        Screening::Forward => Ok(()),
        Screening::LookUpFlag(_) => reject_non_admin_users(get_user_is_admin(fetched)),
        Screening::Reject(e) => Err(e),
    }
}

/// A request whose token is not the configured API key is answered 401 on
/// every route behind that key, and is turned away at the first guard:
/// no identity is read, nothing is looked up, no handler runs.
pub proof fn wrong_token_is_turned_away(
    scope: Scope,
    token: Option<Seq<char>>,
    cookie: Option<Seq<char>>,
    pool_attached: bool,
    secrets: BearerSecrets,
    fetched: Result<Option<bool>, LookupFailed>,
)
    requires
        scope == Scope::Api || scope == Scope::Admin,
        token != Some(secrets.api_key@),
    ensures
        screening(scope, token, cookie, pool_attached, secrets) == Screening::Reject(
            HttpError { status: UNAUTHORIZED, cause: Cause::Unauthenticated },
        ),
        admission(screening(scope, token, cookie, pool_attached, secrets), fetched) == Err::<
            (),
            HttpError,
        >(HttpError { status: UNAUTHORIZED, cause: Cause::Unauthenticated }),
{
}

/// An account whose administrator flag is unset, absent or unreadable gets
/// no request through to an administration route, whatever the request
/// holds: the answer is an error with a status outside the 2xx class.
pub proof fn non_admin_is_never_forwarded(
    token: Option<Seq<char>>,
    cookie: Option<Seq<char>>,
    pool_attached: bool,
    secrets: BearerSecrets,
    fetched: Result<Option<bool>, LookupFailed>,
)
    requires
        fetched != Ok::<Option<bool>, LookupFailed>(Some(true)),
    ensures
        admission(screening(Scope::Admin, token, cookie, pool_attached, secrets), fetched) matches Err(
            e,
        ) && !is_success(e.status),
{
}

/// The request of an administrator reaches the administration route: with
/// the API key as token, a `user_id` cookie that holds a UUID, a pool
/// attached and the flag of that account set, the account is the one looked
/// up and the request is forwarded.
pub proof fn admin_is_forwarded(
    token: Option<Seq<char>>,
    cookie: Seq<char>,
    user_id: u128,
    secrets: BearerSecrets,
)
    requires
        token == Some(secrets.api_key@),
        uuid_value(cookie) == Some(user_id),
    ensures
        screening(Scope::Admin, token, Some(cookie), true, secrets) == Screening::LookUpFlag(user_id),
        admission(
            screening(Scope::Admin, token, Some(cookie), true, secrets),
            Ok(Some(true)),
        ) == Ok::<(), HttpError>(()),
{
}

} // verus!

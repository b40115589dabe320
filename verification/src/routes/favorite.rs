//! The routes that record what a user likes.

use vstd::prelude::*;
use crate::utils::{e400, favorite_identity, parse_user_id, text_of, Cause, HttpError};

verus! {

/// Reads for whom a recipe is recorded as a favorite, given the value of
/// the request's `user_id` cookie if it has one. A request without the
/// cookie is answered 400, as one whose cookie holds no UUID is.
pub fn favorite_recipe(cookie: Option<&str>) -> (r: Result<u128, HttpError>)
    ensures
        r == favorite_identity(text_of(cookie)),
{
    match cookie {
        Some(value) => parse_user_id(value),
        None => Err(e400(Cause::MissingUserId)),
    }
}

} // verus!

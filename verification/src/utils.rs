//! Status codes, the rejection that a guard answers with, and the extraction
//! of the caller's identity from the `user_id` cookie.

use vstd::prelude::*;
use vstd::string::*;
use vstd::utf8::*;

verus! {

/// The request was served.
pub const OK: u16 = 200;

/// The request is malformed: the client has to change it.
pub const BAD_REQUEST: u16 = 400;

/// The caller is not allowed through.
pub const UNAUTHORIZED: u16 = 401;

/// A query parameter names something that the route does not offer.
pub const NOT_ACCEPTABLE: u16 = 406;

/// The server could not do its own part.
pub const INTERNAL_SERVER_ERROR: u16 = 500;

/// Whether a status code announces success (the 2xx class).
pub open spec fn is_success(status: u16) -> bool {
    200 <= status < 300
}

/// Why a request was turned away. The cause is written to the log; the
/// client is told the status alone.
#[derive(Clone, Copy, Debug, PartialEq, Eq, Structural)]
pub enum Cause {
    /// The bearer token is missing, malformed, or not the configured secret.
    Unauthenticated,
    /// The request carries no `user_id` cookie.
    MissingUserId,
    /// The `user_id` cookie does not hold a UUID.
    MalformedUserId,
    /// No connection pool is attached to the application.
    MissingPool,
    /// The account is not an administrator, or its flag could not be read.
    NotAdmin,
    /// The two copies of a new password differ.
    PasswordsDiffer,
    /// The presented credentials are wrong.
    InvalidCredentials,
    /// The credential check itself failed to run.
    CredentialCheckFailed,
    /// A password could not be hashed.
    HashingFailed,
    /// The data store failed.
    StorageFailed,
    /// A step of a request came in an order that its route does not know.
    OutOfOrder,
    /// No upload URL could be signed.
    PresignFailed,
}

/// The data store could not do what it was asked.
#[derive(Clone, Copy, Debug, PartialEq, Eq, Structural)]
pub struct StorageFailed;

/// A rejection: the status that the client sees and the cause behind it.
#[derive(Clone, Copy, Debug, PartialEq, Eq, Structural)]
pub struct HttpError {
    pub status: u16,
    pub cause: Cause,
}

/// How the data store answered a route's query.
#[derive(Clone, Copy, Debug, PartialEq, Eq, Structural)]
pub enum StoreAnswer {
    /// The query was carried out.
    Done,
    /// The query asked for one row, and there is none.
    RowNotFound,
    /// The query failed.
    Failed,
}

/// The status of a route that writes, or that reads what may be empty: a
/// 200 where the store did its part, a 500 where it did not.
pub open spec fn status_after(answer: StoreAnswer) -> u16 {
    match answer {
        StoreAnswer::Done => OK,
        StoreAnswer::RowNotFound => INTERNAL_SERVER_ERROR,
        StoreAnswer::Failed => INTERNAL_SERVER_ERROR,
    }
}

/// The status of a route that reads the one row that the client named: a
/// row that is not there is the client's error.
pub open spec fn status_after_lookup(answer: StoreAnswer) -> u16 {
    match answer {
        StoreAnswer::Done => OK,
        StoreAnswer::RowNotFound => BAD_REQUEST,
        StoreAnswer::Failed => INTERNAL_SERVER_ERROR,
    }
}

/// Says what a route answers once the store did, or failed to do, what the
/// route asked of it.
pub fn store_status(answer: StoreAnswer) -> (status: u16)
    ensures
        status == status_after(answer),
{
    match answer {
        StoreAnswer::Done => OK,
        StoreAnswer::RowNotFound | StoreAnswer::Failed => INTERNAL_SERVER_ERROR,
    }
}

/// Says what a route answers that looked up the row that the client named.
pub fn lookup_status(answer: StoreAnswer) -> (status: u16)
    ensures
        status == status_after_lookup(answer),
{
    match answer {
        StoreAnswer::Done => OK,
        StoreAnswer::RowNotFound => BAD_REQUEST,
        StoreAnswer::Failed => INTERNAL_SERVER_ERROR,
    }
}

/// Wraps a cause as an opaque 500.
pub fn e500(cause: Cause) -> (e: HttpError)
    ensures
        e == (HttpError { status: INTERNAL_SERVER_ERROR, cause }),
{
    HttpError { status: INTERNAL_SERVER_ERROR, cause }
}

/// Wraps a cause as an opaque 400.
pub fn e400(cause: Cause) -> (e: HttpError)
    ensures
        e == (HttpError { status: BAD_REQUEST, cause }),
{
    HttpError { status: BAD_REQUEST, cause }
}

/// The 128-bit value of the UUID that a text denotes, in any of the forms
/// that the `uuid` crate reads; `None` where the text is no UUID.
pub uninterp spec fn uuid_value(text: Seq<char>) -> Option<u128>;

/// Calls `uuid::Uuid::parse_str` and, on success, `Uuid::as_u128`.
///
/// Trusted: the result is the value named `uuid_value` of the text. Parsing
/// reads nothing but the text, and `as_u128` packs the sixteen bytes of the
/// identifier big-endian into one integer.
#[verifier::external_body]
fn parse_uuid(text: &str) -> (value: Option<u128>)
    ensures
        value == uuid_value(text@),
{
    match uuid::Uuid::parse_str(text) {
        Ok(id) => Some(id.as_u128()),
        Err(_) => None,
    }
}

/// The identity that a cookie value claims: the UUID it holds, or a 400.
pub open spec fn claimed_identity(cookie_value: Seq<char>) -> Result<u128, HttpError> {
    match uuid_value(cookie_value) {
        Some(id) => Ok(id),
        None => Err(HttpError { status: BAD_REQUEST, cause: Cause::MalformedUserId }),
    }
}

/// The identity of a request that must carry one: an absent cookie is a 500,
/// a malformed one a 400.
pub open spec fn required_identity(cookie: Option<Seq<char>>) -> Result<u128, HttpError> {
    match cookie {
        Some(value) => claimed_identity(value),
        None => Err(HttpError { status: INTERNAL_SERVER_ERROR, cause: Cause::MissingUserId }),
    }
}

/// The identity of a request that may carry one: an absent cookie is no
/// identity, a malformed one a 400.
pub open spec fn optional_identity(cookie: Option<Seq<char>>) -> Result<Option<u128>, HttpError> {
    match cookie {
        Some(value) => match claimed_identity(value) {
            Ok(id) => Ok(Some(id)),
            Err(e) => Err(e),
        },
        None => Ok(None),
    }
}

/// The identity of a request to a route that records a favorite: there an
/// absent cookie is the client's error, as a malformed one is.
pub open spec fn favorite_identity(cookie: Option<Seq<char>>) -> Result<u128, HttpError> {
    match cookie {
        Some(value) => claimed_identity(value),
        None => Err(HttpError { status: BAD_REQUEST, cause: Cause::MissingUserId }),
    }
}

/// The text of an optional string slice.
pub open spec fn text_of(value: Option<&str>) -> Option<Seq<char>> {
    match value {
        Some(v) => Some(v@),
        None => None,
    }
}

/// Reads the user id out of the value of the `user_id` cookie. The value
/// comes from the client, so one that is no UUID is the client's error.
pub fn parse_user_id(cookie_value: &str) -> (r: Result<u128, HttpError>)
    ensures
        r == claimed_identity(cookie_value@),
{
    match parse_uuid(cookie_value) {
        Some(id) => Ok(id),
        None => Err(e400(Cause::MalformedUserId)),
    }
}

/// Gets the user id of a request, given the value of its `user_id` cookie if
/// it has one. Fails where the cookie is absent or holds no UUID.
pub fn get_user_id(cookie: Option<&str>) -> (r: Result<u128, HttpError>)
    ensures
        r == required_identity(text_of(cookie)),
{
    match cookie {
        Some(value) => parse_user_id(value),
        None => Err(e500(Cause::MissingUserId)),
    }
}

/// Gets the user id of a request if its `user_id` cookie is there, and `None`
/// otherwise. Fails where the cookie holds no UUID.
pub fn get_optional_user_id(cookie: Option<&str>) -> (r: Result<Option<u128>, HttpError>)
    ensures
        r == optional_identity(text_of(cookie)),
{
    match cookie {
        Some(value) => match parse_user_id(value) {
            Ok(id) => Ok(Some(id)),
            Err(e) => Err(e),
        },
        None => Ok(None),
    }
}

proof fn lemma_or_xor_zero(acc: u8, p: u8, q: u8)
    ensures
        ((acc | (p ^ q)) == 0) <==> (acc == 0 && p == q),
{
    assert(((acc | (p ^ q)) == 0) <==> (acc == 0 && p == q)) by (bit_vector);
}

/// Two texts are equal exactly when their UTF-8 encodings are.
pub proof fn lemma_same_text_same_bytes(a: Seq<char>, b: Seq<char>)
    ensures
        (encode_utf8(a) == encode_utf8(b)) <==> (a == b),
{
    encode_utf8_decode_utf8(a);
    encode_utf8_decode_utf8(b);
}

/// Compares two texts byte for byte.
///
/// Where the two have the same length every byte is looked at, whether or
/// not an earlier one already differed, so the time taken does not tell how
/// long the common prefix is: the comparison is fit for secrets.
pub fn same_text(left: &str, right: &str) -> (same: bool)
    ensures
        same == (left@ == right@),
{
    let x = left.as_bytes();
    let y = right.as_bytes();
    proof {
        lemma_same_text_same_bytes(left@, right@);
    }
    if x.len() != y.len() {
        return false;
    }
    let n = x.len();
    let mut difference: u8 = 0;
    let mut i: usize = 0;
    assert(x@.subrange(0, 0) =~= y@.subrange(0, 0));
    while i < n
        invariant
            i <= n,
            n == x@.len(),
            n == y@.len(),
            (difference == 0) <==> (x@.subrange(0, i as int) == y@.subrange(0, i as int)),
        decreases n - i,
    {
        proof {
            lemma_or_xor_zero(difference, x@[i as int], y@[i as int]);
            let xs = x@.subrange(0, i + 1);
            let ys = y@.subrange(0, i + 1);
            assert(xs.drop_last() == x@.subrange(0, i as int));
            assert(ys.drop_last() == y@.subrange(0, i as int));
            assert(xs.last() == x@[i as int]);
            assert(ys.last() == y@[i as int]);
            if x@.subrange(0, i as int) == y@.subrange(0, i as int) && x@[i as int] == y@[i as int] {
                assert(xs =~= ys);
            }
        }
        difference = difference | (x[i] ^ y[i]);
        i = i + 1;
    }
    proof {
        assert(x@.subrange(0, n as int) == x@);
        assert(y@.subrange(0, n as int) == y@);
    }
    difference == 0
}

} // verus!

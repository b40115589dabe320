//! The route that hands out a URL to upload a file to.

use s3::bucket::Bucket;
use s3::creds::Credentials;
use vstd::prelude::*;
use crate::utils::{e500, Cause, HttpError, INTERNAL_SERVER_ERROR};

verus! {

/// The time for which an upload URL is good, in seconds: one day.
pub const EXPIRY_SECS: u32 = 86400;

/// The file that is to be uploaded.
#[derive(Clone, Debug, PartialEq, Eq)]
pub struct File {
    pub name: String,
}

/// The answer: the URL to upload the file to.
#[derive(Clone, Debug, PartialEq, Eq)]
pub struct Presign {
    pub url: String,
}

/// Where the files go, and in whose name. It has no `Debug`: a secret is
/// never printed.
#[derive(Clone)]
pub struct S3Settings {
    pub bucket: String,
    pub region: String,
    pub access_key_id: String,
    pub secret_access_key: String,
}

/// Calls `Region::from_str`, `Credentials::new` and `Bucket::new` of the
/// `rust-s3` crate to make the bucket, and `Bucket::presign_put` on it,
/// without extra headers.
///
/// Trusted, and nothing is claimed of the URL: its signature depends on the
/// time of the call. Any error is `None`.
#[verifier::external_body]
fn presign_put(settings: &S3Settings, path: &str, expiry_secs: u32) -> (url: Option<String>) {
    let region = settings.region.parse().ok()?;
    let credentials = Credentials::new(
        Some(&settings.access_key_id),
        Some(&settings.secret_access_key),
        None,
        None,
        None,
    ).ok()?;
    let bucket = Bucket::new(&settings.bucket, region, credentials).ok()?;
    bucket.presign_put(path, expiry_secs, None).ok()
}

/// What the route answers, given what the signing brought: the URL, or a
/// 500.
pub open spec fn presign_verdict(url: Option<String>) -> Result<Presign, HttpError> {
    match url {
        Some(url) => Ok(Presign { url }),
        None => Err(HttpError { status: INTERNAL_SERVER_ERROR, cause: Cause::PresignFailed }),
    }
}

/// Says what the route answers, given what the signing brought.
pub fn presigned(url: Option<String>) -> (r: Result<Presign, HttpError>)
    ensures
        r == presign_verdict(url),
{
    match url {
        Some(url) => Ok(Presign { url }),
        None => Err(e500(Cause::PresignFailed)),
    }
}

/// Signs a URL to which the named file can be uploaded for one day.
///
/// The URL is the signer's; where there is none, the answer is a 500.
pub fn presign_s3(settings: &S3Settings, file: &File) -> (r: Result<Presign, HttpError>)
    ensures
        r matches Err(e) ==> e == (HttpError {
            status: INTERNAL_SERVER_ERROR,
            cause: Cause::PresignFailed,
        }),
{
    let request = presign_request(settings, file);
    presigned(presign_put(request.settings, request.path, request.expiry_secs))
}

/// What the signer is asked for. It has no `Debug`: the settings hold a
/// secret.
#[derive(Clone, Copy)]
pub struct PresignRequest<'a> {
    /// The bucket, its region, and the keys to sign with.
    pub settings: &'a S3Settings,
    /// The path of the object in the bucket.
    pub path: &'a str,
    /// The time for which the URL is to be good, in seconds.
    pub expiry_secs: u32,
}

/// Says what the signer is asked for: an upload to the path that is the
/// name of the file, in the configured bucket, good for one day.
pub fn presign_request<'a>(settings: &'a S3Settings, file: &'a File) -> (request: PresignRequest<'a>)
    ensures
        request.settings == settings,
        request.path@ == file.name@,
        request.expiry_secs == EXPIRY_SECS,
{
    PresignRequest { settings, path: file.name.as_str(), expiry_secs: EXPIRY_SECS }
}

} // verus!

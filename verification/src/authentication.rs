//! Authentication of accounts by email and password.

pub mod password;

pub use password::{
    compute_password_hash, validate_credentials, verify_password_hash, AuthCause, AuthError,
    Credentials, CredentialsRow, HashCheck, HashingFailed, LookupFailed, StoredCredentials,
};

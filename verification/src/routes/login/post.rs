//! The login route: credentials in, the account's identifier and
//! administrator flag out.

use vstd::prelude::*;
use vstd::string::*;
use crate::authentication::password::{
    argon2_check, credentials_verdict, dummy_hash_text, password_verdict, validate_credentials,
    validation, AuthCause, AuthError, Credentials, HashCheck, LookupFailed, StoredCredentials,
};
use crate::utils::{StorageFailed, INTERNAL_SERVER_ERROR, UNAUTHORIZED};

verus! {

/// What a successful login answers with.
#[derive(Clone, Copy, Debug, PartialEq, Eq, Structural)]
pub struct LoginResponse {
    pub user_id: u128,
    pub is_admin: bool,
}

/// The profile of a user, as far as it was filled in.
#[derive(Clone, Debug, PartialEq, Eq)]
pub struct UserData {
    pub weight: Option<i16>,
    pub age: Option<i16>,
    pub sex: Option<String>,
    pub plan_to_get_pregnant: Option<bool>,
    pub portion_size: Option<i16>,
    pub image_url: Option<String>,
    pub first_name: Option<String>,
    pub last_name: Option<String>,
}

/// The body of the answer to a successful login.
#[derive(Clone, Debug, PartialEq, Eq)]
pub enum LoginBody {
    /// The identifier, the flag and the profile.
    WithProfile { user_id: u128, is_admin: bool, data: UserData },
    /// The identifier and the flag alone.
    Bare(u128, bool),
}

/// Why a login failed, as the log records it.
#[derive(Clone, Copy, Debug, PartialEq, Eq, Structural)]
pub enum LoginError {
    /// The credentials were refused.
    AuthError(AuthError),
    /// The credentials could not be checked.
    UnexpectedError(AuthError),
}

/// A failed login: the status for the client, who gets no body, and the
/// error for the log.
#[derive(Clone, Copy, Debug, PartialEq, Eq, Structural)]
pub struct LoginRejection {
    pub status: u16,
    pub error: LoginError,
}

/// What a login answers, given how the credentials fared: refused
/// credentials are a 401, a check that could not be made is a 500.
pub open spec fn login_verdict(validated: Result<(u128, bool), AuthError>) -> Result<
    LoginResponse,
    LoginRejection,
> {
    match validated {
        Ok((user_id, is_admin)) => Ok(LoginResponse { user_id, is_admin }),
        Err(AuthError::InvalidCredentials(cause)) => Err(
            LoginRejection {
                status: UNAUTHORIZED,
                error: LoginError::AuthError(AuthError::InvalidCredentials(cause)),
            },
        ),
        Err(AuthError::UnexpectedError(cause)) => Err(
            LoginRejection {
                status: INTERNAL_SERVER_ERROR,
                error: LoginError::UnexpectedError(AuthError::UnexpectedError(cause)),
            },
        ),
    }
}

/// The message of a cause.
pub open spec fn cause_text(cause: AuthCause) -> Seq<char> {
    match cause {
        AuthCause::UnknownUsername => "Unknown username."@,
        AuthCause::InvalidPassword => "Invalid password."@,
        AuthCause::MalformedHash => "Failed to parse hash in PHC string format."@,
        AuthCause::VerificationFailed => "Failed to verify against the stored hash."@,
        AuthCause::LookupFailed => "Failed to performed a query to retrieve stored credentials."@,
        AuthCause::TaskFailed => "Failed to spawn blocking task."@,
    }
}

/// The message of an authentication error: invalid credentials have one of
/// their own, an unexpected error shows its cause.
pub open spec fn auth_error_text(e: AuthError) -> Seq<char> {
    match e {
        AuthError::InvalidCredentials(_) => "Invalid credentials."@,
        AuthError::UnexpectedError(cause) => cause_text(cause),
    }
}

/// The messages below an authentication error, nearest first.
pub open spec fn auth_error_causes(e: AuthError) -> Seq<Seq<char>> {
    match e {
        AuthError::InvalidCredentials(cause) => seq![cause_text(cause)],
        AuthError::UnexpectedError(_) => Seq::empty(),
    }
}

/// The message of a login error.
pub open spec fn login_error_text(e: LoginError) -> Seq<char> {
    match e {
        LoginError::AuthError(_) => "Authentication failed"@,
        LoginError::UnexpectedError(_) => "Something went wrong"@,
    }
}

/// The messages below a login error, nearest first.
pub open spec fn login_error_causes(e: LoginError) -> Seq<Seq<char>> {
    match e {
        LoginError::AuthError(inner) => seq![auth_error_text(inner)] + auth_error_causes(inner),
        LoginError::UnexpectedError(inner) => seq![auth_error_text(inner)] + auth_error_causes(
            inner,
        ),
    }
}

/// One `Caused by:` paragraph for each cause, in order.
pub open spec fn caused_by(causes: Seq<Seq<char>>) -> Seq<char>
    decreases causes.len(),
{
    if causes.len() == 0 {
        Seq::empty()
    } else {
        caused_by(causes.drop_last()) + "Caused by:\n\t"@ + causes.last() + "\n"@
    }
}

/// An error written out with its chain of causes: the message, an empty
/// line, then the causes.
pub open spec fn error_chain_text(message: Seq<char>, causes: Seq<Seq<char>>) -> Seq<char> {
    message + "\n\n"@ + caused_by(causes)
}

/// The texts of a vector of strings.
pub open spec fn texts(strings: Seq<String>) -> Seq<Seq<char>> {
    Seq::new(strings.len(), |i: int| strings[i]@)
}

impl AuthCause {
    /// The message of the cause.
    pub fn message(&self) -> (text: &'static str)
        ensures
            text@ == cause_text(*self),
    {
        match self {
            AuthCause::UnknownUsername => "Unknown username.",
            AuthCause::InvalidPassword => "Invalid password.",
            AuthCause::MalformedHash => "Failed to parse hash in PHC string format.",
            AuthCause::VerificationFailed => "Failed to verify against the stored hash.",
            AuthCause::LookupFailed => "Failed to performed a query to retrieve stored credentials.",
            AuthCause::TaskFailed => "Failed to spawn blocking task.",
        }
    }
}

impl AuthError {
    /// The message of the error.
    pub fn message(&self) -> (text: &'static str)
        ensures
            text@ == auth_error_text(*self),
    {
        match self {
            AuthError::InvalidCredentials(_) => "Invalid credentials.",
            AuthError::UnexpectedError(cause) => cause.message(),
        }
    }

    /// The messages below the error, nearest first.
    pub fn causes(&self) -> (chain: Vec<String>)
        ensures
            texts(chain@) == auth_error_causes(*self),
    {
        let mut chain: Vec<String> = Vec::new();
        match self {
            AuthError::InvalidCredentials(cause) => {
                chain.push(cause.message().to_owned());
            },
            AuthError::UnexpectedError(_) => {},
        }
        assert(texts(chain@) =~= auth_error_causes(*self));
        chain
    }
}

impl LoginError {
    /// The message of the error.
    pub fn message(&self) -> (text: &'static str)
        ensures
            text@ == login_error_text(*self),
    {
        match self {
            LoginError::AuthError(_) => "Authentication failed",
            LoginError::UnexpectedError(_) => "Something went wrong",
        }
    }

    /// The authentication error behind the login error.
    pub fn inner(&self) -> (e: AuthError)
        ensures
            e == (match *self {
                LoginError::AuthError(inner) => inner,
                LoginError::UnexpectedError(inner) => inner,
            }),
    {
        match self {
            LoginError::AuthError(inner) => *inner,
            LoginError::UnexpectedError(inner) => *inner,
        }
    }

    /// The messages below the error, nearest first.
    pub fn causes(&self) -> (chain: Vec<String>)
        ensures
            texts(chain@) == login_error_causes(*self),
    {
        let inner = self.inner();
        let mut chain: Vec<String> = Vec::new();
        chain.push(inner.message().to_owned());
        let mut below = inner.causes();
        let ghost first = chain@;
        let ghost rest = below@;
        chain.append(&mut below);
        assert(chain@ == first + rest);
        assert(texts(chain@) =~= login_error_causes(*self));
        chain
    }

    /// The error with its whole chain of causes, as the log shows it.
    pub fn debug_string(&self) -> (text: String)
        ensures
            text@ == error_chain_text(login_error_text(*self), login_error_causes(*self)),
    {
        let chain = self.causes();
        error_chain_fmt(self.message(), &chain)
    }
}

/// Writes an error out with its chain of causes: the message and an empty
/// line, then for each cause a line `Caused by:` and the cause, indented by
/// a tab.
pub fn error_chain_fmt(message: &str, causes: &Vec<String>) -> (text: String)
    ensures
        text@ == error_chain_text(message@, texts(causes@)),
{
    let mut text = message.to_owned();
    text.append("\n\n");
    let n = causes.len();
    let mut i: usize = 0;
    assert(texts(causes@).take(0) =~= Seq::<Seq<char>>::empty());
    while i < n
        invariant
            i <= n,
            n == causes@.len(),
            text@ == message@ + "\n\n"@ + caused_by(texts(causes@).take(i as int)),
        decreases n - i,
    {
        text.append("Caused by:\n\t");
        text.append(causes[i].as_str());
        text.append("\n");
        proof {
            let upto = texts(causes@).take(i + 1);
            assert(upto.drop_last() =~= texts(causes@).take(i as int));
            assert(upto.last() == causes@[i as int]@);
        }
        i = i + 1;
    }
    assert(texts(causes@).take(n as int) =~= texts(causes@));
    text
}

/// Says what the login answers, once the credentials were validated.
pub fn login_response(validated: Result<(u128, bool), AuthError>) -> (r: Result<
    LoginResponse,
    LoginRejection,
>)
    ensures
        r == login_verdict(validated),
{
    match validated {
        Ok((user_id, is_admin)) => Ok(LoginResponse { user_id, is_admin }),
        Err(e) => match e {
            AuthError::InvalidCredentials(_) => Err(
                LoginRejection { status: UNAUTHORIZED, error: LoginError::AuthError(e) },
            ),
            AuthError::UnexpectedError(_) => Err(
                LoginRejection { status: INTERNAL_SERVER_ERROR, error: LoginError::UnexpectedError(e) },
            ),
        },
    }
}

/// Makes the body of the answer to a successful login. The profile is
/// added where it could be read; where it could not, the user is logged in
/// all the same, and is told the identifier and the flag alone.
pub fn login_body(response: LoginResponse, profile: Result<UserData, StorageFailed>) -> (body:
    LoginBody)
    ensures
        body == (match profile {
            Ok(data) => LoginBody::WithProfile {
                user_id: response.user_id,
                is_admin: response.is_admin,
                data,
            },
            Err(_) => LoginBody::Bare(response.user_id, response.is_admin),
        }),
{
    match profile {
        Ok(data) => LoginBody::WithProfile {
            user_id: response.user_id,
            is_admin: response.is_admin,
            data,
        },
        Err(_) => LoginBody::Bare(response.user_id, response.is_admin),
    }
}

/// Checks that the presented credentials are correct, against what the
/// look-up of their email found, and answers with the account's identifier
/// and administrator flag.
pub fn login(
    credentials: &Credentials<'_>,
    lookup: Result<Option<StoredCredentials>, LookupFailed>,
) -> (r: Result<LoginResponse, LoginRejection>)
    ensures
        r == login_verdict(validation(credentials.password@, lookup)),
{
    login_response(validate_credentials(credentials, lookup))
}

/// An account that presents the password which verifies against its stored
/// hash logs in, and is told its own identifier and its own administrator
/// flag.
pub proof fn correct_credentials_log_in(password: Seq<char>, record: StoredCredentials)
    requires
        argon2_check(record.password_hash@, password) == HashCheck::Match,
    ensures
        login_verdict(validation(password, Ok(Some(record)))) == Ok::<LoginResponse, LoginRejection>(
            LoginResponse { user_id: record.user_id, is_admin: record.is_admin },
        ),
{
}

/// A password that does not verify against the stored hash of the account
/// is answered 401; and where it does not verify against the dummy hash
/// either, an unknown email is answered with the very same rejection.
pub proof fn wrong_password_is_unauthorized(password: Seq<char>, record: StoredCredentials)
    requires
        argon2_check(record.password_hash@, password) == HashCheck::Mismatch,
    ensures
        login_verdict(validation(password, Ok(Some(record)))) == Err::<
            LoginResponse,
            LoginRejection,
        >(
            LoginRejection {
                status: UNAUTHORIZED,
                error: LoginError::AuthError(
                    AuthError::InvalidCredentials(AuthCause::InvalidPassword),
                ),
            },
        ),
        argon2_check(dummy_hash_text(), password) == HashCheck::Mismatch ==> login_verdict(
            validation(password, Ok(None)),
        ) == login_verdict(validation(password, Ok(Some(record)))),
{
}

/// An email that no account has is not answered before the password was
/// verified: the outcome is the one that the check of the password against
/// the dummy hash calls for, and it is never a login. Where the dummy hash
/// can be verified against, it is a 401.
pub proof fn unknown_email_is_verified_all_the_same(password: Seq<char>)
    ensures
        validation(password, Ok(None)) == credentials_verdict(
            None,
            password_verdict(argon2_check(dummy_hash_text(), password)),
        ),
        login_verdict(validation(password, Ok(None))) is Err,
        argon2_check(dummy_hash_text(), password) == HashCheck::Mismatch || argon2_check(
            dummy_hash_text(),
            password,
        ) == HashCheck::Match ==> login_verdict(validation(password, Ok(None)))->Err_0.status
            == UNAUTHORIZED,
{
}

/// A login that is repeated with the same password, while the store holds
/// the same for the email, is answered the same: the same identifier and
/// administrator flag, or the same rejection.
pub proof fn login_is_repeatable(
    password: Seq<char>,
    lookup: Result<Option<StoredCredentials>, LookupFailed>,
    first: Result<LoginResponse, LoginRejection>,
    second: Result<LoginResponse, LoginRejection>,
)
    requires
        first == login_verdict(validation(password, lookup)),
        second == login_verdict(validation(password, lookup)),
    ensures
        first == second,
{
}

} // verus!

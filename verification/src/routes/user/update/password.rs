//! The change of a password.
//!
//! The route is a short chain of questions to the outside: the email of the
//! account, the validation of the current password, the storing of the new
//! one. `change_password` is its step function: from the state of the
//! request and what just came back, to the next state and what to do next.
//! The server performs each action and hands back its result.

use vstd::prelude::*;
use crate::authentication::password::{
    argon2_check, validation, AuthError, HashCheck, LookupFailed, StoredCredentials,
};
use crate::routes::login::post::{login_verdict, LoginRejection, LoginResponse};
use crate::utils::{
    same_text, Cause, HttpError, StorageFailed, BAD_REQUEST, INTERNAL_SERVER_ERROR,
};

verus! {

/// The passwords of the request: the current one, the new one, and the new
/// one once more. All are borrowed: the library keeps no copy of a
/// password. It has no `Debug`: a password is never printed.
#[derive(Clone, Copy)]
pub struct FormData<'a> {
    pub current_password: &'a str,
    pub new_password: &'a str,
    pub new_password_check: &'a str,
}

/// Where a request stands.
#[derive(Clone, Copy, Debug, PartialEq, Eq, Structural)]
pub enum ChangeState {
    /// Nothing was looked at yet.
    Start,
    /// The email of the account is being fetched.
    AwaitingEmail(u128),
    /// The current password is being validated.
    AwaitingValidation(u128),
    /// The new password is being stored.
    AwaitingStore,
    /// The response was given.
    Done,
}

/// What came back from the outside.
#[derive(Clone, Copy)]
pub enum ChangeEvent<'a> {
    /// The request arrived, with the identity that was read from it.
    Submitted(Result<u128, HttpError>),
    /// The email of the account was fetched, or could not be.
    EmailFetched(Result<&'a str, LookupFailed>),
    /// The current password was validated for the email.
    Validated(Result<(u128, bool), AuthError>),
    /// The new password was hashed and stored, or could not be.
    Stored(Result<(), StorageFailed>),
}

/// What the server is to do next.
#[derive(Clone, Copy, PartialEq, Eq)]
pub enum ChangeAction<'a> {
    /// Fetch the email of this account.
    FetchEmail(u128),
    /// Validate this password for this email.
    Validate { email: &'a str, password: &'a str },
    /// Hash this password and store it for this account.
    Store { user_id: u128, new_password: &'a str },
    /// Answer: `Ok` is a 200.
    Respond(Result<(), HttpError>),
}

/// The texts of a form.
pub struct FormText {
    pub current_password: Seq<char>,
    pub new_password: Seq<char>,
    pub new_password_check: Seq<char>,
}

/// An event, with texts in place of strings.
pub enum EventText {
    Submitted(Result<u128, HttpError>),
    EmailFetched(Result<Seq<char>, LookupFailed>),
    Validated(Result<(u128, bool), AuthError>),
    Stored(Result<(), StorageFailed>),
}

/// An action, with texts in place of strings.
pub enum ActionText {
    FetchEmail(u128),
    Validate { email: Seq<char>, password: Seq<char> },
    Store { user_id: u128, new_password: Seq<char> },
    Respond(Result<(), HttpError>),
}

impl<'a> View for FormData<'a> {
    type V = FormText;

    open spec fn view(&self) -> FormText {
        FormText {
            current_password: self.current_password@,
            new_password: self.new_password@,
            new_password_check: self.new_password_check@,
        }
    }
}

impl<'a> View for ChangeEvent<'a> {
    type V = EventText;

    open spec fn view(&self) -> EventText {
        match *self {
            ChangeEvent::Submitted(identity) => EventText::Submitted(identity),
            ChangeEvent::EmailFetched(Ok(email)) => EventText::EmailFetched(Ok(email@)),
            ChangeEvent::EmailFetched(Err(e)) => EventText::EmailFetched(Err(e)),
            ChangeEvent::Validated(validated) => EventText::Validated(validated),
            ChangeEvent::Stored(stored) => EventText::Stored(stored),
        }
    }
}

impl<'a> View for ChangeAction<'a> {
    type V = ActionText;

    open spec fn view(&self) -> ActionText {
        match *self {
            ChangeAction::FetchEmail(user_id) => ActionText::FetchEmail(user_id),
            ChangeAction::Validate { email, password } => ActionText::Validate {
                email: email@,
                password: password@,
            },
            ChangeAction::Store { user_id, new_password } => ActionText::Store {
                user_id,
                new_password: new_password@,
            },
            ChangeAction::Respond(response) => ActionText::Respond(response),
        }
    }
}

/// The rejection of a step that no state waits for.
pub open spec fn out_of_order() -> (ChangeState, ActionText) {
    (
        ChangeState::Done,
        ActionText::Respond(
            Err(HttpError { status: INTERNAL_SERVER_ERROR, cause: Cause::OutOfOrder }),
        ),
    )
}

/// A response that ends the request.
pub open spec fn respond(response: Result<(), HttpError>) -> (ChangeState, ActionText) {
    (ChangeState::Done, ActionText::Respond(response))
}

/// One step of the route.
///
/// A request without a usable identity is answered with the identity's own
/// error. New passwords that differ are a 400, before anything is fetched.
/// An email that cannot be fetched is a 500. A current password that is
/// refused is a 400, one that could not be checked a 500. Only then is the
/// new password stored; the answer is a 200 if that worked and a 500 if not.
pub open spec fn change_step(form: FormText, state: ChangeState, event: EventText) -> (
    ChangeState,
    ActionText,
) {
    match (state, event) {
        (ChangeState::Start, EventText::Submitted(Err(e))) => respond(Err(e)),
        (ChangeState::Start, EventText::Submitted(Ok(user_id))) => {
            if form.new_password != form.new_password_check {
                respond(Err(HttpError { status: BAD_REQUEST, cause: Cause::PasswordsDiffer }))
            } else {
                (ChangeState::AwaitingEmail(user_id), ActionText::FetchEmail(user_id))
            }
        },
        (ChangeState::AwaitingEmail(_), EventText::EmailFetched(Err(_))) => respond(
            Err(HttpError { status: INTERNAL_SERVER_ERROR, cause: Cause::StorageFailed }),
        ),
        (ChangeState::AwaitingEmail(user_id), EventText::EmailFetched(Ok(email))) => (
            ChangeState::AwaitingValidation(user_id),
            ActionText::Validate { email, password: form.current_password },
        ),
        (
            ChangeState::AwaitingValidation(_),
            EventText::Validated(Err(AuthError::InvalidCredentials(_))),
        ) => respond(Err(HttpError { status: BAD_REQUEST, cause: Cause::InvalidCredentials })),
        (
            ChangeState::AwaitingValidation(_),
            EventText::Validated(Err(AuthError::UnexpectedError(_))),
        ) => respond(
            Err(HttpError { status: INTERNAL_SERVER_ERROR, cause: Cause::CredentialCheckFailed }),
        ),
        (ChangeState::AwaitingValidation(user_id), EventText::Validated(Ok(_))) => (
            ChangeState::AwaitingStore,
            ActionText::Store { user_id, new_password: form.new_password },
        ),
        (ChangeState::AwaitingStore, EventText::Stored(Ok(_))) => respond(Ok(())),
        (ChangeState::AwaitingStore, EventText::Stored(Err(_))) => respond(
            Err(HttpError { status: INTERNAL_SERVER_ERROR, cause: Cause::StorageFailed }),
        ),
        _ => out_of_order(),
    }
}

/// Takes one step of a change of password: given the form of the request,
/// where the request stands and what just came back, says where it stands
/// now and what to do next.
pub fn change_password<'a>(form: &FormData<'a>, state: ChangeState, event: ChangeEvent<'a>) -> (next:
    (ChangeState, ChangeAction<'a>))
    ensures
        (next.0, next.1@) == change_step(form@, state, event@),
{
    let done = ChangeState::Done;
    match state {
        ChangeState::Start => match event {
            ChangeEvent::Submitted(Err(e)) => (done, ChangeAction::Respond(Err(e))),
            ChangeEvent::Submitted(Ok(user_id)) => {
                if !same_text(form.new_password, form.new_password_check) {
                    (
                        done,
                        ChangeAction::Respond(
                            Err(HttpError { status: BAD_REQUEST, cause: Cause::PasswordsDiffer }),
                        ),
                    )
                } else {
                    (ChangeState::AwaitingEmail(user_id), ChangeAction::FetchEmail(user_id))
                }
            },
            _ => (done, out_of_order_response()),
        },
        ChangeState::AwaitingEmail(user_id) => match event {
            ChangeEvent::EmailFetched(Err(_)) => (
                done,
                ChangeAction::Respond(
                    Err(HttpError { status: INTERNAL_SERVER_ERROR, cause: Cause::StorageFailed }),
                ),
            ),
            ChangeEvent::EmailFetched(Ok(email)) => (
                ChangeState::AwaitingValidation(user_id),
                ChangeAction::Validate { email, password: form.current_password },
            ),
            _ => (done, out_of_order_response()),
        },
        ChangeState::AwaitingValidation(user_id) => match event {
            ChangeEvent::Validated(Err(AuthError::InvalidCredentials(_))) => (
                done,
                ChangeAction::Respond(
                    Err(HttpError { status: BAD_REQUEST, cause: Cause::InvalidCredentials }),
                ),
            ),
            ChangeEvent::Validated(Err(AuthError::UnexpectedError(_))) => (
                done,
                ChangeAction::Respond(
                    Err(
                        HttpError {
                            status: INTERNAL_SERVER_ERROR,
                            cause: Cause::CredentialCheckFailed,
                        },
                    ),
                ),
            ),
            ChangeEvent::Validated(Ok(_)) => (
                ChangeState::AwaitingStore,
                ChangeAction::Store { user_id, new_password: form.new_password },
            ),
            _ => (done, out_of_order_response()),
        },
        ChangeState::AwaitingStore => match event {
            ChangeEvent::Stored(Ok(_)) => (done, ChangeAction::Respond(Ok(()))),
            ChangeEvent::Stored(Err(_)) => (
                done,
                ChangeAction::Respond(
                    Err(HttpError { status: INTERNAL_SERVER_ERROR, cause: Cause::StorageFailed }),
                ),
            ),
            _ => (done, out_of_order_response()),
        },
        ChangeState::Done => (done, out_of_order_response()),
    }
}

fn out_of_order_response<'a>() -> (action: ChangeAction<'a>)
    ensures
        action@ == out_of_order().1,
{
    ChangeAction::Respond(Err(HttpError { status: INTERNAL_SERVER_ERROR, cause: Cause::OutOfOrder }))
}

/// What the outside answers to the questions of one request.
pub struct Answers {
    pub email: Result<Seq<char>, LookupFailed>,
    pub validated: Result<(u128, bool), AuthError>,
    pub stored: Result<(), StorageFailed>,
}

/// How one request ends: the response, and what was handed to the store
/// on the way, if anything was.
pub struct Ending {
    pub response: Result<(), HttpError>,
    pub handed_to_store: Option<(u128, Seq<char>)>,
}

/// A whole request: the steps from the start, each action answered from
/// `answers`, up to the response.
pub open spec fn change_password_run(
    form: FormText,
    identity: Result<u128, HttpError>,
    answers: Answers,
) -> Ending {
    let first = change_step(form, ChangeState::Start, EventText::Submitted(identity));
    match first.1 {
        ActionText::Respond(response) => Ending { response, handed_to_store: None },
        _ => {
            let second = change_step(form, first.0, EventText::EmailFetched(answers.email));
            match second.1 {
                ActionText::Respond(response) => Ending { response, handed_to_store: None },
                _ => {
                    let third = change_step(form, second.0, EventText::Validated(answers.validated));
                    match third.1 {
                        ActionText::Store { user_id, new_password } => Ending {
                            response: match change_step(
                                form,
                                third.0,
                                EventText::Stored(answers.stored),
                            ).1 {
                                ActionText::Respond(response) => response,
                                _ => out_of_order().1->Respond_0,
                            },
                            handed_to_store: Some((user_id, new_password)),
                        },
                        ActionText::Respond(response) => Ending { response, handed_to_store: None },
                        _ => Ending { response: out_of_order().1->Respond_0, handed_to_store: None },
                    }
                },
            }
        },
    }
}

/// The record of an account once a request has ended: with the new hash
/// where the store was handed the new password and kept it, and as it was
/// otherwise.
pub open spec fn record_after(
    record: StoredCredentials,
    ending: Ending,
    answers: Answers,
    new_hash: String,
) -> StoredCredentials {
    if ending.handed_to_store is Some && answers.stored is Ok {
        StoredCredentials {
            user_id: record.user_id,
            password_hash: new_hash,
            is_admin: record.is_admin,
        }
    } else {
        record
    }
}

/// A request whose two copies of the new password differ is rejected and
/// nothing is handed to the store, whatever the outside would have
/// answered: the stored credential stays as it was. With a usable identity
/// the rejection is a 400.
pub proof fn differing_passwords_change_nothing(
    form: FormText,
    identity: Result<u128, HttpError>,
    answers: Answers,
)
    requires
        form.new_password != form.new_password_check,
    ensures
        change_password_run(form, identity, answers).handed_to_store is None,
        change_password_run(form, identity, answers).response is Err,
        identity is Ok ==> change_password_run(form, identity, answers).response == Err::<
            (),
            HttpError,
        >(HttpError { status: BAD_REQUEST, cause: Cause::PasswordsDiffer }),
{
}

/// After a request whose two copies of the new password differ, the record
/// of the account is what it was, so a login is answered as it was before;
/// with the old password, which verified, it still succeeds.
pub proof fn the_old_password_outlives_a_rejected_change(
    form: FormText,
    identity: Result<u128, HttpError>,
    answers: Answers,
    record: StoredCredentials,
    new_hash: String,
    old_password: Seq<char>,
)
    requires
        form.new_password != form.new_password_check,
        argon2_check(record.password_hash@, old_password) == HashCheck::Match,
    ensures
        record_after(record, change_password_run(form, identity, answers), answers, new_hash)
            == record,
        login_verdict(
            validation(
                old_password,
                Ok(
                    Some(
                        record_after(
                            record,
                            change_password_run(form, identity, answers),
                            answers,
                            new_hash,
                        ),
                    ),
                ),
            ),
        ) == Ok::<LoginResponse, LoginRejection>(
            LoginResponse { user_id: record.user_id, is_admin: record.is_admin },
        ),
{
}

/// The store is handed a password only by a request that is answered on
/// what the store then did, and only after the current password was
/// validated; what it is handed is the new password of the form, for the
/// account of the request.
pub proof fn only_a_validated_request_reaches_the_store(
    form: FormText,
    identity: Result<u128, HttpError>,
    answers: Answers,
)
    ensures
        change_password_run(form, identity, answers).handed_to_store matches Some(handed) ==> {
            &&& identity == Ok::<u128, HttpError>(handed.0)
            &&& handed.1 == form.new_password
            &&& form.new_password == form.new_password_check
            &&& answers.email is Ok
            &&& answers.validated is Ok
        },
        change_password_run(form, identity, answers).response is Ok <==> {
            &&& change_password_run(form, identity, answers).handed_to_store is Some
            &&& answers.stored is Ok
        },
{
}

} // verus!

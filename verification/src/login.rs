//! The login exchange as a state machine: the request layer performs the
//! lookups and the offloaded password check, and reports each result as an
//! event; every decision is taken here.

use crate::outcome::{Fault, Outcome};
use crate::password::HashError;
use vstd::prelude::*;

verus! {

/// A submitted login form.
#[derive(Debug, PartialEq, Eq)]
pub struct LoginRequest {
    pub username: String,
    pub password: String,
}

/// A user as the credential store holds it.
#[derive(Debug, PartialEq, Eq)]
pub struct CredentialRecord {
    pub username: String,
    pub email: String,
    pub password_hash: String,
}

/// The store's answer to a lookup.
#[derive(Debug, PartialEq, Eq)]
pub enum Lookup {
    Found(CredentialRecord),
    NotFound,
    /// The store could not answer.
    Failed,
}

/// Where a login exchange stands.
#[derive(Debug, PartialEq, Eq)]
pub enum LoginState {
    /// Nothing was submitted yet.
    Idle,
    /// The store was asked for the user.
    AwaitingUser { form: LoginRequest },
    /// The worker pool was asked to check the password.
    AwaitingVerdict { username: String },
    /// The exchange has ended.
    Finished,
}

/// What the request layer reports.
#[derive(Debug, PartialEq, Eq)]
pub enum LoginEvent {
    /// A form arrived; `well_formed` says whether it passed the shape checks.
    Submitted { form: LoginRequest, well_formed: bool },
    /// The store answered the lookup.
    UserLookup(Lookup),
    /// The offloaded check ran and concluded.
    PasswordChecked(Result<bool, HashError>),
    /// The offloaded check did not run at all.
    WorkerFailed,
}

/// What the request layer is to do next.
#[derive(Debug, PartialEq, Eq)]
pub enum LoginAction {
    /// Ask the store for the active user of this name.
    FindUser { username: String },
    /// Check the password against the stored hash, off the request path.
    VerifyPassword { password: String, stored_hash: String },
    /// The password matched: grant a token to this user and respond with it.
    Grant { username: String },
    /// Respond and stop.
    Respond(Outcome),
}

/// The end of an exchange with the given outcome.
pub open spec fn login_ends(outcome: Outcome) -> (LoginState, LoginAction) {
    (LoginState::Finished, LoginAction::Respond(outcome))
}

/// The outcome of a password check that did not succeed, or `None` where it
/// succeeded.
pub open spec fn refusal(verdict: Result<bool, HashError>) -> Option<Outcome> {
    match verdict {
        Ok(true) => None,
        Ok(false) => Some(Outcome::Unauthorized),
        Err(HashError::MalformedHash) => Some(Outcome::Internal(Fault::CorruptHash)),
        Err(HashError::Hashing) => Some(Outcome::Internal(Fault::Hashing)),
    }
}

/// The transition relation of the login exchange.
pub open spec fn login_next(state: LoginState, event: LoginEvent) -> (LoginState, LoginAction) {
    match (state, event) {
        (LoginState::Idle, LoginEvent::Submitted { form, well_formed }) => if well_formed {
            (LoginState::AwaitingUser { form }, LoginAction::FindUser { username: form.username })
        } else {
            login_ends(Outcome::Invalid)
        },
        (LoginState::AwaitingUser { form }, LoginEvent::UserLookup(Lookup::Found(record))) => (
            LoginState::AwaitingVerdict { username: form.username },
            LoginAction::VerifyPassword {
                password: form.password,
                stored_hash: record.password_hash,
            },
        ),
        (LoginState::AwaitingUser { .. }, LoginEvent::UserLookup(Lookup::NotFound)) => login_ends(
            Outcome::Unauthorized,
        ),
        (LoginState::AwaitingUser { .. }, LoginEvent::UserLookup(Lookup::Failed)) => login_ends(
            Outcome::Internal(Fault::Store),
        ),
        (
            LoginState::AwaitingVerdict { username },
            LoginEvent::PasswordChecked(verdict),
        ) => match refusal(verdict) {
            None => (LoginState::Finished, LoginAction::Grant { username }),
            Some(outcome) => login_ends(outcome),
        },
        (LoginState::AwaitingVerdict { .. }, LoginEvent::WorkerFailed) => login_ends(
            Outcome::Internal(Fault::Worker),
        ),
        _ => login_ends(Outcome::Internal(Fault::OutOfTurn)),
    }
}

/// One step of the login exchange: from where it stands and what was
/// reported to where it stands next and what is to be done.
pub fn login(state: LoginState, event: LoginEvent) -> (r: (LoginState, LoginAction))
    ensures
        r == login_next(state, event),
{
    match (state, event) {
        (LoginState::Idle, LoginEvent::Submitted { form, well_formed }) => {
            if well_formed {
                let username = form.username.clone();
                (LoginState::AwaitingUser { form }, LoginAction::FindUser { username })
            } else {
                (LoginState::Finished, LoginAction::Respond(Outcome::Invalid))
            }
        },
        (LoginState::AwaitingUser { form }, LoginEvent::UserLookup(Lookup::Found(record))) => (
            LoginState::AwaitingVerdict { username: form.username },
            LoginAction::VerifyPassword {
                password: form.password,
                stored_hash: record.password_hash,
            },
        ),
        (LoginState::AwaitingUser { .. }, LoginEvent::UserLookup(Lookup::NotFound)) => (
            LoginState::Finished,
            LoginAction::Respond(Outcome::Unauthorized),
        ),
        (LoginState::AwaitingUser { .. }, LoginEvent::UserLookup(Lookup::Failed)) => (
            LoginState::Finished,
            LoginAction::Respond(Outcome::Internal(Fault::Store)),
        ),
        (LoginState::AwaitingVerdict { username }, LoginEvent::PasswordChecked(verdict)) => {
            match verdict {
                Ok(true) => (LoginState::Finished, LoginAction::Grant { username }),
                Ok(false) => (LoginState::Finished, LoginAction::Respond(Outcome::Unauthorized)),
                Err(HashError::MalformedHash) => (
                    LoginState::Finished,
                    LoginAction::Respond(Outcome::Internal(Fault::CorruptHash)),
                ),
                Err(HashError::Hashing) => (
                    LoginState::Finished,
                    LoginAction::Respond(Outcome::Internal(Fault::Hashing)),
                ),
            }
        },
        (LoginState::AwaitingVerdict { .. }, LoginEvent::WorkerFailed) => (
            LoginState::Finished,
            LoginAction::Respond(Outcome::Internal(Fault::Worker)),
        ),
        _ => (LoginState::Finished, LoginAction::Respond(Outcome::Internal(Fault::OutOfTurn))),
    }
}

/// An unknown user and a wrong password end the exchange in the same way:
/// the response does not tell which of the two it was.
pub proof fn lemma_unknown_user_like_wrong_password(form: LoginRequest, username: String)
    ensures
        login_next(LoginState::AwaitingUser { form }, LoginEvent::UserLookup(Lookup::NotFound))
            == login_next(
            LoginState::AwaitingVerdict { username },
            LoginEvent::PasswordChecked(Ok(false)),
        ),
        login_next(LoginState::AwaitingUser { form }, LoginEvent::UserLookup(Lookup::NotFound))
            == login_ends(Outcome::Unauthorized),
{
}

/// A token is granted in exactly one situation: the check that was awaited
/// ran and accepted the password. The grant names the user that was looked up.
pub proof fn lemma_grant_only_after_match(state: LoginState, event: LoginEvent)
    ensures
        login_next(state, event).1 is Grant <==> (state is AwaitingVerdict && event
            == LoginEvent::PasswordChecked(Ok(true))),
        login_next(state, event).1 matches LoginAction::Grant { username } ==> state
            == (LoginState::AwaitingVerdict { username }),
{
}

/// A step either asks for outside work and waits for its result, or responds
/// (with an outcome or a grant) and finishes: no exchange goes on after its
/// response, and none stops without one.
pub proof fn lemma_login_finishes_with_response(state: LoginState, event: LoginEvent)
    ensures
        login_next(state, event).0 is Finished <==> (login_next(state, event).1 is Respond
            || login_next(state, event).1 is Grant),
        login_next(state, event).0 !is Idle,
{
}

} // verus!

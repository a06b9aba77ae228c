//! The registration exchange as a state machine: the request layer performs
//! the lookup, the offloaded hashing and the insertion, and reports each
//! result as an event; every decision is taken here.

use crate::login::{CredentialRecord, Lookup};
use crate::outcome::{Conflict, Fault, Outcome};
use crate::password::HashError;
use vstd::prelude::*;

verus! {

/// A submitted registration form.
#[derive(Debug, PartialEq, Eq)]
pub struct RegisterRequest {
    pub username: String,
    pub email: String,
    pub password: String,
}

/// The store's answer to an insertion.
#[derive(Debug, Clone, Copy, PartialEq, Eq, Structural)]
pub enum Insertion {
    Stored { user_id: i64 },
    /// A uniqueness rule of the store refused the user.
    Duplicate,
    /// The store failed otherwise.
    Failed,
}

/// Where a registration exchange stands.
#[derive(Debug, PartialEq, Eq)]
pub enum RegisterState {
    /// Nothing was submitted yet.
    Idle,
    /// The store was asked for a user with this name or email.
    AwaitingExisting { form: RegisterRequest },
    /// The worker pool was asked to hash the password.
    AwaitingHash { username: String, email: String },
    /// The store was asked to insert the user.
    AwaitingInsertion,
    /// The exchange has ended.
    Finished,
}

/// What the request layer reports.
#[derive(Debug, PartialEq, Eq)]
pub enum RegisterEvent {
    /// A form arrived; `well_formed` says whether it passed the shape checks.
    Submitted { form: RegisterRequest, well_formed: bool },
    /// The store answered the lookup by name or email.
    ExistingLookup(Lookup),
    /// The offloaded hashing ran and concluded.
    Hashed(Result<String, HashError>),
    /// The offloaded hashing did not run at all.
    WorkerFailed,
    /// The store answered the insertion.
    Inserted(Insertion),
}

/// What the request layer is to do next.
#[derive(Debug, PartialEq, Eq)]
pub enum RegisterAction {
    /// Ask the store for any user with this name or this email.
    FindExisting { username: String, email: String },
    /// Hash the password, off the request path.
    HashPassword { password: String },
    /// Insert the user with the hash in place of the password.
    Insert { username: String, email: String, password_hash: String },
    /// Respond and stop.
    Respond(Outcome),
}

/// The end of an exchange with the given outcome.
pub open spec fn register_ends(outcome: Outcome) -> (RegisterState, RegisterAction) {
    (RegisterState::Finished, RegisterAction::Respond(outcome))
}

/// Which rule a found user breaks: the name is looked at first, then the
/// email; a user that shares neither as written is still a conflict.
pub open spec fn conflict_with(
    found_username: Seq<char>,
    found_email: Seq<char>,
    username: Seq<char>,
    email: Seq<char>,
) -> Conflict {
    if found_username == username {
        Conflict::Username
    } else if found_email == email {
        Conflict::Email
    } else {
        Conflict::UsernameOrEmail
    }
}

/// The outcome of an insertion.
pub open spec fn insertion_outcome(insertion: Insertion) -> Outcome {
    match insertion {
        Insertion::Stored { user_id } => Outcome::Registered { user_id },
        Insertion::Duplicate => Outcome::Conflict(Conflict::Details),
        Insertion::Failed => Outcome::Internal(Fault::Store),
    }
}

/// The transition relation of the registration exchange.
pub open spec fn register_next(state: RegisterState, event: RegisterEvent) -> (
    RegisterState,
    RegisterAction,
) {
    match (state, event) {
        (RegisterState::Idle, RegisterEvent::Submitted { form, well_formed }) => if well_formed {
            (
                RegisterState::AwaitingExisting { form },
                RegisterAction::FindExisting { username: form.username, email: form.email },
            )
        } else {
            register_ends(Outcome::Invalid)
        },
        (
            RegisterState::AwaitingExisting { form },
            RegisterEvent::ExistingLookup(Lookup::Found(found)),
        ) => register_ends(
            Outcome::Conflict(
                conflict_with(found.username@, found.email@, form.username@, form.email@),
            ),
        ),
        (
            RegisterState::AwaitingExisting { form },
            RegisterEvent::ExistingLookup(Lookup::NotFound),
        ) => (
            RegisterState::AwaitingHash { username: form.username, email: form.email },
            RegisterAction::HashPassword { password: form.password },
        ),
        (
            RegisterState::AwaitingExisting { .. },
            RegisterEvent::ExistingLookup(Lookup::Failed),
        ) => register_ends(Outcome::Internal(Fault::Store)),
        (
            RegisterState::AwaitingHash { username, email },
            RegisterEvent::Hashed(Ok(password_hash)),
        ) => (
            RegisterState::AwaitingInsertion,
            RegisterAction::Insert { username, email, password_hash },
        ),
        (RegisterState::AwaitingHash { .. }, RegisterEvent::Hashed(Err(_))) => register_ends(
            Outcome::Internal(Fault::Hashing),
        ),
        (RegisterState::AwaitingHash { .. }, RegisterEvent::WorkerFailed) => register_ends(
            Outcome::Internal(Fault::Worker),
        ),
        (RegisterState::AwaitingInsertion, RegisterEvent::Inserted(insertion)) => register_ends(
            insertion_outcome(insertion),
        ),
        _ => register_ends(Outcome::Internal(Fault::OutOfTurn)),
    }
}

/// Which rule a found user breaks.
pub fn conflict_of(found: &CredentialRecord, form: &RegisterRequest) -> (r: Conflict)
    ensures
        r == conflict_with(found.username@, found.email@, form.username@, form.email@),
{
    if found.username == form.username {
        Conflict::Username
    } else if found.email == form.email {
        Conflict::Email
    } else {
        Conflict::UsernameOrEmail
    }
}

/// One step of the registration exchange: from where it stands and what was
/// reported to where it stands next and what is to be done.
pub fn register(state: RegisterState, event: RegisterEvent) -> (r: (RegisterState, RegisterAction))
    ensures
        r == register_next(state, event),
{
    match (state, event) {
        (RegisterState::Idle, RegisterEvent::Submitted { form, well_formed }) => {
            if well_formed {
                let username = form.username.clone();
                let email = form.email.clone();
                (
                    RegisterState::AwaitingExisting { form },
                    RegisterAction::FindExisting { username, email },
                )
            } else {
                (RegisterState::Finished, RegisterAction::Respond(Outcome::Invalid))
            }
        },
        (
            RegisterState::AwaitingExisting { form },
            RegisterEvent::ExistingLookup(Lookup::Found(found)),
        ) => {
            let conflict = conflict_of(&found, &form);
            (RegisterState::Finished, RegisterAction::Respond(Outcome::Conflict(conflict)))
        },
        (
            RegisterState::AwaitingExisting { form },
            RegisterEvent::ExistingLookup(Lookup::NotFound),
        ) => (
            RegisterState::AwaitingHash { username: form.username, email: form.email },
            RegisterAction::HashPassword { password: form.password },
        ),
        (
            RegisterState::AwaitingExisting { .. },
            RegisterEvent::ExistingLookup(Lookup::Failed),
        ) => (RegisterState::Finished, RegisterAction::Respond(Outcome::Internal(Fault::Store))),
        (
            RegisterState::AwaitingHash { username, email },
            RegisterEvent::Hashed(Ok(password_hash)),
        ) => (
            RegisterState::AwaitingInsertion,
            RegisterAction::Insert { username, email, password_hash },
        ),
        (RegisterState::AwaitingHash { .. }, RegisterEvent::Hashed(Err(_))) => (
            RegisterState::Finished,
            RegisterAction::Respond(Outcome::Internal(Fault::Hashing)),
        ),
        (RegisterState::AwaitingHash { .. }, RegisterEvent::WorkerFailed) => (
            RegisterState::Finished,
            RegisterAction::Respond(Outcome::Internal(Fault::Worker)),
        ),
        (RegisterState::AwaitingInsertion, RegisterEvent::Inserted(insertion)) => {
            let outcome = match insertion {
                Insertion::Stored { user_id } => Outcome::Registered { user_id },
                Insertion::Duplicate => Outcome::Conflict(Conflict::Details),
                Insertion::Failed => Outcome::Internal(Fault::Store),
            };
            (RegisterState::Finished, RegisterAction::Respond(outcome))
        },
        _ => (
            RegisterState::Finished,
            RegisterAction::Respond(Outcome::Internal(Fault::OutOfTurn)),
        ),
    }
}

/// Whatever user the store finds for a name or an email, the registration is
/// refused as a conflict, and nothing is hashed or inserted.
pub proof fn lemma_found_user_is_conflict(form: RegisterRequest, found: CredentialRecord)
    ensures
        register_next(
            RegisterState::AwaitingExisting { form },
            RegisterEvent::ExistingLookup(Lookup::Found(found)),
        ).1 matches RegisterAction::Respond(outcome) && outcome is Conflict
            && outcome.status_code() == 409,
{
}

/// The password leaves the exchange only towards the hasher, and what is
/// inserted is the hash that came back, under the submitted name and email.
pub proof fn lemma_only_the_hash_is_stored(form: RegisterRequest, password_hash: String)
    ensures
        ({
            let asked = register_next(
                RegisterState::AwaitingExisting { form },
                RegisterEvent::ExistingLookup(Lookup::NotFound),
            );
            let stored = register_next(asked.0, RegisterEvent::Hashed(Ok(password_hash)));
            &&& asked.1 == (RegisterAction::HashPassword { password: form.password })
            &&& stored.1 == (RegisterAction::Insert {
                username: form.username,
                email: form.email,
                password_hash,
            })
        }),
{
}

/// A step either asks for outside work and waits for its result, or responds
/// and finishes.
pub proof fn lemma_register_finishes_with_response(state: RegisterState, event: RegisterEvent)
    ensures
        register_next(state, event).0 is Finished <==> register_next(state, event).1 is Respond,
        register_next(state, event).0 !is Idle,
{
}

} // verus!

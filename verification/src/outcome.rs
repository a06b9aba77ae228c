//! The closed set of outcomes that the request layer maps to responses.

use crate::token::{encode_jwt, hs256_opened, structural_outcome, TokenConfig};
use vstd::prelude::*;

verus! {

/// What went wrong inside. The request layer answers all of them alike; the
/// distinction is for operators.
#[derive(Debug, Clone, Copy, PartialEq, Eq, Structural)]
pub enum Fault {
    /// The credential store failed.
    Store,
    /// The worker pool did not run the task.
    Worker,
    /// The key derivation did not complete.
    Hashing,
    /// A stored hash does not parse: the stored data is corrupt.
    CorruptHash,
    /// No token could be issued.
    Token,
    /// An event arrived that the exchange was not waiting for.
    OutOfTurn,
}

/// Which uniqueness rule a registration ran into.
#[derive(Debug, Clone, Copy, PartialEq, Eq, Structural)]
pub enum Conflict {
    /// The user found by the store has the requested username.
    Username,
    /// The user found by the store has the requested email.
    Email,
    /// The store found a user that shares neither as written.
    UsernameOrEmail,
    /// The store refused the insertion as a duplicate.
    Details,
}

/// How an exchange ended.
#[derive(Debug, PartialEq, Eq)]
pub enum Outcome {
    LoggedIn { token: String },
    Registered { user_id: i64 },
    /// The submitted form did not pass the request layer's checks.
    Invalid,
    /// Unknown user or wrong password: the caller is not told which.
    Unauthorized,
    Conflict(Conflict),
    Internal(Fault),
}

impl Outcome {
    /// The status code of the response.
    pub open spec fn status_code(self) -> u16 {
        match self {
            Outcome::LoggedIn { .. } => 200,
            Outcome::Registered { .. } => 201,
            Outcome::Invalid => 400,
            Outcome::Unauthorized => 401,
            Outcome::Conflict(_) => 409,
            Outcome::Internal(_) => 500,
        }
    }

    /// The message of the response.
    pub open spec fn message_text(self) -> Seq<char> {
        match self {
            Outcome::LoggedIn { .. } => "Login successful"@,
            Outcome::Registered { .. } => "User registered successfully"@,
            Outcome::Invalid => "Validation error"@,
            Outcome::Unauthorized => "invalid credentials"@,
            Outcome::Conflict(Conflict::Username) => "username already exists"@,
            Outcome::Conflict(Conflict::Email) => "email already exists"@,
            Outcome::Conflict(Conflict::UsernameOrEmail) => "user/email already exists"@,
            Outcome::Conflict(Conflict::Details) => "User with provided details already exists"@,
            Outcome::Internal(_) => "Internal server error"@,
        }
    }

    /// The status code of the response.
    pub fn status(&self) -> (r: u16)
        ensures
            r == self.status_code(),
    {
        match self {
            Outcome::LoggedIn { .. } => 200,
            Outcome::Registered { .. } => 201,
            Outcome::Invalid => 400,
            Outcome::Unauthorized => 401,
            Outcome::Conflict(_) => 409,
            Outcome::Internal(_) => 500,
        }
    }

    /// The message of the response. Every internal fault has the same one.
    pub fn message(&self) -> (r: &'static str)
        ensures
            r@ == self.message_text(),
    {
        match self {
            Outcome::LoggedIn { .. } => "Login successful",
            Outcome::Registered { .. } => "User registered successfully",
            Outcome::Invalid => "Validation error",
            Outcome::Unauthorized => "invalid credentials",
            Outcome::Conflict(Conflict::Username) => "username already exists",
            Outcome::Conflict(Conflict::Email) => "email already exists",
            Outcome::Conflict(Conflict::UsernameOrEmail) => "user/email already exists",
            Outcome::Conflict(Conflict::Details) => "User with provided details already exists",
            Outcome::Internal(_) => "Internal server error",
        }
    }
}

/// Grants a token to a user whose password matched: the login succeeds with a
/// token for `username` whose expiry lies one validity window after its issue,
/// or ends in a fault where none can be issued.
pub fn grant(username: String, config: &TokenConfig) -> (r: Outcome)
    ensures
        match r {
            Outcome::LoggedIn { token } => structural_outcome(
                hs256_opened(token@, config.secret()),
            ) matches Ok(c) && c.sub == username@ && c.exp == c.iat + config.validity() && c.exp
                > c.iat,
            Outcome::Internal(fault) => fault == Fault::Token,
            _ => false,
        },
{
    match encode_jwt(username, config) {
        Ok(token) => Outcome::LoggedIn { token },
        Err(_) => Outcome::Internal(Fault::Token),
    }
}

/// Every internal fault is answered alike, and so are an unknown user and a
/// wrong password, which share one outcome.
pub proof fn lemma_faults_answered_alike(a: Fault, b: Fault)
    ensures
        Outcome::Internal(a).status_code() == Outcome::Internal(b).status_code(),
        Outcome::Internal(a).message_text() == Outcome::Internal(b).message_text(),
{
}

} // verus!

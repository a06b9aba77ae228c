//! Admission of a request by the bearer token in its `Authorization` header.

use crate::clock::unix_now;
use crate::token::{
    decode_jwt_at, hs256_opened, validation_outcome, Claims, ClaimsView, TokenConfig, TokenError,
};
use vstd::prelude::*;

verus! {

/// The identity that a request has proved by its token.
#[derive(Debug)]
pub struct AuthenticatedUser {
    pub username: String,
}

/// The `Authorization` header as the request layer found it.
#[derive(Debug)]
pub enum AuthorizationHeader {
    /// The request has no such header.
    Missing,
    /// The header's value is not visible text.
    Unreadable,
    /// The header's value.
    Text(String),
}

/// Why a request was not admitted.
#[derive(Debug, Clone, Copy, PartialEq, Eq, Structural)]
pub enum AuthRejection {
    MissingHeader,
    InvalidHeader,
    InvalidScheme,
    /// The token was refused; the caller is not told why.
    InvalidToken,
}

/// The scheme word and the blank that precede a bearer token.
pub open spec fn bearer_prefix() -> Seq<char> {
    seq!['B', 'e', 'a', 'r', 'e', 'r', ' ']
}

/// The token in a header value: what follows the prefix, if the value starts
/// with it.
pub open spec fn bearer_token(header: Seq<char>) -> Option<Seq<char>> {
    if header.len() >= 7 && header.subrange(0, 7) == bearer_prefix() {
        Some(header.subrange(7, header.len() as int))
    } else {
        None
    }
}

/// The token that a header presents, or the reason why it presents none.
pub open spec fn presented_token(header: AuthorizationHeader) -> Result<Seq<char>, AuthRejection> {
    match header {
        AuthorizationHeader::Missing => Err(AuthRejection::MissingHeader),
        AuthorizationHeader::Unreadable => Err(AuthRejection::InvalidHeader),
        AuthorizationHeader::Text(text) => match bearer_token(text@) {
            Some(token) => Ok(token),
            None => Err(AuthRejection::InvalidScheme),
        },
    }
}

/// The identity that validated claims prove; every refusal of a token is the
/// same rejection.
pub open spec fn admitted(validated: Result<ClaimsView, TokenError>) -> Result<
    Seq<char>,
    AuthRejection,
> {
    match validated {
        Ok(claims) => Ok(claims.sub),
        Err(_) => Err(AuthRejection::InvalidToken),
    }
}

/// Whom a request with this header is admitted as at `now`.
pub open spec fn admission_outcome(
    header: AuthorizationHeader,
    secret: Seq<char>,
    now: int,
    leeway: nat,
) -> Result<Seq<char>, AuthRejection> {
    match presented_token(header) {
        Ok(token) => admitted(validation_outcome(hs256_opened(token, secret), now, leeway)),
        Err(rejection) => Err(rejection),
    }
}

/// A presented token, or the reason for its absence, as a mathematical value.
pub open spec fn presented_view(r: Result<&str, AuthRejection>) -> Result<Seq<char>, AuthRejection> {
    match r {
        Ok(token) => Ok(token@),
        Err(rejection) => Err(rejection),
    }
}

/// An admission result as a mathematical value.
pub open spec fn admission_view(r: Result<AuthenticatedUser, AuthRejection>) -> Result<
    Seq<char>,
    AuthRejection,
> {
    match r {
        Ok(user) => Ok(user.username@),
        Err(rejection) => Err(rejection),
    }
}

/// The token in a header value: the text after `Bearer `, or `None` where the
/// value does not start with that prefix.
pub fn bearer_token_of(header: &str) -> (r: Option<&str>)
    ensures
        match r {
            Some(token) => bearer_token(header@) == Some(token@),
            None => bearer_token(header@) is None,
        },
{
    let n: usize = header.unicode_len();
    if n < 7 {
        return None;
    }
    let starts = header.get_char(0) == 'B' && header.get_char(1) == 'e' && header.get_char(2) == 'a'
        && header.get_char(3) == 'r' && header.get_char(4) == 'e' && header.get_char(5) == 'r'
        && header.get_char(6) == ' ';
    if starts {
        assert(header@.subrange(0, 7) =~= bearer_prefix());
        Some(header.substring_char(7, n))
    } else {
        assert(header@.subrange(0, 7) != bearer_prefix()) by {
            let head = header@.subrange(0, 7);
            if head == bearer_prefix() {
                assert(head[0] == 'B' && head[1] == 'e' && head[2] == 'a' && head[3] == 'r');
                assert(head[4] == 'e' && head[5] == 'r' && head[6] == ' ');
            }
        }
        None
    }
}

/// The token that a header presents, or the reason why it presents none.
pub fn authorization_token(header: &AuthorizationHeader) -> (r: Result<&str, AuthRejection>)
    ensures
        presented_view(r) == presented_token(*header),
{
    match header {
        AuthorizationHeader::Missing => Err(AuthRejection::MissingHeader),
        AuthorizationHeader::Unreadable => Err(AuthRejection::InvalidHeader),
        AuthorizationHeader::Text(text) => match bearer_token_of(text.as_str()) {
            Some(token) => Ok(token),
            None => Err(AuthRejection::InvalidScheme),
        },
    }
}

impl AuthenticatedUser {
    /// The identity that validated claims prove.
    pub fn from_claims(validated: Result<Claims, TokenError>) -> (r: Result<
        AuthenticatedUser,
        AuthRejection,
    >)
        ensures
            match validated {
                Ok(claims) => r matches Ok(user) && user.username == claims.sub,
                Err(_) => r matches Err(rejection) && rejection == AuthRejection::InvalidToken,
            },
    {
        match validated {
            Ok(claims) => Ok(AuthenticatedUser { username: claims.sub }),
            Err(_) => Err(AuthRejection::InvalidToken),
        }
    }

    /// Admits a request by its header as if the clock read `now`.
    pub fn from_request_at(header: &AuthorizationHeader, now: i64, config: &TokenConfig) -> (r:
        Result<AuthenticatedUser, AuthRejection>)
        ensures
            admission_view(r) == admission_outcome(
                *header,
                config.secret(),
                now as int,
                config.leeway(),
            ),
    {
        match authorization_token(header) {
            Ok(token) => AuthenticatedUser::from_claims(decode_jwt_at(token, now, config)),
            Err(rejection) => Err(rejection),
        }
    }

    /// Admits a request by its header at the present instant. A header that
    /// presents no token is rejected for that reason whatever the clock reads.
    pub fn from_request(header: &AuthorizationHeader, config: &TokenConfig) -> (r: Result<
        AuthenticatedUser,
        AuthRejection,
    >)
        ensures
            exists|now: int| admission_view(r) == #[trigger] admission_outcome(
                *header,
                config.secret(),
                now,
                config.leeway(),
            ),
            presented_token(*header) matches Err(rejection) ==> (r matches Err(e) && e
                == rejection),
    {
        let now: i64 = unix_now();
        let r = AuthenticatedUser::from_request_at(header, now, config);
        assert(admission_view(r) == admission_outcome(
            *header,
            config.secret(),
            now as int,
            config.leeway(),
        ));
        r
    }
}

impl AuthRejection {
    /// The text sent with the rejection.
    pub open spec fn message_text(self) -> Seq<char> {
        match self {
            AuthRejection::MissingHeader => "Authorization header missing"@,
            AuthRejection::InvalidHeader => "Invalid Authorization header"@,
            AuthRejection::InvalidScheme => "Invalid Authorization scheme"@,
            AuthRejection::InvalidToken => "Invalid or expired token"@,
        }
    }

    /// The text sent with the rejection.
    pub fn message(&self) -> (r: &'static str)
        ensures
            r@ == self.message_text(),
    {
        match self {
            AuthRejection::MissingHeader => "Authorization header missing",
            AuthRejection::InvalidHeader => "Invalid Authorization header",
            AuthRejection::InvalidScheme => "Invalid Authorization scheme",
            AuthRejection::InvalidToken => "Invalid or expired token",
        }
    }
}

} // verus!

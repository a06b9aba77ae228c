//! Authentication core: salted password hashing and verification, signed
//! time-bound bearer tokens, and the decisions of the login and registration
//! exchanges. Every function is verified; the cryptography itself is done by
//! `argon2` and `jsonwebtoken`, whose results the contracts refer to by name.

mod clock;
pub mod password;
pub mod register;
pub mod bearer;
pub mod login;
pub mod outcome;
pub mod token;

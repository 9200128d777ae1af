//! The values that requests and replies carry, and the token settings the
//! handlers work with.

use vstd::prelude::*;

verus! {

/// The token settings the request handlers use.
pub struct JWTSettings {
    pub secret: String,
    pub expiration: i32,
}

/// The body of a login request.
pub struct LoginPayload {
    pub username: String,
    pub password: String,
}

/// The body of a sign-up request.
pub struct SignupPayload {
    pub username: String,
    pub password: String,
}

/// The reply to a successful login or sign-up: a signed token.
pub struct LoginResponse {
    pub token: String,
}

/// The reply to "who am I": the name and id carried by the caller's token.
pub struct WhoAmIResponse {
    pub username: String,
    pub id: i32,
}

/// A user row as the database hands it back: its id and name.
pub struct UserRow {
    pub id: i32,
    pub username: String,
}

/// A database call that did not succeed.
#[derive(PartialEq, Eq, Structural)]
pub struct DbError;

/// The HTTP statuses with which a request is refused.
#[derive(PartialEq, Eq, Structural, Clone, Copy, Debug)]
pub enum StatusCode {
    BadRequest,
    Unauthorized,
    InternalServerError,
}

impl StatusCode {
    /// The numeric HTTP status.
    pub fn as_u16(&self) -> (n: u16)
        ensures
            n == match *self {
                StatusCode::BadRequest => 400u16,
                StatusCode::Unauthorized => 401u16,
                StatusCode::InternalServerError => 500u16,
            },
    {
        match self {
            StatusCode::BadRequest => 400,
            StatusCode::Unauthorized => 401,
            StatusCode::InternalServerError => 500,
        }
    }
}

} // verus!

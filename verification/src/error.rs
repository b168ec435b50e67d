//! The ways a request can fail to authenticate.

use vstd::prelude::*;

verus! {

/// Why a request was turned away.
#[derive(Debug, Clone, Copy, PartialEq, Eq, Structural)]
pub enum AuthError {
    /// The credentials did not match the account.
    WrongCredentials,
    /// The username or the password was empty.
    MissingCredentials,
    /// The session cookie was absent or unusable.
    InvalidToken,
}

/// HTTP status for a rejected login with a missing field.
pub const STATUS_BAD_REQUEST: u16 = 400;

/// HTTP status for a request that could not be authenticated.
pub const STATUS_UNAUTHORIZED: u16 = 401;

impl AuthError {
    /// The status each error is reported with.
    pub open spec fn spec_status_code(self) -> u16 {
        match self {
            AuthError::WrongCredentials => STATUS_UNAUTHORIZED,
            AuthError::MissingCredentials => STATUS_BAD_REQUEST,
            AuthError::InvalidToken => STATUS_UNAUTHORIZED,
        }
    }

    /// The text each error is reported with.
    pub open spec fn spec_message(self) -> Seq<char> {
        match self {
            AuthError::WrongCredentials => "Wrong credentials"@,
            AuthError::MissingCredentials => "Missing credentials"@,
            AuthError::InvalidToken => "Invalid session"@,
        }
    }

    /// The HTTP status code of this error.
    pub fn status_code(&self) -> (code: u16)
        ensures
            code == self.spec_status_code(),
    {
        match self {
            AuthError::WrongCredentials => STATUS_UNAUTHORIZED,
            AuthError::MissingCredentials => STATUS_BAD_REQUEST,
            AuthError::InvalidToken => STATUS_UNAUTHORIZED,
        }
    }

    /// The message shown to the client for this error.
    pub fn message(&self) -> (text: String)
        ensures
            text@ == self.spec_message(),
    {
        match self {
            AuthError::WrongCredentials => String::from_str("Wrong credentials"),
            AuthError::MissingCredentials => String::from_str("Missing credentials"),
            AuthError::InvalidToken => String::from_str("Invalid session"),
        }
    }
}

} // verus!

//! From a request to the identity behind it.

use vstd::prelude::*;

use crate::error::AuthError;
use crate::session::{
    decode, decode_spec, expired_cookie, identity_of, session_cookie, valid_username, AuthUser,
};

verus! {

/// The text of an optional header value.
pub open spec fn header_text(cookie_header: Option<&str>) -> Option<Seq<char>> {
    match cookie_header {
        Some(raw) => Some(raw@),
        None => None,
    }
}

/// The identity behind a request, from its `Cookie` header if it has one.
pub open spec fn extraction(cookie_header: Option<Seq<char>>) -> Result<Seq<char>, AuthError> {
    match cookie_header {
        Some(raw) => decode_spec(raw),
        None => Err(AuthError::InvalidToken),
    }
}

impl AuthUser {
    /// Recovers the identity behind a request from the value of its
    /// `Cookie` header. A request without the header has no session, and
    /// every failure is an invalid token.
    pub fn from_request_parts(cookie_header: Option<&str>) -> (r: Result<AuthUser, AuthError>)
        ensures
            identity_of(r) == extraction(header_text(cookie_header)),
            r matches Err(e) ==> e == AuthError::InvalidToken,
            cookie_header is None ==> r is Err,
            forall|username: Seq<char>, ttl: int|
                valid_username(username) && header_text(cookie_header) == Some(
                    #[trigger] session_cookie(username, ttl),
                ) ==> identity_of(r) == Ok::<Seq<char>, AuthError>(username),
            header_text(cookie_header) == Some(expired_cookie()) ==> r is Err,
    {
        match cookie_header {
            Some(raw) => decode(raw),
            None => Err(AuthError::InvalidToken),
        }
    }
}

} // verus!

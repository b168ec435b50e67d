//! What each request is answered with.

use vstd::prelude::*;

use crate::account::{
    credentials_match, has_empty_field, validate, validation, LoginCredentials, StoredSecret,
};
use crate::error::AuthError;
use crate::extractor::{extraction, header_text};
use crate::response::{
    error_response, field, message_response, respond_with_message, AuthResponse, JsonField,
    ResponseModel, STATUS_OK,
};
use crate::session::{
    encode, encode_expired, expired_cookie, lemma_login_cookie_text, session_cookie, session_ttl,
    valid_username, AuthUser, SESSION_TTL_SECONDS,
};

verus! {

/// The reply to a login attempt with the given outcome: on success the
/// session cookie for a day, else the error's reply.
pub open spec fn login_response(outcome: Result<Seq<char>, AuthError>) -> ResponseModel {
    match outcome {
        Ok(username) => message_response(
            "Login successful"@,
            Some(session_cookie(username, SESSION_TTL_SECONDS as int)),
        ),
        Err(error) => error_response(error),
    }
}

/// The greeting shown to an authenticated user.
pub open spec fn greeting(username: Seq<char>) -> Seq<char> {
    "Hello, "@ + username + "!"@
}

/// The reply of the protected resource to `username`.
pub open spec fn protected_response(username: Seq<char>) -> ResponseModel {
    ResponseModel {
        status: STATUS_OK,
        body: seq![("message"@, greeting(username)), ("status"@, "authenticated"@)],
        set_cookie: None,
    }
}

/// The reply to a logout: the session cookie is cleared.
pub open spec fn logout_response() -> ResponseModel {
    message_response("Logged out successfully"@, Some(expired_cookie()))
}

/// The reply to a request for the protected resource whose session was
/// read with the given result.
pub open spec fn guarded_response(session: Result<Seq<char>, AuthError>) -> ResponseModel {
    match session {
        Ok(username) => protected_response(username),
        Err(error) => error_response(error),
    }
}

/// Answers a login attempt.
///
/// Empty credentials get 400, the known account with its password gets
/// 200 and a session cookie for a day, anything else gets 401.
pub fn login(secret: &StoredSecret, credentials: &LoginCredentials) -> (r: AuthResponse)
    ensures
        r@ == login_response(validation(*secret, *credentials)),
        has_empty_field(*credentials) ==> r@.status == 400 && r@ == error_response(
            AuthError::MissingCredentials,
        ),
        !has_empty_field(*credentials) && credentials_match(*secret, *credentials) ==> r@.status
            == 200 && r@.set_cookie == Some(
            session_cookie(secret.username@, SESSION_TTL_SECONDS as int),
        ) && r@.set_cookie == Some(
            "session_user="@ + secret.username@ + "; HttpOnly; Max-Age=86400; Path=/"@,
        ),
        !has_empty_field(*credentials) && !credentials_match(*secret, *credentials) ==> r@.status
            == 401 && r@ == error_response(AuthError::WrongCredentials),
{
    proof {
        lemma_login_cookie_text(secret.username@);
    }
    match validate(credentials, secret) {
        Ok(user) => {
            let cookie = encode(&user, session_ttl());
            respond_with_message("Login successful", Some(cookie))
        },
        Err(error) => error.into_response(),
    }
}

/// Answers an authenticated request for the protected resource.
pub fn protected(auth_user: &AuthUser) -> (r: AuthResponse)
    ensures
        r@ == protected_response(auth_user.username@),
{
    let mut message = String::from_str("Hello, ");
    message.append(auth_user.username.as_str());
    message.append("!");
    let mut body: Vec<JsonField> = Vec::new();
    body.push(field("message", message));
    body.push(field("status", String::from_str("authenticated")));
    let r = AuthResponse { status: STATUS_OK, body, set_cookie: None };
    assert(r@.body =~= protected_response(auth_user.username@).body);
    r
}

/// Answers a logout. No session is needed, and every call gives the same
/// reply.
pub fn logout() -> (r: AuthResponse)
    ensures
        r@ == logout_response(),
{
    respond_with_message("Logged out successfully", Some(encode_expired()))
}

/// Logging out is idempotent: any two replies of `logout` are the same,
/// and both clear the session cookie.
pub proof fn lemma_logout_idempotent(first: AuthResponse, second: AuthResponse)
    requires
        first@ == logout_response(),
        second@ == logout_response(),
    ensures
        first@ == second@,
        first@.set_cookie == Some(expired_cookie()),
        second@.set_cookie == Some(expired_cookie()),
{
}

/// Answers a request for the protected resource from the value of its
/// `Cookie` header: the resource is reached only with a session.
pub fn protected_request(cookie_header: Option<&str>) -> (r: AuthResponse)
    ensures
        r@ == guarded_response(extraction(header_text(cookie_header))),
        cookie_header is None ==> r@ == error_response(AuthError::InvalidToken),
        forall|username: Seq<char>, ttl: int|
            valid_username(username) && header_text(cookie_header) == Some(
                #[trigger] session_cookie(username, ttl),
            ) ==> r@ == protected_response(username),
        header_text(cookie_header) == Some(expired_cookie()) ==> r@ == error_response(
            AuthError::InvalidToken,
        ),
{
    match AuthUser::from_request_parts(cookie_header) {
        Ok(user) => protected(&user),
        Err(error) => error.into_response(),
    }
}

} // verus!

use session_auth::error::{AuthError, STATUS_BAD_REQUEST, STATUS_UNAUTHORIZED};

#[test]
fn status_codes_follow_the_table() {
    assert_eq!(AuthError::WrongCredentials.status_code(), 401);
    assert_eq!(AuthError::MissingCredentials.status_code(), 400);
    assert_eq!(AuthError::InvalidToken.status_code(), 401);
    assert_eq!(STATUS_BAD_REQUEST, 400);
    assert_eq!(STATUS_UNAUTHORIZED, 401);
}

#[test]
fn messages_follow_the_table() {
    assert_eq!(AuthError::WrongCredentials.message(), "Wrong credentials");
    assert_eq!(AuthError::MissingCredentials.message(), "Missing credentials");
    assert_eq!(AuthError::InvalidToken.message(), "Invalid session");
}

#[test]
fn wrong_credentials_reply() {
    let r = AuthError::WrongCredentials.into_response();
    assert_eq!(r.status, 401);
    assert_eq!(r.body.len(), 1);
    assert_eq!(r.body[0].name, "error");
    assert_eq!(r.body[0].value, "Wrong credentials");
    assert!(r.set_cookie.is_none());
}

#[test]
fn missing_credentials_reply() {
    let r = AuthError::MissingCredentials.into_response();
    assert_eq!(r.status, 400);
    assert_eq!(r.body.len(), 1);
    assert_eq!(r.body[0].name, "error");
    assert_eq!(r.body[0].value, "Missing credentials");
    assert!(r.set_cookie.is_none());
}

#[test]
fn invalid_token_reply() {
    let r = AuthError::InvalidToken.into_response();
    assert_eq!(r.status, 401);
    assert_eq!(r.body.len(), 1);
    assert_eq!(r.body[0].name, "error");
    assert_eq!(r.body[0].value, "Invalid session");
    assert!(r.set_cookie.is_none());
}

#[test]
fn wrong_username_and_wrong_password_share_a_status() {
    assert_eq!(
        AuthError::WrongCredentials.status_code(),
        AuthError::InvalidToken.status_code()
    );
    assert_ne!(AuthError::WrongCredentials, AuthError::MissingCredentials);
}

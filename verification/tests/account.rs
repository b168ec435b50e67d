use session_auth::account::{decide, validate, LoginCredentials, StoredSecret, User};
use session_auth::error::AuthError;
use session_auth::hasher::{verify, HashError};

fn credentials(username: &str, password: &str) -> LoginCredentials {
    LoginCredentials { username: String::from(username), password: String::from(password) }
}

fn secret_for(username: &str) -> StoredSecret {
    StoredSecret { username: String::from(username), password_hash: String::from("unused") }
}

fn known_secret() -> StoredSecret {
    StoredSecret::with_cost(&User::known(), 4).unwrap()
}

#[test]
fn the_known_account() {
    let user = User::known();
    assert_eq!(user.username, "testuser");
    assert_eq!(user.password, "password123");
}

#[test]
fn stored_secret_keeps_the_username_and_hashes_the_password() {
    let secret = known_secret();
    assert_eq!(secret.username, "testuser");
    assert_ne!(secret.password_hash, "password123");
    assert!(verify("password123", &secret.password_hash));
}

#[test]
fn stored_secret_refuses_a_cost_out_of_range() {
    assert_eq!(StoredSecret::with_cost(&User::known(), 3).err(), Some(HashError::CostNotAllowed));
    assert_eq!(StoredSecret::with_cost(&User::known(), 32).err(), Some(HashError::CostNotAllowed));
}

#[test]
fn stored_secret_at_the_default_cost() {
    let secret = StoredSecret::new(&User::known()).unwrap();
    assert_eq!(secret.username, "testuser");
    assert!(secret.password_hash.starts_with("$2b$12$"));
}

#[test]
fn decide_reports_an_empty_field_first() {
    let secret = secret_for("testuser");
    assert_eq!(decide(&credentials("", "password123"), &secret, true).err(), Some(AuthError::MissingCredentials));
    assert_eq!(decide(&credentials("testuser", ""), &secret, true).err(), Some(AuthError::MissingCredentials));
    assert_eq!(decide(&credentials("", ""), &secret, false).err(), Some(AuthError::MissingCredentials));
}

#[test]
fn decide_refuses_an_unknown_user_even_with_a_matching_password() {
    let secret = secret_for("testuser");
    assert_eq!(decide(&credentials("mallory", "password123"), &secret, true).err(), Some(AuthError::WrongCredentials));
    assert_eq!(decide(&credentials("Testuser", "password123"), &secret, true).err(), Some(AuthError::WrongCredentials));
}

#[test]
fn decide_refuses_a_password_that_did_not_match() {
    let secret = secret_for("testuser");
    assert_eq!(decide(&credentials("testuser", "guess"), &secret, false).err(), Some(AuthError::WrongCredentials));
}

#[test]
fn decide_accepts_the_known_user_with_a_matching_password() {
    let secret = secret_for("testuser");
    let identity = decide(&credentials("testuser", "password123"), &secret, true).unwrap();
    assert_eq!(identity.username, "testuser");
}

#[test]
fn validate_accepts_the_known_credentials() {
    let identity = validate(&credentials("testuser", "password123"), &known_secret()).unwrap();
    assert_eq!(identity.username, "testuser");
}

#[test]
fn validate_refuses_a_wrong_password() {
    let secret = known_secret();
    assert_eq!(validate(&credentials("testuser", "password124"), &secret).err(), Some(AuthError::WrongCredentials));
    assert_eq!(validate(&credentials("testuser", "PASSWORD123"), &secret).err(), Some(AuthError::WrongCredentials));
}

#[test]
fn validate_refuses_an_unknown_user() {
    let secret = known_secret();
    assert_eq!(validate(&credentials("admin", "password123"), &secret).err(), Some(AuthError::WrongCredentials));
}

#[test]
fn validate_reports_missing_credentials() {
    let secret = known_secret();
    assert_eq!(validate(&credentials("", "password123"), &secret).err(), Some(AuthError::MissingCredentials));
    assert_eq!(validate(&credentials("testuser", ""), &secret).err(), Some(AuthError::MissingCredentials));
    assert_eq!(validate(&credentials("", ""), &secret).err(), Some(AuthError::MissingCredentials));
}

#[test]
fn validate_fails_closed_on_a_broken_stored_hash() {
    let secret = StoredSecret { username: String::from("testuser"), password_hash: String::from("not a hash") };
    assert_eq!(validate(&credentials("testuser", "password123"), &secret).err(), Some(AuthError::WrongCredentials));
}

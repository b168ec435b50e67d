//! The known account and the check of submitted credentials against it.

use vstd::prelude::*;

use crate::error::AuthError;
use crate::hasher::{cost_allowed, hash, hash_with_cost, password_matches, verify, HashError};
use crate::session::{identity_of, lemma_known_username_valid, valid_username, AuthUser};

verus! {

/// An account as it is configured: a username and its password in the
/// clear. It is hashed once, into a `StoredSecret`, and not kept.
#[derive(Debug, Clone)]
pub struct User {
    pub username: String,
    pub password: String,
}

/// What a client submits to log in.
#[derive(Debug, Clone)]
pub struct LoginCredentials {
    pub username: String,
    pub password: String,
}

/// The account as the running process holds it: the username and the
/// bcrypt hash of the password.
#[derive(Debug, Clone)]
pub struct StoredSecret {
    pub username: String,
    pub password_hash: String,
}

impl User {
    /// The one account that the application knows. Its username can be
    /// carried in a session cookie.
    pub fn known() -> (user: User)
        ensures
            user.username@ == "testuser"@,
            user.password@ == "password123"@,
            valid_username(user.username@),
    {
        proof {
            lemma_known_username_valid();
        }
        User { username: String::from_str("testuser"), password: String::from_str("password123") }
    }
}

impl StoredSecret {
    /// Hashes the account's password at the given cost. The secret that
    /// comes back keeps the username and matches the password.
    pub fn with_cost(user: &User, cost: u32) -> (r: Result<StoredSecret, HashError>)
        ensures
            !cost_allowed(cost) ==> r == Err::<StoredSecret, HashError>(HashError::CostNotAllowed),
            cost_allowed(cost) ==> r is Ok || r == Err::<StoredSecret, HashError>(
                HashError::Backend,
            ),
            r matches Ok(secret) ==> secret.username@ == user.username@ && password_matches(
                user.password@,
                secret.password_hash@,
            ),
    {
        match hash_with_cost(user.password.as_str(), cost) {
            Ok(password_hash) => Ok(StoredSecret { username: user.username.clone(), password_hash }),
            Err(e) => Err(e),
        }
    }

    /// Hashes the account's password at bcrypt's default cost.
    pub fn new(user: &User) -> (r: Result<StoredSecret, HashError>)
        ensures
            r is Ok || r == Err::<StoredSecret, HashError>(HashError::Backend),
            r matches Ok(secret) ==> secret.username@ == user.username@ && password_matches(
                user.password@,
                secret.password_hash@,
            ),
    {
        match hash(user.password.as_str()) {
            Ok(password_hash) => Ok(StoredSecret { username: user.username.clone(), password_hash }),
            Err(e) => Err(e),
        }
    }
}

/// The outcome of a login attempt, given whether the password matched the
/// stored hash. An empty field is reported before anything is compared; a
/// wrong username and a wrong password are reported alike.
pub open spec fn decision(
    known_username: Seq<char>,
    username: Seq<char>,
    password: Seq<char>,
    verified: bool,
) -> Result<Seq<char>, AuthError> {
    if username.len() == 0 || password.len() == 0 {
        Err(AuthError::MissingCredentials)
    } else if username == known_username && verified {
        Ok(username)
    } else {
        Err(AuthError::WrongCredentials)
    }
}

/// Whether one of the two fields was left empty.
pub open spec fn has_empty_field(credentials: LoginCredentials) -> bool {
    credentials.username@.len() == 0 || credentials.password@.len() == 0
}

/// Whether the credentials name the stored account and carry a password
/// that matches its hash.
pub open spec fn credentials_match(secret: StoredSecret, credentials: LoginCredentials) -> bool {
    credentials.username@ == secret.username@ && password_matches(
        credentials.password@,
        secret.password_hash@,
    )
}

/// The outcome of checking `credentials` against `secret`.
pub open spec fn validation(secret: StoredSecret, credentials: LoginCredentials) -> Result<
    Seq<char>,
    AuthError,
> {
    decision(
        secret.username@,
        credentials.username@,
        credentials.password@,
        password_matches(credentials.password@, secret.password_hash@),
    )
}

/// Decides a login attempt once the password check has been made.
pub fn decide(credentials: &LoginCredentials, secret: &StoredSecret, verified: bool) -> (r: Result<
    AuthUser,
    AuthError,
>)
    ensures
        identity_of(r) == decision(
            secret.username@,
            credentials.username@,
            credentials.password@,
            verified,
        ),
{
    if credentials.username.as_str().is_empty() || credentials.password.as_str().is_empty() {
        Err(AuthError::MissingCredentials)
    } else if credentials.username == secret.username && verified {
        Ok(AuthUser { username: credentials.username.clone() })
    } else {
        Err(AuthError::WrongCredentials)
    }
}

/// Checks submitted credentials against the stored account.
///
/// The password is checked against the stored hash whenever both fields
/// are present, whether or not the username is the known one, so that an
/// unknown user costs as much as a wrong password.
pub fn validate(credentials: &LoginCredentials, secret: &StoredSecret) -> (r: Result<
    AuthUser,
    AuthError,
>)
    ensures
        identity_of(r) == validation(*secret, *credentials),
        has_empty_field(*credentials) ==> r == Err::<AuthUser, AuthError>(
            AuthError::MissingCredentials,
        ),
        !has_empty_field(*credentials) && credentials_match(*secret, *credentials) ==> identity_of(
            r,
        ) == Ok::<Seq<char>, AuthError>(secret.username@),
        !has_empty_field(*credentials) && !credentials_match(*secret, *credentials) ==> r == Err::<
            AuthUser,
            AuthError,
        >(AuthError::WrongCredentials),
{
    let verified = if credentials.username.as_str().is_empty()
        || credentials.password.as_str().is_empty() {
        false
    } else {
        verify(credentials.password.as_str(), secret.password_hash.as_str())
    };
    decide(credentials, secret, verified)
}

} // verus!

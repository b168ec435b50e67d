//! Session-cookie authentication for a single configured account.
//!
//! The crate decides who may log in, issues and reads the session cookie,
//! and says which reply each request gets. It reads no request and sends
//! no response: callers hand it header text and credentials and send the
//! replies it returns.

pub mod account;
pub mod decimal;
pub mod error;
pub mod extractor;
pub mod handlers;
pub mod hasher;
pub mod response;
pub mod session;

pub use account::{LoginCredentials, StoredSecret, User};
pub use error::AuthError;
pub use handlers::{login, logout, protected, protected_request};
pub use response::{AuthResponse, JsonField};
pub use session::AuthUser;

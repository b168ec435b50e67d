//! The session cookie: how an identity is written into it and read back.
//!
//! A session is the username itself, carried in the cookie `session_user`.
//! The cookie is not signed: whoever can set a cookie can claim any
//! username. A deployment that must resist forgery has to sign or encrypt
//! the value, or keep sessions on the server, on top of what this module
//! reads.
//!
//! Cookie headers are parsed by the `headers` crate and the session
//! lifetime is computed by the `time` crate; both calls carry contracts
//! that are trusted, not proved.

use vstd::prelude::*;

use axum::http::header::COOKIE;
use axum::http::{HeaderMap, HeaderValue};
use axum_extra::headers::{Cookie, HeaderMapExt};

use crate::decimal::{decimal, decimal_nat, is_decimal_char, lemma_decimal_chars, push_decimal};
use crate::error::AuthError;

verus! {

/// An authenticated principal, as recovered from a session cookie.
#[derive(Debug, Clone)]
pub struct AuthUser {
    pub username: String,
}

/// Hours for which a session issued at login stays valid.
pub const SESSION_HOURS: i64 = 24;

/// `SESSION_HOURS` in seconds: the `Max-Age` of a fresh session cookie.
pub const SESSION_TTL_SECONDS: i64 = SESSION_HOURS * 3600;

/// The name of the session cookie.
pub open spec fn session_cookie_name() -> Seq<char> {
    "session_user"@
}

/// The attributes that follow the cookie's value.
pub open spec fn session_attributes(ttl: int) -> Seq<char> {
    "; HttpOnly; Max-Age="@ + decimal(ttl) + "; Path=/"@
}

/// The text `name=value` followed by `rest`.
pub open spec fn cookie_line(name: Seq<char>, value: Seq<char>, rest: Seq<char>) -> Seq<char> {
    name + seq!['='] + value + rest
}

/// The cookie that carries `username` for `ttl` seconds:
/// `session_user=<username>; HttpOnly; Max-Age=<ttl>; Path=/`.
pub open spec fn session_cookie(username: Seq<char>, ttl: int) -> Seq<char> {
    cookie_line(session_cookie_name(), username, session_attributes(ttl))
}

/// The cookie that tells the client to drop its session at once.
pub open spec fn expired_cookie() -> Seq<char> {
    session_cookie(Seq::empty(), 0)
}

/// Printable ASCII, space and tab: what a header value can hold as text.
pub open spec fn is_header_text(c: char) -> bool {
    c == '\t' || 0x20 <= (c as u32) <= 0x7e
}

/// A character that may stand in a cookie value: printable ASCII other
/// than space, double quote, comma, semicolon and backslash.
pub open spec fn is_cookie_octet(c: char) -> bool {
    let code = c as u32;
    code == 0x21 || 0x23 <= code <= 0x2b || 0x2d <= code <= 0x3a || 0x3c <= code <= 0x5b || 0x5d
        <= code <= 0x7e
}

/// Text made of cookie characters only.
pub open spec fn is_cookie_value(text: Seq<char>) -> bool {
    forall|i: int| 0 <= i < text.len() ==> is_cookie_octet(#[trigger] text[i])
}

/// Text that can name a cookie: cookie characters other than `=`.
pub open spec fn is_cookie_name(text: Seq<char>) -> bool {
    forall|i: int| 0 <= i < text.len() ==> is_cookie_octet(#[trigger] text[i]) && text[i] != '='
}

/// What may follow the first cookie of a header: nothing, or a semicolon
/// and any header text.
pub open spec fn is_cookie_tail(rest: Seq<char>) -> bool {
    &&& rest.len() > 0 ==> rest[0] == ';'
    &&& forall|i: int| 0 <= i < rest.len() ==> is_header_text(#[trigger] rest[i])
}

/// A username that a session cookie can carry unchanged: not empty, and
/// made of cookie characters.
pub open spec fn valid_username(username: Seq<char>) -> bool {
    username.len() > 0 && is_cookie_value(username)
}

/// What the `Cookie` header type of the `headers` crate finds under
/// `name` in the header text `header`: the value of the first pair with
/// that name, or `None`.
pub uninterp spec fn cookie_lookup(header: Seq<char>, name: Seq<char>) -> Option<Seq<char>>;

/// The text inside an optional string.
pub open spec fn text_of(value: Option<String>) -> Option<Seq<char>> {
    match value {
        Some(text) => Some(text@),
        None => None,
    }
}

/// Parses `header` as a `Cookie` header with the `headers` crate and
/// calls `Cookie::get` for `name`. Text that is no header value yields
/// `None`.
///
/// Trusted: the result depends on the two strings alone and is the one
/// that `cookie_lookup` names. Where the header starts with `name=value`,
/// both free of separators, quotes and blanks, and goes on with nothing
/// or with a semicolon, the lookup finds exactly `value`.
#[verifier::external_body]
fn cookie_value(header: &str, name: &str) -> (value: Option<String>)
    ensures
        text_of(value) == cookie_lookup(header@, name@),
        forall|first: Seq<char>, rest: Seq<char>|
            header@ == #[trigger] cookie_line(name@, first, rest) && is_cookie_name(name@)
                && is_cookie_value(first) && is_cookie_tail(rest) ==> text_of(value) == Some(
                first,
            ),
{
    let mut headers = HeaderMap::new();
    headers.insert(COOKIE, HeaderValue::from_str(header).ok()?);
    headers.typed_get::<Cookie>()?.get(name).map(String::from)
}

/// Calls `time::Duration::hours` and reads `whole_seconds` of the result.
/// Trusted: an hour has 3600 seconds; the product must fit, or the
/// constructor panics.
#[verifier::external_body]
fn seconds_in_hours(hours: i64) -> (seconds: i64)
    requires
        i64::MIN <= hours * 3600 <= i64::MAX,
    ensures
        seconds == hours * 3600,
{
    time::Duration::hours(hours).whole_seconds()
}

/// The lifetime of a session issued at login, in seconds.
pub fn session_ttl() -> (ttl: i64)
    ensures
        ttl == SESSION_TTL_SECONDS,
{
    seconds_in_hours(SESSION_HOURS)
}

/// The session cookie has the shape that the cookie lookup is trusted on.
pub proof fn lemma_session_cookie_shape(ttl: int)
    ensures
        is_cookie_name(session_cookie_name()),
        is_cookie_tail(session_attributes(ttl)),
{
    reveal_strlit("session_user");
    reveal_strlit("; HttpOnly; Max-Age=");
    reveal_strlit("; Path=/");
    lemma_decimal_chars(ttl);
    let name = session_cookie_name();
    assert forall|i: int| 0 <= i < name.len() implies is_cookie_octet(#[trigger] name[i])
        && name[i] != '=' by {
        assert(name.len() == 12);
    }
    let head = "; HttpOnly; Max-Age="@;
    let digits = decimal(ttl);
    let path = "; Path=/"@;
    let rest = session_attributes(ttl);
    assert(rest[0] == head[0]);
    assert forall|i: int| 0 <= i < rest.len() implies is_header_text(#[trigger] rest[i]) by {
        if i < head.len() {
            assert(rest[i] == head[i]);
        } else if i < head.len() + digits.len() {
            assert(rest[i] == digits[i - head.len()]);
            assert(is_decimal_char(digits[i - head.len()]));
        } else {
            assert(rest[i] == path[i - head.len() - digits.len()]);
        }
    }
}

/// The cookie issued at login, written out.
pub proof fn lemma_login_cookie_text(username: Seq<char>)
    ensures
        session_cookie(username, SESSION_TTL_SECONDS as int) == "session_user="@ + username
            + "; HttpOnly; Max-Age=86400; Path=/"@,
{
    reveal_strlit("session_user");
    reveal_strlit("session_user=");
    reveal_strlit("; HttpOnly; Max-Age=");
    reveal_strlit("; Path=/");
    reveal_strlit("; HttpOnly; Max-Age=86400; Path=/");
    reveal_with_fuel(decimal_nat, 5);
    assert(decimal(86400) =~= seq!['8', '6', '4', '0', '0']);
    assert(session_attributes(86400) =~= "; HttpOnly; Max-Age=86400; Path=/"@);
    assert(session_cookie(username, 86400) =~= "session_user="@ + username
        + "; HttpOnly; Max-Age=86400; Path=/"@);
}

/// The cookie that ends a session, written out.
pub proof fn lemma_expired_cookie_text()
    ensures
        expired_cookie() == "session_user=; HttpOnly; Max-Age=0; Path=/"@,
{
    reveal_strlit("session_user");
    reveal_strlit("; HttpOnly; Max-Age=");
    reveal_strlit("; Path=/");
    reveal_strlit("session_user=; HttpOnly; Max-Age=0; Path=/");
    assert(decimal(0) =~= seq!['0']);
    assert(expired_cookie() =~= "session_user=; HttpOnly; Max-Age=0; Path=/"@);
}

/// A cookie issued for a user is never the cookie that ends a session,
/// whatever its lifetime.
pub proof fn lemma_fresh_cookie_is_not_expired(username: Seq<char>, ttl: int)
    requires
        username.len() > 0,
    ensures
        session_cookie(username, ttl) != expired_cookie(),
{
    lemma_decimal_chars(ttl);
    assert(decimal(0).len() == 1);
    assert(session_cookie(username, ttl).len() > expired_cookie().len());
}

/// The username of the known account can be carried in a cookie.
pub proof fn lemma_known_username_valid()
    ensures
        valid_username("testuser"@),
{
    reveal_strlit("testuser");
    let name = "testuser"@;
    assert forall|i: int| 0 <= i < name.len() implies is_cookie_octet(#[trigger] name[i]) by {
        assert(name.len() == 8);
    }
}

/// Writes the session cookie for `identity`, valid for `ttl` seconds.
pub fn encode(identity: &AuthUser, ttl: i64) -> (cookie: String)
    ensures
        cookie@ == session_cookie(identity.username@, ttl as int),
{
    let mut cookie = String::from_str("session_user");
    cookie.append("=");
    cookie.append(identity.username.as_str());
    cookie.append("; HttpOnly; Max-Age=");
    push_decimal(&mut cookie, ttl);
    cookie.append("; Path=/");
    proof {
        reveal_strlit("=");
        assert(cookie@ =~= session_cookie(identity.username@, ttl as int));
    }
    cookie
}

/// Writes the cookie that ends a session: an empty value and `Max-Age=0`.
pub fn encode_expired() -> (cookie: String)
    ensures
        cookie@ == expired_cookie(),
        cookie@ == "session_user=; HttpOnly; Max-Age=0; Path=/"@,
{
    let nobody = AuthUser { username: String::new() };
    proof {
        lemma_expired_cookie_text();
    }
    encode(&nobody, 0)
}

/// The identity that a looked-up cookie value stands for, in the model.
pub open spec fn session_of_value(found: Option<Seq<char>>) -> Result<Seq<char>, AuthError> {
    match found {
        Some(username) => if username.len() > 0 {
            Ok(username)
        } else {
            Err(AuthError::InvalidToken)
        },
        None => Err(AuthError::InvalidToken),
    }
}

/// What reading the cookie header `raw` yields, in the model.
pub open spec fn decode_spec(raw: Seq<char>) -> Result<Seq<char>, AuthError> {
    session_of_value(cookie_lookup(raw, session_cookie_name()))
}

/// The username inside a decoding result.
pub open spec fn identity_of(r: Result<AuthUser, AuthError>) -> Result<Seq<char>, AuthError> {
    match r {
        Ok(user) => Ok(user.username@),
        Err(e) => Err(e),
    }
}

/// Turns the value found under the session cookie's name into an
/// identity. A missing cookie and an empty value are both refused.
pub fn session_from_value(found: Option<String>) -> (r: Result<AuthUser, AuthError>)
    ensures
        identity_of(r) == session_of_value(text_of(found)),
{
    match found {
        Some(username) => {
            if username.as_str().is_empty() {
                Err(AuthError::InvalidToken)
            } else {
                Ok(AuthUser { username })
            }
        },
        None => Err(AuthError::InvalidToken),
    }
}

/// Reads the identity out of a cookie header.
///
/// The header is searched for the cookie `session_user`; its value is the
/// username. Whatever `encode` wrote for a valid username is read back as
/// that username, and the cookie of `encode_expired` is refused.
///
/// The cookie carries neither a signature nor its time of issue, so a
/// forged value and one kept beyond its `Max-Age` are accepted like a
/// fresh one: expiry is left to the client.
pub fn decode(raw: &str) -> (r: Result<AuthUser, AuthError>)
    ensures
        identity_of(r) == decode_spec(raw@),
        r matches Err(e) ==> e == AuthError::InvalidToken,
        forall|username: Seq<char>, ttl: int|
            valid_username(username) && raw@ == #[trigger] session_cookie(username, ttl)
                ==> identity_of(r) == Ok::<Seq<char>, AuthError>(username),
        raw@ == expired_cookie() ==> r is Err,
{
    let found = cookie_value(raw, "session_user");
    proof {
        assert forall|username: Seq<char>, ttl: int|
            valid_username(username) && raw@ == #[trigger] session_cookie(
                username,
                ttl,
            ) implies text_of(found) == Some(username) by {
            lemma_session_cookie_shape(ttl);
        }
        if raw@ == expired_cookie() {
            lemma_session_cookie_shape(0);
            assert(is_cookie_value(Seq::<char>::empty()));
            assert(text_of(found) == Some(Seq::<char>::empty()));
        }
    }
    session_from_value(found)
}

} // verus!

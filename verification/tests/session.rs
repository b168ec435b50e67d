use session_auth::error::AuthError;
use session_auth::session::{
    decode, encode, encode_expired, session_from_value, session_ttl, AuthUser, SESSION_HOURS,
    SESSION_TTL_SECONDS,
};

fn user(name: &str) -> AuthUser {
    AuthUser { username: String::from(name) }
}

#[test]
fn a_session_lasts_a_day() {
    assert_eq!(SESSION_HOURS, 24);
    assert_eq!(SESSION_TTL_SECONDS, 86400);
    assert_eq!(session_ttl(), 86400);
}

#[test]
fn encode_writes_the_cookie_format() {
    assert_eq!(
        encode(&user("testuser"), 86400),
        "session_user=testuser; HttpOnly; Max-Age=86400; Path=/"
    );
}

#[test]
fn encode_writes_any_ttl() {
    assert_eq!(encode(&user("alice"), 0), "session_user=alice; HttpOnly; Max-Age=0; Path=/");
    assert_eq!(encode(&user("alice"), 60), "session_user=alice; HttpOnly; Max-Age=60; Path=/");
    assert_eq!(encode(&user("alice"), -1), "session_user=alice; HttpOnly; Max-Age=-1; Path=/");
}

#[test]
fn encode_expired_clears_the_cookie() {
    assert_eq!(encode_expired(), "session_user=; HttpOnly; Max-Age=0; Path=/");
}

#[test]
fn decode_reads_back_what_encode_wrote() {
    let cookie = encode(&user("testuser"), session_ttl());
    let identity = decode(&cookie).unwrap();
    assert_eq!(identity.username, "testuser");
}

#[test]
fn round_trip_keeps_every_cookie_character() {
    let names = ["a", "Z9", "first.last", "user@example.com", "a=b", "x!#$%&'()*+-./:<>?[]^_`{|}~"];
    let ttls: [i64; 4] = [0, 1, 86400, -7];
    for name in names {
        for ttl in ttls {
            let identity = decode(&encode(&user(name), ttl)).unwrap();
            assert_eq!(identity.username, name);
        }
    }
}

#[test]
fn decode_reads_a_bare_cookie_header() {
    let identity = decode("session_user=alice").unwrap();
    assert_eq!(identity.username, "alice");
}

#[test]
fn decode_finds_the_cookie_among_others() {
    let identity = decode("theme=dark; session_user=bob; lang=en-US").unwrap();
    assert_eq!(identity.username, "bob");
}

#[test]
fn decode_takes_the_first_of_two_sessions() {
    let identity = decode("session_user=first; session_user=second").unwrap();
    assert_eq!(identity.username, "first");
}

#[test]
fn decode_refuses_a_header_without_the_cookie() {
    assert_eq!(decode("theme=dark; lang=en-US").err(), Some(AuthError::InvalidToken));
    assert_eq!(decode("").err(), Some(AuthError::InvalidToken));
    assert_eq!(decode("session_user").err(), Some(AuthError::InvalidToken));
    assert_eq!(decode("session_users=alice").err(), Some(AuthError::InvalidToken));
}

#[test]
fn decode_refuses_the_expired_cookie() {
    assert_eq!(decode(&encode_expired()).err(), Some(AuthError::InvalidToken));
    assert_eq!(decode("session_user=").err(), Some(AuthError::InvalidToken));
}

#[test]
fn decode_refuses_text_that_is_no_header_value() {
    assert_eq!(decode("session_user=alice\n").err(), Some(AuthError::InvalidToken));
    assert_eq!(decode("session_user=al\u{0}ice").err(), Some(AuthError::InvalidToken));
}

#[test]
fn expired_cookie_differs_from_a_fresh_one() {
    let fresh = encode(&user("testuser"), session_ttl());
    assert_ne!(fresh, encode_expired());
    assert!(decode(&fresh).is_ok());
    assert!(decode(&encode_expired()).is_err());
}

#[test]
fn a_found_value_is_the_username() {
    let identity = session_from_value(Some(String::from("carol"))).unwrap();
    assert_eq!(identity.username, "carol");
}

#[test]
fn an_empty_or_missing_value_is_no_session() {
    assert_eq!(session_from_value(Some(String::new())).err(), Some(AuthError::InvalidToken));
    assert_eq!(session_from_value(None).err(), Some(AuthError::InvalidToken));
}

#[test]
fn decode_trims_blanks_around_name_and_value() {
    let identity = decode("lang=en;  session_user = erin ").unwrap();
    assert_eq!(identity.username, "erin");
}

#[test]
fn decode_keeps_a_quoted_value_whole() {
    let identity = decode("session_user=\"a;b\"; lang=en").unwrap();
    assert_eq!(identity.username, "\"a;b\"");
}

#[test]
fn decode_cuts_a_username_at_a_semicolon() {
    let cookie = encode(&user("a;b"), 60);
    let identity = decode(&cookie).unwrap();
    assert_eq!(identity.username, "a");
}

#[test]
fn decode_refuses_text_outside_ascii() {
    assert_eq!(decode("session_user=jos\u{e9}").err(), Some(AuthError::InvalidToken));
}

fn cookie_characters() -> Vec<char> {
    let mut all = Vec::new();
    for code in 0x21u8..=0x7e {
        let c = code as char;
        if c != '"' && c != ',' && c != ';' && c != '\\' {
            all.push(c);
        }
    }
    all
}

#[test]
fn round_trip_holds_for_every_cookie_character() {
    let all = cookie_characters();
    assert_eq!(all.len(), 90);
    for c in &all {
        let name = c.to_string();
        assert_eq!(decode(&encode(&user(&name), 5)).unwrap().username, name);
    }
}

#[test]
fn round_trip_holds_for_pairs_of_cookie_characters() {
    let all = cookie_characters();
    for a in &all {
        for b in &all {
            let name = format!("{}{}", a, b);
            assert_eq!(decode(&encode(&user(&name), -3)).unwrap().username, name);
        }
    }
}

#[test]
fn round_trip_holds_for_a_long_username() {
    let name: String = cookie_characters().into_iter().collect();
    assert_eq!(decode(&encode(&user(&name), i64::MAX)).unwrap().username, name);
    assert_eq!(decode(&encode(&user(&name), i64::MIN)).unwrap().username, name);
}

//! Replies as plain data: a status, the fields of a JSON object and an
//! optional `Set-Cookie` value. Callers turn them into HTTP responses.

use vstd::prelude::*;

use crate::error::AuthError;

verus! {

/// One string member of a JSON object.
#[derive(Debug, Clone)]
pub struct JsonField {
    pub name: String,
    pub value: String,
}

/// The reply to a request.
#[derive(Debug, Clone)]
pub struct AuthResponse {
    /// The HTTP status code.
    pub status: u16,
    /// The members of the JSON body, in order.
    pub body: Vec<JsonField>,
    /// The value of the `Set-Cookie` header, if one is sent.
    pub set_cookie: Option<String>,
}

/// A reply as a mathematical value.
pub struct ResponseModel {
    pub status: u16,
    pub body: Seq<(Seq<char>, Seq<char>)>,
    pub set_cookie: Option<Seq<char>>,
}

/// HTTP status of a request that was served.
pub const STATUS_OK: u16 = 200;

impl View for JsonField {
    type V = (Seq<char>, Seq<char>);

    open spec fn view(&self) -> (Seq<char>, Seq<char>) {
        (self.name@, self.value@)
    }
}

impl View for AuthResponse {
    type V = ResponseModel;

    open spec fn view(&self) -> ResponseModel {
        ResponseModel {
            status: self.status,
            body: Seq::new(self.body@.len(), |i: int| self.body@[i]@),
            set_cookie: match self.set_cookie {
                Some(cookie) => Some(cookie@),
                None => None,
            },
        }
    }
}

/// The reply that reports `error`: its status, and a body with the one
/// member `error` that holds its message.
pub open spec fn error_response(error: AuthError) -> ResponseModel {
    ResponseModel {
        status: error.spec_status_code(),
        body: seq![("error"@, error.spec_message())],
        set_cookie: None,
    }
}

/// A successful reply whose body has the one member `message`.
pub open spec fn message_response(message: Seq<char>, set_cookie: Option<Seq<char>>) -> ResponseModel {
    ResponseModel { status: STATUS_OK, body: seq![("message"@, message)], set_cookie }
}

/// Makes a JSON member from its name and value.
pub fn field(name: &str, value: String) -> (member: JsonField)
    ensures
        member@ == (name@, value@),
{
    JsonField { name: String::from_str(name), value }
}

/// Builds a successful reply with the one body member `message`.
pub fn respond_with_message(message: &str, set_cookie: Option<String>) -> (r: AuthResponse)
    ensures
        r@ == message_response(
            message@,
            match set_cookie {
                Some(cookie) => Some(cookie@),
                None => None,
            },
        ),
{
    let mut body: Vec<JsonField> = Vec::new();
    body.push(field("message", String::from_str(message)));
    let r = AuthResponse { status: STATUS_OK, body, set_cookie };
    assert(r@.body =~= seq![("message"@, message@)]);
    r
}

impl AuthError {
    /// The reply that a client gets for this error.
    pub fn into_response(self) -> (r: AuthResponse)
        ensures
            r@ == error_response(self),
    {
        let mut body: Vec<JsonField> = Vec::new();
        body.push(field("error", self.message()));
        let r = AuthResponse { status: self.status_code(), body, set_cookie: None };
        assert(r@.body =~= seq![("error"@, self.spec_message())]);
        r
    }
}

} // verus!

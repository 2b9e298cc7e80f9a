//! The one error value of the service: an HTTP status and a fixed message,
//! rendered as a JSON object with the single member `error`.

use crate::json::{json_string, json_string_text};
use vstd::prelude::*;
use vstd::string::StringExecFns;

verus! {

/// An HTTP status code. Every value holds a number from 100 to 999.
#[derive(Debug, Clone, Copy)]
pub struct Status {
    code: u16,
}

impl Status {
    #[verifier::type_invariant]
    spec fn in_range(self) -> bool {
        100 <= self.code <= 999
    }

    /// The status code as a number.
    pub closed spec fn number(self) -> int {
        self.code as int
    }

    /// The status with the given number, if it is a three-digit one.
    pub fn from_u16(code: u16) -> (r: Option<Status>)
        ensures
            r is Some <==> 100 <= code <= 999,
            r matches Some(s) ==> s.number() == code,
    {
        if 100 <= code && code <= 999 {
            Some(Status { code })
        } else {
            None
        }
    }

    /// The number of this status, always a three-digit one.
    pub fn as_u16(&self) -> (r: u16)
        ensures
            r == self.number(),
            100 <= r <= 999,
    {
        proof {
            use_type_invariant(self);
        }
        self.code
    }

    /// 400, for a request body that cannot be used.
    pub fn bad_request() -> (r: Status)
        ensures
            r.number() == 400,
    {
        Status { code: 400 }
    }

    /// 401, for a missing, malformed, forged or expired token.
    pub fn unauthorized() -> (r: Status)
        ensures
            r.number() == 401,
    {
        Status { code: 401 }
    }

    /// 500, for a fault of storage or of signing.
    pub fn internal_server_error() -> (r: Status)
        ensures
            r.number() == 500,
    {
        Status { code: 500 }
    }
}

/// A failure as the caller sees it: a status and a human-readable message.
#[derive(Debug)]
pub struct AppError {
    pub status_code: Status,
    pub message: String,
}

impl View for AppError {
    type V = (int, Seq<char>);

    open spec fn view(&self) -> (int, Seq<char>) {
        (self.status_code.number(), self.message@)
    }
}

/// The body of an error response: `{"error":` followed by the message as a
/// JSON string and a closing brace.
pub open spec fn body_text(message: Seq<char>) -> Seq<char> {
    "{\"error\":"@ + json_string_text(message) + "}"@
}

impl AppError {
    /// The error with this status and a copy of this message.
    pub fn new(status_code: Status, message: &str) -> (r: Self)
        ensures
            r.status_code == status_code,
            r.message@ == message@,
            r@ == (status_code.number(), message@),
    {
        Self { status_code, message: message.to_owned() }
    }

    /// The response body for this error.
    pub fn body(&self) -> (r: String)
        ensures
            r@ == body_text(self.message@),
    {
        let quoted = json_string(self.message.as_str());
        let mut out = String::from_str("{\"error\":");
        out.append(quoted.as_str());
        out.append("}");
        out
    }
}

} // verus!

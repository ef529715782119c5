//! The uniform envelope that wraps every structured reply.

use vstd::prelude::*;
use crate::json::{json_quoted, quote};

verus! {

pub const OK: u16 = 200;
pub const NO_CONTENT: u16 = 204;
pub const BAD_REQUEST: u16 = 400;
pub const NOT_FOUND: u16 = 404;
pub const INTERNAL_SERVER_ERROR: u16 = 500;

/// A status code is a success when it is of the 2xx class.
pub open spec fn spec_is_success(status: u16) -> bool {
    200 <= status < 300
}

pub fn is_success(status: u16) -> (r: bool)
    ensures
        r == spec_is_success(status),
{
    200 <= status && status < 300
}

/// A boolean as JSON text.
pub open spec fn bool_json(b: bool) -> Seq<char> {
    if b {
        "true"@
    } else {
        "false"@
    }
}

/// The message of an error reply that names none.
pub open spec fn default_error() -> Seq<char> {
    "Internal Server Error"@
}

/// The field that follows the success flag: the result (an empty object where
/// none is given) on success, else the error message as a JSON string.
pub open spec fn envelope_field(status: u16, result: Option<Seq<char>>, error: Option<Seq<char>>) -> Seq<char> {
    if spec_is_success(status) {
        ",\"result\":"@ + match result {
            Some(r) => r,
            None => "{}"@,
        }
    } else {
        ",\"error\":"@ + json_quoted(
            match error {
                Some(e) => e,
                None => default_error(),
            },
        )
    }
}

/// The envelope for `status`, as JSON text. `result` is JSON text already.
pub open spec fn envelope_json(status: u16, result: Option<Seq<char>>, error: Option<Seq<char>>) -> Seq<char> {
    "{\"success\":"@ + bool_json(spec_is_success(status)) + envelope_field(status, result, error) + "}"@
}

/// The views of an optional string.
pub open spec fn opt_view(o: Option<String>) -> Option<Seq<char>> {
    match o {
        Some(s) => Some(s@),
        None => None,
    }
}

/// A structured reply: a status code and the envelope as JSON text.
#[derive(Clone, Debug)]
pub struct Reply {
    pub status: u16,
    pub body: String,
}

impl Reply {
    /// Whether this reply reports success; read off the status class alone.
    pub fn success(&self) -> (r: bool)
        ensures
            r == spec_is_success(self.status),
    {
        is_success(self.status)
    }
}

/// Wraps a result or an error in the envelope for `status`.
///
/// The success flag is derived from the status class, so the status and the body
/// never disagree. A result is kept only on success and an error only on failure.
pub fn generate_response(status: u16, result: Option<String>, error: Option<String>) -> (r: Reply)
    ensures
        r.status == status,
        r.body@ == envelope_json(status, opt_view(result), opt_view(error)),
{
    let mut body = String::from_str("{\"success\":");
    if is_success(status) {
        body.append("true");
        body.append(",\"result\":");
        match result {
            Some(r) => body.append(r.as_str()),
            None => body.append("{}"),
        }
    } else {
        body.append("false");
        body.append(",\"error\":");
        let message = match error {
            Some(e) => quote(e.as_str()),
            None => quote("Internal Server Error"),
        };
        body.append(message.as_str());
    }
    body.append("}");
    Reply { status, body }
}

/// The envelope's success flag is the status class, and only then does it carry a
/// result: for every status, result and error.
pub proof fn lemma_success_flag_is_status_class(
    status: u16,
    result: Option<Seq<char>>,
    error: Option<Seq<char>>,
)
    ensures
        envelope_json(status, result, error) == "{\"success\":"@ + bool_json(spec_is_success(status))
            + envelope_field(status, result, error) + "}"@,
        spec_is_success(status) ==> envelope_field(status, result, error).take(10) == ",\"result\":"@,
        !spec_is_success(status) ==> envelope_field(status, result, error).take(9) == ",\"error\":"@,
{
    reveal_strlit(",\"result\":");
    reveal_strlit(",\"error\":");
    if spec_is_success(status) {
        assert(envelope_field(status, result, error).take(10) =~= ",\"result\":"@);
    } else {
        assert(envelope_field(status, result, error).take(9) =~= ",\"error\":"@);
    }
}

} // verus!

//! Classification of authentication failures into a closed set of error
//! kinds. A failure is either a structured rejection the server sent
//! (status code plus parsed error body) or a purely client-side condition
//! with no server body. Every failure in the crate is recovered into an
//! `AuthError` value; nothing escapes as a panic.

use vstd::prelude::*;
use vstd::string::*;

verus! {

/// The purely client-side failure kinds: conditions that never carry a
/// structured server body.
#[derive(Clone, Copy, PartialEq, Eq, Structural, Debug)]
pub enum AuthErrorType {
    /// The transport never completed: no response was received.
    NetworkFailure,
    /// The local store held no usable token.
    InvalidToken,
    /// The server acknowledged a refresh but issued no credential.
    TokenCreation,
    /// The transport failed during the authenticated send step.
    BadRequest,
    /// The transport failed during the refresh step.
    RequestFailed,
}

/// The structured error body the server sends with a rejection:
/// `{status, message}`.
#[derive(Debug, PartialEq)]
pub struct AuthErrorBody {
    pub status: u16,
    pub message: String,
}

/// A classified authentication failure: a structured server rejection, or
/// a client-side kind with no server body.
#[derive(Debug, PartialEq)]
pub enum AuthError {
    /// The server answered with a non-success status and a parsable
    /// `{status, message}` body, carried verbatim.
    ServerRejected { status: u16, body: AuthErrorBody },
    /// A condition that never reached the server or produced no usable
    /// server body.
    Client { kind: AuthErrorType },
}

/// The fallback error value: generic, with no status-specific detail.
pub open spec fn spec_default_error() -> AuthError {
    AuthError::Client { kind: AuthErrorType::NetworkFailure }
}

/// The message rendered for every failure that carries no server-provided
/// message.
pub open spec fn spec_fallback_message() -> Seq<char> {
    "an unexpected error occurred"@
}

/// What parsing a JSON error body yields: the `status` (integer) and
/// `message` (string) fields when the text is a JSON object carrying both,
/// `None` otherwise.
pub uninterp spec fn json_error_of(s: Seq<char>) -> Option<(u64, Seq<char>)>;

/// Relies on serde_json::from_str and serde_json::Value's accessors:
/// parses `s` as JSON and extracts the `status` integer and `message`
/// string fields. The result depends on the characters of `s` alone.
#[verifier::external_body]
fn parse_error_fields(s: &str) -> (r: Option<(u64, String)>)
    ensures
        match r {
            Some(p) => json_error_of(s@) == Some((p.0, p.1@)),
            None => json_error_of(s@) is None,
        },
{
    let v: serde_json::Value = serde_json::from_str(s).ok()?;
    let status = v.get("status")?.as_u64()?;
    let message = v.get("message")?.as_str()?.to_string();
    Some((status, message))
}

/// What classifying a non-success response comes to: the parsed body
/// carried verbatim beside the response's own status code, or the fallback
/// error when the body yields no structured error (or a status field no
/// real status code can hold).
pub open spec fn spec_classified(status: u16, body: Seq<char>, e: AuthError) -> bool {
    match json_error_of(body) {
        Some(p) => if p.0 <= u16::MAX {
            e matches AuthError::ServerRejected { status: rs, body: b }
                && rs == status
                && b.status == p.0
                && b.message@ == p.1
        } else {
            e == spec_default_error()
        },
        None => e == spec_default_error(),
    }
}

impl AuthError {
    /// Wrap a purely client-side condition.
    pub fn from_error_type(kind: AuthErrorType) -> (e: AuthError)
        ensures
            e == (AuthError::Client { kind }),
    {
        AuthError::Client { kind }
    }

    /// Classify a non-success response from its status code and body
    /// text: carry the parsed `{status, message}` body verbatim, or fall
    /// back to the generic error so the caller always has something
    /// renderable.
    pub fn from_response_parts(status: u16, body: &str) -> (e: AuthError)
        ensures
            spec_classified(status, body@, e),
    {
        match parse_error_fields(body) {
            Some(p) => {
                if p.0 <= u16::MAX as u64 {
                    AuthError::ServerRejected {
                        status,
                        body: AuthErrorBody { status: p.0 as u16, message: p.1 },
                    }
                } else {
                    AuthError::default()
                }
            },
            None => AuthError::default(),
        }
    }

    /// The body to render: the server's own body for a structured
    /// rejection, the generic fallback otherwise. The caller never needs
    /// to branch on every kind, only on what this returns.
    pub fn body(&self) -> (b: AuthErrorBody)
        ensures
            match self {
                AuthError::ServerRejected { status: _, body } => b.status == body.status
                    && b.message@ == body.message@,
                AuthError::Client { kind: _ } => b.status == 500
                    && b.message@ == spec_fallback_message(),
            },
    {
        match self {
            AuthError::ServerRejected { status: _, body } => AuthErrorBody {
                status: body.status,
                message: body.message.clone(),
            },
            AuthError::Client { kind: _ } => AuthErrorBody {
                status: 500,
                message: String::from_str("an unexpected error occurred"),
            },
        }
    }
}

impl Default for AuthError {
    /// The generic fallback error.
    fn default() -> (e: AuthError)
        ensures
            e == spec_default_error(),
    {
        AuthError::Client { kind: AuthErrorType::NetworkFailure }
    }
}

} // verus!

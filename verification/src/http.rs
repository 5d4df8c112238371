//! Plain-value descriptions of outgoing requests and incoming responses,
//! and the immutable client configuration. The transport that performs a
//! described request lives outside this crate; the logic here only builds
//! descriptions and interprets the plain values a response was reduced to.

use vstd::prelude::*;
use vstd::string::*;
use crate::user::{LoginUser, RegisterUser, ResetUser};

verus! {

/// The HTTP methods the authentication API uses.
#[derive(Clone, Copy, PartialEq, Eq, Structural, Debug)]
pub enum Method {
    Get,
    Post,
    Delete,
}

/// The body of an outgoing request: nothing, a raw text body, or a typed
/// payload the transport layer serializes as JSON.
#[derive(Debug)]
pub enum RequestBody {
    Empty,
    Text(String),
    Register(RegisterUser),
    Login(LoginUser),
    Reset(ResetUser),
}

/// A complete description of one outgoing request: everything the
/// transport needs, as plain values.
#[derive(Debug)]
pub struct OutRequest {
    pub method: Method,
    pub url: String,
    /// A credential to attach as a bearer `authorization` header.
    pub bearer: Option<String>,
    pub body: RequestBody,
}

/// A received response reduced to plain values: the status code, every
/// `authorization` header value in order, and the body text.
#[derive(Debug)]
pub struct ResponseParts {
    pub status: u16,
    pub auth_headers: Vec<String>,
    pub body: String,
}

/// Whether a status code counts as success: the 2xx class.
pub open spec fn spec_is_success(status: u16) -> bool {
    200 <= status < 300
}

/// Decide whether a status code is a success code.
pub fn status_is_success(status: u16) -> (r: bool)
    ensures
        r == spec_is_success(status),
{
    200 <= status && status < 300
}

/// Immutable client configuration, built once at process start and passed
/// by reference to every component that needs it.
pub struct ClientConfig {
    base_url: String,
}

impl ClientConfig {
    /// The configured base URL's characters.
    pub closed spec fn base(&self) -> Seq<char> {
        self.base_url@
    }

    /// Build the configuration around the API's base URL.
    pub fn new(base_url: String) -> (c: ClientConfig)
        ensures
            c.base() == base_url@,
    {
        ClientConfig { base_url }
    }
}

/// The base URL used when the host supplies none.
pub fn default_base_url() -> (s: String)
    ensures
        s@ == "http://localhost:3001"@,
{
    String::from_str("http://localhost:3001")
}

/// The configured base URL, for composing endpoint addresses.
pub fn get_base_url(cfg: &ClientConfig) -> (s: String)
    ensures
        s@ == cfg.base(),
{
    cfg.base_url.clone()
}

} // verus!

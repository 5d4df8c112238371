//! The in-memory token representation and its textual codec.
//!
//! A token is an opaque credential string. The codec between the stored
//! textual form and the in-memory value is total: the empty string decodes
//! to the empty ("unauthenticated") sentinel token, so callers can detect
//! absence of a session by comparing against the empty token instead of
//! special-casing a missing storage slot.

use vstd::prelude::*;
use vstd::string::*;

verus! {

/// An opaque credential held in memory. Its mathematical model is the
/// sequence of characters of its textual form.
pub struct AuthToken {
    value: String,
}

impl View for AuthToken {
    type V = Seq<char>;

    closed spec fn view(&self) -> Seq<char> {
        self.value@
    }
}

/// What encoding a token to its stored textual form yields: the
/// credential's characters, unchanged.
pub open spec fn spec_encode(t: Seq<char>) -> Seq<char> {
    t
}

/// What decoding a stored textual form yields: the characters become the
/// in-memory token; the empty string becomes the empty sentinel token.
pub open spec fn spec_decode(s: Seq<char>) -> Seq<char> {
    s
}

impl AuthToken {
    /// Decode a stored textual form into a token.
    pub fn from_string(s: String) -> (t: AuthToken)
        ensures
            t@ == spec_decode(s@),
    {
        AuthToken { value: s }
    }

    /// Encode this token into its stored textual form.
    pub fn to_string(&self) -> (s: String)
        ensures
            s@ == spec_encode(self@),
    {
        self.value.clone()
    }

    /// Whether this is the empty sentinel token, i.e. no credential.
    pub fn is_empty(&self) -> (r: bool)
        ensures
            r == (self@.len() == 0),
    {
        self.value.as_str().unicode_len() == 0
    }
}

impl Default for AuthToken {
    /// The empty sentinel token: the state of an unauthenticated visitor.
    fn default() -> (t: AuthToken)
        ensures
            t@ == Seq::<char>::empty(),
    {
        AuthToken { value: String::new() }
    }
}

/// Codec round trip: decoding an encoded non-empty token restores exactly
/// the original credential.
pub proof fn lemma_codec_round_trip(t: Seq<char>)
    requires
        t.len() > 0,
    ensures
        spec_decode(spec_encode(t)) == t,
{
}

} // verus!

//! The token store: two named slots of persistent client-side storage,
//! one for the short-lived access token and one for the longer-lived
//! requester token. An absent slot is a valid state and means
//! "unauthenticated". The store is an injected value so the request logic
//! never reaches into a global storage facility.

use vstd::prelude::*;
use crate::token::AuthToken;

verus! {

/// The two token slots of client-side storage.
///
/// The model of each slot is `Option<Seq<char>>`: either absent, or the
/// characters of the serialized token held there.
pub struct AuthStorage {
    auth_token: Option<String>,
    requester_token: Option<String>,
}

impl AuthStorage {
    /// The access-token slot's contents.
    pub closed spec fn auth_slot(&self) -> Option<Seq<char>> {
        match self.auth_token {
            Some(s) => Some(s@),
            None => None,
        }
    }

    /// The requester-token slot's contents.
    pub closed spec fn requester_slot(&self) -> Option<Seq<char>> {
        match self.requester_token {
            Some(s) => Some(s@),
            None => None,
        }
    }

    /// Both slots are absent: no session material remains.
    pub open spec fn is_cleared(&self) -> bool {
        self.auth_slot() is None && self.requester_slot() is None
    }

    /// A fresh store with both slots absent, the state of a first visit.
    pub fn new() -> (s: AuthStorage)
        ensures
            s.is_cleared(),
    {
        AuthStorage { auth_token: None, requester_token: None }
    }

    /// Read the access-token slot; `None` when the slot is absent.
    pub fn get_auth_token(&self) -> (r: Option<AuthToken>)
        ensures
            match r {
                Some(t) => self.auth_slot() == Some(t@),
                None => self.auth_slot() is None,
            },
    {
        match &self.auth_token {
            Some(s) => Some(AuthToken::from_string(s.clone())),
            None => None,
        }
    }

    /// Read the requester-token slot; `None` when the slot is absent.
    pub fn get_requester_token(&self) -> (r: Option<AuthToken>)
        ensures
            match r {
                Some(t) => self.requester_slot() == Some(t@),
                None => self.requester_slot() is None,
            },
    {
        match &self.requester_token {
            Some(s) => Some(AuthToken::from_string(s.clone())),
            None => None,
        }
    }

    /// Overwrite the access-token slot wholesale; the requester slot is
    /// untouched.
    pub fn store_auth_token(&mut self, token: AuthToken)
        ensures
            final(self).auth_slot() == Some(token@),
            final(self).requester_slot() == old(self).requester_slot(),
    {
        self.auth_token = Some(token.to_string());
    }

    /// Overwrite the requester-token slot wholesale; the access slot is
    /// untouched.
    pub fn store_requester_token(&mut self, token: AuthToken)
        ensures
            final(self).requester_slot() == Some(token@),
            final(self).auth_slot() == old(self).auth_slot(),
    {
        self.requester_token = Some(token.to_string());
    }

    /// Store every `authorization` header value as a requester token, in
    /// order; the server may rotate the requester token on any
    /// authenticated call, and the last value sent wins. With no header
    /// the store is untouched, so this is safe to call on every response.
    pub fn store_from_headers(&mut self, headers: &Vec<String>)
        ensures
            final(self).auth_slot() == old(self).auth_slot(),
            headers@.len() == 0 ==> final(self).requester_slot() == old(self).requester_slot(),
            headers@.len() > 0 ==> final(self).requester_slot() == Some(headers@.last()@),
    {
        let n = headers.len();
        let mut i: usize = 0;
        while i < n
            invariant
                i <= n,
                n == headers@.len(),
                self.auth_slot() == old(self).auth_slot(),
                i == 0 ==> self.requester_slot() == old(self).requester_slot(),
                i > 0 ==> self.requester_slot() == Some(headers@[i - 1]@),
            decreases n - i,
        {
            self.store_requester_token(AuthToken::from_string(headers[i].clone()));
            i = i + 1;
        }
    }

    /// Remove both slots. Total and unconditional: clearing an already
    /// empty store is not an error and leaves it empty, so the operation
    /// is idempotent, and from the caller's point of view both slots go
    /// away together.
    pub fn clear(&mut self)
        ensures
            final(self).is_cleared(),
    {
        self.auth_token = None;
        self.requester_token = None;
    }
}

} // verus!

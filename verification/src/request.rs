//! The authenticated-request state machine. An `AuthRequest` is an
//! ephemeral value bound to one in-flight call: it owns a snapshot of the
//! current access token and the request description. Every send first
//! refreshes the access token through the requester token (trading one
//! extra round trip for guaranteed freshness), then attaches the fresh
//! token and hands the described call to the transport.
//!
//! The transport itself lives outside this crate: the machine yields an
//! `OutRequest` to perform and is stepped with the `Option<ResponseParts>`
//! the transport produced (`None` when the transport never completed), so
//! every decision the flow makes is taken here, on plain values.

use vstd::prelude::*;
use vstd::string::*;
use crate::error::{spec_classified, AuthError, AuthErrorType};
use crate::http::{get_base_url, spec_is_success, status_is_success, ClientConfig, Method, OutRequest, RequestBody, ResponseParts};
use crate::storage::AuthStorage;
use crate::token::AuthToken;

verus! {

/// Where one send stands: built, waiting on the refresh exchange, ready
/// to perform the authenticated call, or terminated by a failure. The
/// successful end of the flow consumes the request instead.
#[derive(Clone, Copy, PartialEq, Eq, Structural, Debug)]
pub enum SendState {
    Created,
    Refreshing,
    Sending,
    Done,
}

/// One in-flight authenticated request.
pub struct AuthRequest {
    desc: OutRequest,
    token: AuthToken,
    state: SendState,
}

impl AuthRequest {
    /// The request description this send was built from.
    pub closed spec fn desc(&self) -> OutRequest {
        self.desc
    }

    /// The working access token's characters.
    pub closed spec fn token_view(&self) -> Seq<char> {
        self.token@
    }

    /// The flow's current state.
    pub closed spec fn state(&self) -> SendState {
        self.state
    }

    /// The flow's current state, for callers outside the proof.
    pub fn current_state(&self) -> (s: SendState)
        ensures
            s == self.state(),
    {
        self.state
    }

    /// Build a send around a request description, snapshotting whatever
    /// access token storage currently holds. An absent token is the
    /// normal state of an unauthenticated visitor, so the snapshot falls
    /// back to the empty token rather than failing construction.
    pub fn new(desc: OutRequest, store: &AuthStorage) -> (r: AuthRequest)
        ensures
            r.state() == SendState::Created,
            r.desc() == desc,
            match store.auth_slot() {
                Some(t) => r.token_view() == t,
                None => r.token_view() == Seq::<char>::empty(),
            },
    {
        let token = match store.get_auth_token() {
            Some(t) => t,
            None => AuthToken::default(),
        };
        AuthRequest { desc, token, state: SendState::Created }
    }

    /// Begin the refresh exchange: describe the call that trades the
    /// requester token for a fresh access token. With no requester token
    /// in storage there is nothing to refresh from, so no request is
    /// produced at all and the flow ends with `InvalidToken`.
    pub fn refresh_request(&mut self, store: &AuthStorage, cfg: &ClientConfig) -> (r: Result<
        OutRequest,
        AuthError,
    >)
        requires
            old(self).state() == SendState::Created,
        ensures
            final(self).desc() == old(self).desc(),
            final(self).token_view() == old(self).token_view(),
            match store.requester_slot() {
                Some(t) => {
                    &&& final(self).state() == SendState::Refreshing
                    &&& match r {
                        Ok(req) => {
                            &&& req.method == Method::Get
                            &&& req.url@ == cfg.base() + "/auth/request"@
                            &&& req.bearer matches Some(b) && b@ == t
                            &&& req.body is Empty
                        },
                        Err(_) => false,
                    }
                },
                None => {
                    &&& final(self).state() == SendState::Done
                    &&& r matches Err(e) && e == (AuthError::Client {
                        kind: AuthErrorType::InvalidToken,
                    })
                },
            },
    {
        match store.get_requester_token() {
            Some(requester) => {
                self.state = SendState::Refreshing;
                Ok(
                    OutRequest {
                        method: Method::Get,
                        url: get_base_url(cfg).concat("/auth/request"),
                        bearer: Some(requester.to_string()),
                        body: RequestBody::Empty,
                    },
                )
            },
            None => {
                self.state = SendState::Done;
                Err(AuthError::from_error_type(AuthErrorType::InvalidToken))
            },
        }
    }

    /// Step the flow with the outcome of the refresh exchange.
    ///
    /// A transport failure ends the flow with `RequestFailed`; a
    /// non-success status ends it with the classified server rejection; a
    /// success response without an `authorization` header ends it with
    /// `TokenCreation` — in each of these the store keeps exactly what it
    /// held, with no partial overwrite. A success response carrying the
    /// header persists the fresh access token wholesale and re-reads it
    /// into the working token, and the flow is ready to send.
    pub fn refresh_finish(&mut self, store: &mut AuthStorage, outcome: Option<ResponseParts>) -> (r:
        Result<(), AuthError>)
        requires
            old(self).state() == SendState::Refreshing,
        ensures
            final(self).desc() == old(self).desc(),
            match outcome {
                None => {
                    &&& r matches Err(e) && e == (AuthError::Client {
                        kind: AuthErrorType::RequestFailed,
                    })
                    &&& final(store).auth_slot() == old(store).auth_slot()
                    &&& final(store).requester_slot() == old(store).requester_slot()
                    &&& final(self).token_view() == old(self).token_view()
                    &&& final(self).state() == SendState::Done
                },
                Some(resp) => if !spec_is_success(resp.status) {
                    &&& r matches Err(e) && spec_classified(resp.status, resp.body@, e)
                    &&& final(store).auth_slot() == old(store).auth_slot()
                    &&& final(store).requester_slot() == old(store).requester_slot()
                    &&& final(self).token_view() == old(self).token_view()
                    &&& final(self).state() == SendState::Done
                } else if resp.auth_headers@.len() == 0 {
                    &&& r matches Err(e) && e == (AuthError::Client {
                        kind: AuthErrorType::TokenCreation,
                    })
                    &&& final(store).auth_slot() == old(store).auth_slot()
                    &&& final(store).requester_slot() == old(store).requester_slot()
                    &&& final(self).token_view() == old(self).token_view()
                    &&& final(self).state() == SendState::Done
                } else {
                    &&& r is Ok
                    &&& final(store).auth_slot() == Some(resp.auth_headers@[0]@)
                    &&& final(store).requester_slot() == old(store).requester_slot()
                    &&& final(self).token_view() == resp.auth_headers@[0]@
                    &&& final(self).state() == SendState::Sending
                },
            },
    {
        match outcome {
            None => {
                self.state = SendState::Done;
                Err(AuthError::from_error_type(AuthErrorType::RequestFailed))
            },
            Some(resp) => {
                if !status_is_success(resp.status) {
                    self.state = SendState::Done;
                    Err(AuthError::from_response_parts(resp.status, resp.body.as_str()))
                } else if resp.auth_headers.len() == 0 {
                    self.state = SendState::Done;
                    Err(AuthError::from_error_type(AuthErrorType::TokenCreation))
                } else {
                    let header = resp.auth_headers[0].clone();
                    store.store_auth_token(AuthToken::from_string(header));
                    match store.get_auth_token() {
                        Some(t) => {
                            self.token = t;
                            self.state = SendState::Sending;
                            Ok(())
                        },
                        None => unreached(),
                    }
                }
            },
        }
    }

    /// Conclude the flow: the described call with the freshly refreshed
    /// access token attached as its bearer credential. Consumes the send,
    /// which lives for exactly one invocation.
    pub fn into_send_request(self) -> (r: OutRequest)
        requires
            self.state() == SendState::Sending,
        ensures
            r.method == self.desc().method,
            r.url == self.desc().url,
            r.body == self.desc().body,
            r.bearer matches Some(b) && b@ == self.token_view(),
    {
        OutRequest {
            method: self.desc.method,
            url: self.desc.url,
            bearer: Some(self.token.to_string()),
            body: self.desc.body,
        }
    }
}

/// Interpret the outcome of the authenticated call itself: a transport
/// failure (as opposed to a server-side rejection) is classified as
/// `BadRequest`; any received response is handed back to the caller, who
/// owns status inspection and body decoding.
pub fn finish_send(outcome: Option<ResponseParts>) -> (r: Result<ResponseParts, AuthError>)
    ensures
        match outcome {
            None => r matches Err(e) && e == (AuthError::Client { kind: AuthErrorType::BadRequest }),
            Some(resp) => r matches Ok(p) && p == resp,
        },
{
    match outcome {
        None => Err(AuthError::from_error_type(AuthErrorType::BadRequest)),
        Some(resp) => Ok(resp),
    }
}

} // verus!

//! The public auth operations: register, login, reset-password,
//! request-reset, logout and the authenticated test route. Each is a thin
//! composition split around the transport boundary: a `*_request` builder
//! describes the call to perform, and a `*_finish` function interprets the
//! plain-value outcome, persisting tokens and classifying failures, so
//! every decision is taken here. `logout_user` performs no network call at
//! all.

use vstd::prelude::*;
use vstd::string::*;
use crate::error::{spec_classified, spec_default_error, AuthError};
use crate::http::{get_base_url, spec_is_success, status_is_success, ClientConfig, Method, OutRequest, RequestBody, ResponseParts};
use crate::storage::AuthStorage;
use crate::user::{json_user_of, user_info_from_json, LoginUser, RegisterUser, ResetUser, UserInfo};

verus! {

/// Describe the registration call: credentials posted as JSON, with no
/// session credential attached (none exists yet).
pub fn register_request(cfg: &ClientConfig, user: RegisterUser) -> (r: OutRequest)
    ensures
        r.method == Method::Post,
        r.url@ == cfg.base() + "/auth/register"@,
        r.bearer is None,
        r.body == RequestBody::Register(user),
{
    OutRequest {
        method: Method::Post,
        url: get_base_url(cfg).concat("/auth/register"),
        bearer: None,
        body: RequestBody::Register(user),
    }
}

/// Describe the login call: credentials posted as JSON, with no session
/// credential attached.
pub fn login_request(cfg: &ClientConfig, user: LoginUser) -> (r: OutRequest)
    ensures
        r.method == Method::Post,
        r.url@ == cfg.base() + "/auth/login"@,
        r.bearer is None,
        r.body == RequestBody::Login(user),
{
    OutRequest {
        method: Method::Post,
        url: get_base_url(cfg).concat("/auth/login"),
        bearer: None,
        body: RequestBody::Login(user),
    }
}

/// Describe the keyed password-reset call: the new credential posted as
/// JSON to the reset endpoint for `key`.
pub fn reset_request(cfg: &ClientConfig, user: ResetUser, key: &str) -> (r: OutRequest)
    ensures
        r.method == Method::Post,
        r.url@ == cfg.base() + "/auth/reset/"@ + key@,
        r.bearer is None,
        r.body == RequestBody::Reset(user),
{
    OutRequest {
        method: Method::Post,
        url: get_base_url(cfg).concat("/auth/reset/").concat(key),
        bearer: None,
        body: RequestBody::Reset(user),
    }
}

/// Describe the reset-request call: the account's email address posted as
/// a raw text body.
pub fn request_reset_request(cfg: &ClientConfig, email: String) -> (r: OutRequest)
    ensures
        r.method == Method::Post,
        r.url@ == cfg.base() + "/auth/reset"@,
        r.bearer is None,
        r.body == RequestBody::Text(email),
{
    OutRequest {
        method: Method::Post,
        url: get_base_url(cfg).concat("/auth/reset"),
        bearer: None,
        body: RequestBody::Text(email),
    }
}

/// Describe the authenticated test call; the bearer credential is
/// attached later by the authenticated-request flow.
pub fn test_request(cfg: &ClientConfig) -> (r: OutRequest)
    ensures
        r.method == Method::Get,
        r.url@ == cfg.base() + "/auth/test"@,
        r.bearer is None,
        r.body is Empty,
{
    OutRequest {
        method: Method::Get,
        url: get_base_url(cfg).concat("/auth/test"),
        bearer: None,
        body: RequestBody::Empty,
    }
}

/// What concluding a session-opening call (register or login) guarantees:
/// a transport failure or a server rejection leaves the store untouched;
/// on success every `authorization` header is persisted as a requester
/// token (last one wins) and the user info is decoded from the body, a
/// body without one yielding the fallback error.
pub open spec fn session_outcome_ok(
    pre: AuthStorage,
    post: AuthStorage,
    outcome: Option<ResponseParts>,
    r: Result<UserInfo, AuthError>,
) -> bool {
    match outcome {
        None => {
            &&& r matches Err(e) && e == spec_default_error()
            &&& post.auth_slot() == pre.auth_slot()
            &&& post.requester_slot() == pre.requester_slot()
        },
        Some(resp) => if !spec_is_success(resp.status) {
            &&& r matches Err(e) && spec_classified(resp.status, resp.body@, e)
            &&& post.auth_slot() == pre.auth_slot()
            &&& post.requester_slot() == pre.requester_slot()
        } else {
            &&& post.auth_slot() == pre.auth_slot()
            &&& (resp.auth_headers.len() == 0 ==> post.requester_slot() == pre.requester_slot())
            &&& (resp.auth_headers.len() > 0 ==> post.requester_slot() == Some(
                resp.auth_headers@.last()@,
            ))
            &&& match json_user_of(resp.body@) {
                Some(u) => r matches Ok(info) && info.uuid@ == u.0 && info.is_admin == u.1,
                None => r matches Err(e) && e == spec_default_error(),
            }
        },
    }
}

/// The shared conclusion of register and login, whose server contract is
/// the same: persist rotated requester tokens, decode the user info.
fn conclude_session(store: &mut AuthStorage, outcome: Option<ResponseParts>) -> (r: Result<
    UserInfo,
    AuthError,
>)
    ensures
        session_outcome_ok(*old(store), *final(store), outcome, r),
{
    match outcome {
        None => Err(AuthError::default()),
        Some(resp) => {
            if !status_is_success(resp.status) {
                Err(AuthError::from_response_parts(resp.status, resp.body.as_str()))
            } else {
                store.store_from_headers(&resp.auth_headers);
                match user_info_from_json(resp.body.as_str()) {
                    Some(info) => Ok(info),
                    None => Err(AuthError::default()),
                }
            }
        },
    }
}

/// Interpret the outcome of the registration call.
pub fn register_finish(store: &mut AuthStorage, outcome: Option<ResponseParts>) -> (r: Result<
    UserInfo,
    AuthError,
>)
    ensures
        session_outcome_ok(*old(store), *final(store), outcome, r),
{
    conclude_session(store, outcome)
}

/// Interpret the outcome of the login call.
pub fn login_finish(store: &mut AuthStorage, outcome: Option<ResponseParts>) -> (r: Result<
    UserInfo,
    AuthError,
>)
    ensures
        session_outcome_ok(*old(store), *final(store), outcome, r),
{
    conclude_session(store, outcome)
}

/// What concluding either reset call guarantees: once any response was
/// received — success or rejection alike — the local session material is
/// cleared wholesale (a bad reset key invalidates the session too); a
/// rejection is still classified and returned. Only a transport failure,
/// where no response was received, leaves the store untouched.
pub open spec fn reset_outcome_ok(
    pre: AuthStorage,
    post: AuthStorage,
    outcome: Option<ResponseParts>,
    r: Result<u16, AuthError>,
) -> bool {
    match outcome {
        None => {
            &&& r matches Err(e) && e == spec_default_error()
            &&& post.auth_slot() == pre.auth_slot()
            &&& post.requester_slot() == pre.requester_slot()
        },
        Some(resp) => {
            &&& post.is_cleared()
            &&& if spec_is_success(resp.status) {
                r matches Ok(s) && s == resp.status
            } else {
                r matches Err(e) && spec_classified(resp.status, resp.body@, e)
            }
        },
    }
}

/// The shared conclusion of the two reset calls, whose clearing behavior
/// is the same.
fn conclude_reset(store: &mut AuthStorage, outcome: Option<ResponseParts>) -> (r: Result<
    u16,
    AuthError,
>)
    ensures
        reset_outcome_ok(*old(store), *final(store), outcome, r),
{
    match outcome {
        None => Err(AuthError::default()),
        Some(resp) => {
            store.clear();
            if status_is_success(resp.status) {
                Ok(resp.status)
            } else {
                Err(AuthError::from_response_parts(resp.status, resp.body.as_str()))
            }
        },
    }
}

/// Interpret the outcome of the keyed password-reset call.
pub fn reset_finish(store: &mut AuthStorage, outcome: Option<ResponseParts>) -> (r: Result<
    u16,
    AuthError,
>)
    ensures
        reset_outcome_ok(*old(store), *final(store), outcome, r),
{
    conclude_reset(store, outcome)
}

/// Interpret the outcome of the reset-request call.
pub fn request_reset_finish(store: &mut AuthStorage, outcome: Option<ResponseParts>) -> (r: Result<
    u16,
    AuthError,
>)
    ensures
        reset_outcome_ok(*old(store), *final(store), outcome, r),
{
    conclude_reset(store, outcome)
}

/// Interpret the outcome of the authenticated test call: a transport
/// failure yields the fallback error, a rejection is classified, and a
/// success hands back the status code.
pub fn test_auth_finish(outcome: Option<ResponseParts>) -> (r: Result<u16, AuthError>)
    ensures
        match outcome {
            None => r matches Err(e) && e == spec_default_error(),
            Some(resp) => if spec_is_success(resp.status) {
                r matches Ok(s) && s == resp.status
            } else {
                r matches Err(e) && spec_classified(resp.status, resp.body@, e)
            },
        },
{
    match outcome {
        None => Err(AuthError::default()),
        Some(resp) => {
            if status_is_success(resp.status) {
                Ok(resp.status)
            } else {
                Err(AuthError::from_response_parts(resp.status, resp.body.as_str()))
            }
        },
    }
}

/// End the session locally: clear both token slots. No network call is
/// made, and the operation is total and idempotent — clearing an already
/// empty store succeeds and leaves it empty.
pub fn logout_user(store: &mut AuthStorage)
    ensures
        final(store).is_cleared(),
{
    store.clear();
}

} // verus!

use auth_client::ops::{login_finish, test_auth_finish, test_request};
use auth_client::request::finish_send;
use auth_client::{
    AuthError, AuthErrorType, AuthRequest, AuthStorage, AuthToken, ClientConfig, LoginUser, Method,
    ResponseParts, SendState,
};

fn config() -> ClientConfig {
    ClientConfig::new(String::from("http://localhost:3001"))
}

fn response(status: u16, auth_headers: Vec<&str>, body: &str) -> ResponseParts {
    ResponseParts {
        status,
        auth_headers: auth_headers.into_iter().map(String::from).collect(),
        body: String::from(body),
    }
}

#[test]
fn refresh_with_missing_requester_token_fails_without_a_call() {
    let store = AuthStorage::new();
    let cfg = config();
    let mut ar = AuthRequest::new(test_request(&cfg), &store);
    let r = ar.refresh_request(&store, &cfg);
    // No request description is produced, so no network call can happen.
    assert_eq!(
        r.unwrap_err(),
        AuthError::Client { kind: AuthErrorType::InvalidToken }
    );
    assert_eq!(ar.current_state(), SendState::Done);
}

#[test]
fn refresh_success_persists_the_header_token() {
    let mut store = AuthStorage::new();
    store.store_requester_token(AuthToken::from_string(String::from("rtok-abc")));
    let cfg = config();
    let mut ar = AuthRequest::new(test_request(&cfg), &store);

    let req = ar.refresh_request(&store, &cfg).unwrap();
    assert_eq!(req.method, Method::Get);
    assert_eq!(req.url, "http://localhost:3001/auth/request");
    assert_eq!(req.bearer.as_deref(), Some("rtok-abc"));

    let r = ar.refresh_finish(&mut store, Some(response(200, vec!["atok-xyz"], "")));
    assert!(r.is_ok());
    assert_eq!(store.get_auth_token().unwrap().to_string(), "atok-xyz");
    assert_eq!(store.get_requester_token().unwrap().to_string(), "rtok-abc");
    assert_eq!(ar.current_state(), SendState::Sending);
}

#[test]
fn refresh_response_without_header_leaves_prior_token() {
    let mut store = AuthStorage::new();
    store.store_auth_token(AuthToken::from_string(String::from("old-atok")));
    store.store_requester_token(AuthToken::from_string(String::from("rtok")));
    let cfg = config();
    let mut ar = AuthRequest::new(test_request(&cfg), &store);
    let _ = ar.refresh_request(&store, &cfg).unwrap();

    let r = ar.refresh_finish(&mut store, Some(response(200, vec![], "")));
    assert_eq!(
        r.unwrap_err(),
        AuthError::Client { kind: AuthErrorType::TokenCreation }
    );
    // No partial overwrite: the prior access token is untouched.
    assert_eq!(store.get_auth_token().unwrap().to_string(), "old-atok");
    assert_eq!(store.get_requester_token().unwrap().to_string(), "rtok");
}

#[test]
fn refresh_transport_failure_is_request_failed() {
    let mut store = AuthStorage::new();
    store.store_requester_token(AuthToken::from_string(String::from("rtok")));
    let cfg = config();
    let mut ar = AuthRequest::new(test_request(&cfg), &store);
    let _ = ar.refresh_request(&store, &cfg).unwrap();
    let r = ar.refresh_finish(&mut store, None);
    assert_eq!(
        r.unwrap_err(),
        AuthError::Client { kind: AuthErrorType::RequestFailed }
    );
    assert!(store.get_auth_token().is_none());
}

#[test]
fn refresh_rejection_is_classified() {
    let mut store = AuthStorage::new();
    store.store_requester_token(AuthToken::from_string(String::from("rtok")));
    let cfg = config();
    let mut ar = AuthRequest::new(test_request(&cfg), &store);
    let _ = ar.refresh_request(&store, &cfg).unwrap();
    let r = ar.refresh_finish(
        &mut store,
        Some(response(401, vec![], "{\"status\":401,\"message\":\"expired\"}")),
    );
    let e = r.unwrap_err();
    assert_eq!(e.body().status, 401);
    assert_eq!(e.body().message, "expired");
    assert!(store.get_auth_token().is_none());
}

#[test]
fn send_transport_failure_is_bad_request() {
    let r = finish_send(None);
    assert_eq!(
        r.unwrap_err(),
        AuthError::Client { kind: AuthErrorType::BadRequest }
    );
}

#[test]
fn login_then_authenticated_test_round() {
    let mut store = AuthStorage::new();
    let cfg = config();

    // Login: the server answers 200 with a requester token and user info.
    let _login_req = auth_client::ops::login_request(
        &cfg,
        LoginUser { username: String::from("u"), pass: String::from("p") },
    );
    let login = login_finish(
        &mut store,
        Some(response(200, vec!["rtok-abc"], "{\"uuid\":\"u1\",\"is_admin\":false}")),
    )
    .unwrap();
    assert_eq!(login.uuid, "u1");
    assert!(!login.is_admin);
    assert_eq!(store.get_requester_token().unwrap().to_string(), "rtok-abc");

    // Authenticated test route: the send refreshes through rtok-abc.
    let mut ar = AuthRequest::new(test_request(&cfg), &store);
    let refresh_req = ar.refresh_request(&store, &cfg).unwrap();
    assert_eq!(refresh_req.bearer.as_deref(), Some("rtok-abc"));
    ar.refresh_finish(&mut store, Some(response(200, vec!["atok-xyz"], "")))
        .unwrap();
    assert_eq!(store.get_auth_token().unwrap().to_string(), "atok-xyz");

    // The final call goes out with the fresh bearer token.
    let out = ar.into_send_request();
    assert_eq!(out.bearer.as_deref(), Some("atok-xyz"));
    assert_eq!(out.url, "http://localhost:3001/auth/test");

    let sent = finish_send(Some(response(200, vec![], "auth test route"))).unwrap();
    assert_eq!(test_auth_finish(Some(sent)).unwrap(), 200);
}

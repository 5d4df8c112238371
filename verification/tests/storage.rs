use auth_client::ops::logout_user;
use auth_client::{AuthStorage, AuthToken};

#[test]
fn slots_are_independent() {
    let mut store = AuthStorage::new();
    assert!(store.get_auth_token().is_none());
    assert!(store.get_requester_token().is_none());

    store.store_auth_token(AuthToken::from_string(String::from("atok")));
    assert_eq!(store.get_auth_token().unwrap().to_string(), "atok");
    assert!(store.get_requester_token().is_none());

    store.store_requester_token(AuthToken::from_string(String::from("rtok")));
    assert_eq!(store.get_requester_token().unwrap().to_string(), "rtok");
    assert_eq!(store.get_auth_token().unwrap().to_string(), "atok");
}

#[test]
fn clear_removes_both_slots() {
    let mut store = AuthStorage::new();
    store.store_auth_token(AuthToken::from_string(String::from("atok")));
    store.store_requester_token(AuthToken::from_string(String::from("rtok")));
    store.clear();
    assert!(store.get_auth_token().is_none());
    assert!(store.get_requester_token().is_none());
}

#[test]
fn logout_is_idempotent_on_empty_storage() {
    let mut store = AuthStorage::new();
    logout_user(&mut store);
    assert!(store.get_auth_token().is_none());
    assert!(store.get_requester_token().is_none());
    logout_user(&mut store);
    assert!(store.get_auth_token().is_none());
    assert!(store.get_requester_token().is_none());
}

#[test]
fn store_from_headers_last_value_wins() {
    let mut store = AuthStorage::new();
    store.store_auth_token(AuthToken::from_string(String::from("atok")));
    let headers = vec![String::from("first"), String::from("second")];
    store.store_from_headers(&headers);
    assert_eq!(store.get_requester_token().unwrap().to_string(), "second");
    assert_eq!(store.get_auth_token().unwrap().to_string(), "atok");
}

#[test]
fn store_from_headers_without_headers_is_untouched() {
    let mut store = AuthStorage::new();
    store.store_requester_token(AuthToken::from_string(String::from("rtok")));
    let headers: Vec<String> = vec![];
    store.store_from_headers(&headers);
    assert_eq!(store.get_requester_token().unwrap().to_string(), "rtok");
}

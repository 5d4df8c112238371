use auth_client::{AuthError, AuthErrorType};

#[test]
fn structured_body_is_carried_verbatim() {
    let e = AuthError::from_response_parts(409, "{\"status\":409,\"message\":\"username taken\"}");
    match &e {
        AuthError::ServerRejected { status, body } => {
            assert_eq!(*status, 409);
            assert_eq!(body.status, 409);
            assert_eq!(body.message, "username taken");
        }
        AuthError::Client { .. } => panic!("expected a server rejection"),
    }
    let rendered = e.body();
    assert_eq!(rendered.status, 409);
    assert_eq!(rendered.message, "username taken");
}

#[test]
fn body_status_may_differ_from_response_status() {
    let e = AuthError::from_response_parts(502, "{\"status\":400,\"message\":\"bad key\"}");
    match e {
        AuthError::ServerRejected { status, body } => {
            assert_eq!(status, 502);
            assert_eq!(body.status, 400);
            assert_eq!(body.message, "bad key");
        }
        AuthError::Client { .. } => panic!("expected a server rejection"),
    }
}

#[test]
fn unparsable_body_falls_back_to_generic_error() {
    let e = AuthError::from_response_parts(500, "not json at all");
    assert_eq!(e, AuthError::default());
}

#[test]
fn body_missing_fields_falls_back() {
    let e = AuthError::from_response_parts(500, "{\"status\":500}");
    assert_eq!(e, AuthError::default());
}

#[test]
fn status_field_too_large_falls_back() {
    let e = AuthError::from_response_parts(500, "{\"status\":70000,\"message\":\"x\"}");
    assert_eq!(e, AuthError::default());
}

#[test]
fn default_error_is_the_network_failure_kind() {
    assert_eq!(
        AuthError::default(),
        AuthError::Client { kind: AuthErrorType::NetworkFailure }
    );
}

#[test]
fn client_kinds_render_the_fallback_body() {
    let e = AuthError::from_error_type(AuthErrorType::InvalidToken);
    assert_eq!(e, AuthError::Client { kind: AuthErrorType::InvalidToken });
    let b = e.body();
    assert_eq!(b.status, 500);
    assert_eq!(b.message, "an unexpected error occurred");
}

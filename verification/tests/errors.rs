use user_auth::errors::{handle_errors, ServerError, UnauthorizedTypes};

#[test]
fn internal_server_error_is_500() {
    let e = ServerError::InternalServerError;
    assert_eq!(e.status_code(), 500);
    assert_eq!(e.message(), "Internal Server Error");
}

#[test]
fn not_found_is_404() {
    let e = ServerError::NotFound;
    assert_eq!(e.status_code(), 404);
    assert_eq!(e.message(), "Not Found");
}

#[test]
fn plain_unauthorized_is_401() {
    let e = ServerError::Unauthorized(UnauthorizedTypes::Default);
    assert_eq!(e.status_code(), 401);
    assert_eq!(e.message(), "Unauthorized");
}

#[test]
fn expired_token_is_401_with_its_own_message() {
    let e = ServerError::Unauthorized(UnauthorizedTypes::TokenExpired);
    assert_eq!(e.status_code(), 401);
    assert_eq!(e.message(), "Token expired");
}

#[test]
fn invalid_token_is_401_with_its_own_message() {
    let e = ServerError::Unauthorized(UnauthorizedTypes::TokenInvalid);
    assert_eq!(e.status_code(), 401);
    assert_eq!(e.message(), "Invalid token");
}

#[test]
fn the_three_unauthorized_kinds_differ_in_message_only() {
    let kinds = vec![
        ServerError::Unauthorized(UnauthorizedTypes::Default),
        ServerError::Unauthorized(UnauthorizedTypes::TokenExpired),
        ServerError::Unauthorized(UnauthorizedTypes::TokenInvalid),
    ];
    for (i, a) in kinds.iter().enumerate() {
        assert_eq!(a.status_code(), 401);
        for b in kinds.iter().skip(i + 1) {
            assert_ne!(a, b);
            assert_ne!(a.message(), b.message());
        }
    }
}

#[test]
fn a_failure_of_the_service_is_rendered_with_status_and_message() {
    assert_eq!(handle_errors(Some(ServerError::NotFound)), Some((404, "Not Found")));
    assert_eq!(
        handle_errors(Some(ServerError::InternalServerError)),
        Some((500, "Internal Server Error"))
    );
    assert_eq!(
        handle_errors(Some(ServerError::Unauthorized(UnauthorizedTypes::Default))),
        Some((401, "Unauthorized"))
    );
    assert_eq!(
        handle_errors(Some(ServerError::Unauthorized(UnauthorizedTypes::TokenExpired))),
        Some((401, "Token expired"))
    );
    assert_eq!(
        handle_errors(Some(ServerError::Unauthorized(UnauthorizedTypes::TokenInvalid))),
        Some((401, "Invalid token"))
    );
}

#[test]
fn a_rejection_of_the_framework_passes_through() {
    assert_eq!(handle_errors(None), None);
}

use user_auth::credentials::hash_password;
use user_auth::errors::{ServerError, UnauthorizedTypes};
use user_auth::credentials::verify_password;
use user_auth::gate::authenticate_middleware_at;
use user_auth::accounts::{
    authenticate, authenticate_at, check_account, rejection_for_lookup, signup_credential,
    LookupFailure, StoredUser, UserRequest,
};
use user_auth::tokens::{verify_token, verify_token_at, Claims, User};

const T0: u64 = 1_700_000_000;
const SECRET: &str = "login secret";
const CREDENTIAL_OF_PASSWORD: &str =
    "$argon2id$v=19$m=19456,t=2,p=1$c29tZXNhbHQ$PL01amPyeUuxG7H0vIr5X+qHkZvWnHmGBGXFYvh8z2E";

fn carol(credential: &str) -> Result<StoredUser, LookupFailure> {
    Ok(StoredUser { id: 7, email: "carol@example.com".to_string(), password: credential.to_string() })
}

fn request(password: &str) -> UserRequest {
    UserRequest { email: "carol@example.com".to_string(), password: password.to_string() }
}

#[test]
fn the_right_password_earns_a_token_for_the_account() {
    let token =
        authenticate_at(carol(CREDENTIAL_OF_PASSWORD), request("password"), Some(SECRET), T0).unwrap();
    assert_eq!(
        verify_token_at(&token, Some(SECRET), T0 + 10),
        Ok(Claims {
            exp: (T0 + 3600) as usize,
            user: User { email: "carol@example.com".to_string(), id: 7 },
        })
    );
}

#[test]
fn a_wrong_password_is_unauthorized() {
    assert_eq!(
        authenticate_at(carol(CREDENTIAL_OF_PASSWORD), request("passw0rd"), Some(SECRET), T0),
        Err(ServerError::Unauthorized(UnauthorizedTypes::Default))
    );
    assert_eq!(
        authenticate_at(carol(CREDENTIAL_OF_PASSWORD), request("passw0rd"), None, T0),
        Err(ServerError::Unauthorized(UnauthorizedTypes::Default))
    );
}

#[test]
fn an_unknown_account_is_not_found() {
    assert_eq!(
        authenticate_at(Err(LookupFailure::RowNotFound), request("password"), Some(SECRET), T0),
        Err(ServerError::NotFound)
    );
}

#[test]
fn a_failed_lookup_is_an_internal_failure() {
    assert_eq!(
        authenticate_at(Err(LookupFailure::Other), request("password"), Some(SECRET), T0),
        Err(ServerError::InternalServerError)
    );
}

#[test]
fn a_damaged_stored_credential_is_an_internal_failure_not_a_wrong_password() {
    for damaged in ["", "password", "$argon2id$v=19$m=19456,t=2,p=1$c29tZXNhbHQ"] {
        assert_eq!(
            authenticate_at(carol(damaged), request("password"), Some(SECRET), T0),
            Err(ServerError::InternalServerError)
        );
    }
}

#[test]
fn the_right_password_without_a_secret_is_an_internal_failure() {
    assert_eq!(
        authenticate_at(carol(CREDENTIAL_OF_PASSWORD), request("password"), None, T0),
        Err(ServerError::InternalServerError)
    );
    assert_eq!(
        authenticate(carol(CREDENTIAL_OF_PASSWORD), request("password"), None),
        Err(ServerError::InternalServerError)
    );
}

#[test]
fn signup_then_login_now() {
    let credential = hash_password("s3cr3t").unwrap();
    let token = authenticate(carol(&credential), request("s3cr3t"), Some(SECRET)).unwrap();
    let claims = verify_token(token, Some(SECRET)).unwrap();
    assert_eq!(claims.user, User { email: "carol@example.com".to_string(), id: 7 });
    assert_eq!(
        authenticate(carol(&credential), request("s3cr3t!"), Some(SECRET)),
        Err(ServerError::Unauthorized(UnauthorizedTypes::Default))
    );
}

#[test]
fn each_failed_lookup_has_its_refusal() {
    assert_eq!(rejection_for_lookup(LookupFailure::RowNotFound), ServerError::NotFound);
    assert_eq!(rejection_for_lookup(LookupFailure::Other), ServerError::InternalServerError);
}

#[test]
fn a_token_earned_at_login_is_admitted_until_it_expires() {
    let token =
        authenticate_at(carol(CREDENTIAL_OF_PASSWORD), request("password"), Some(SECRET), T0).unwrap();
    assert_eq!(authenticate_middleware_at(&token, Some(SECRET), T0), Ok(()));
    assert_eq!(authenticate_middleware_at(&token, Some(SECRET), T0 + 3600), Ok(()));
    assert_eq!(
        authenticate_middleware_at(&token, Some(SECRET), T0 + 3601),
        Err(ServerError::Unauthorized(UnauthorizedTypes::TokenExpired))
    );
}

#[test]
fn a_signup_stores_a_credential_that_verifies() {
    let credential = signup_credential(&request("s3cr3t")).unwrap();
    assert_ne!(credential, "s3cr3t");
    assert_eq!(verify_password(&credential, "s3cr3t"), Ok(true));
    assert_eq!(verify_password(&credential, "password"), Ok(false));
    let token = authenticate_at(carol(&credential), request("s3cr3t"), Some(SECRET), T0);
    assert!(token.is_ok());
}

#[test]
fn a_login_that_earns_no_token_is_answered_now_as_at_any_time() {
    assert_eq!(
        authenticate(Err(LookupFailure::RowNotFound), request("password"), Some(SECRET)),
        Err(ServerError::NotFound)
    );
    assert_eq!(
        authenticate(Err(LookupFailure::Other), request("password"), Some(SECRET)),
        Err(ServerError::InternalServerError)
    );
    assert_eq!(
        authenticate(carol(CREDENTIAL_OF_PASSWORD), request("passw0rd"), Some(SECRET)),
        Err(ServerError::Unauthorized(UnauthorizedTypes::Default))
    );
    assert_eq!(
        authenticate(carol(CREDENTIAL_OF_PASSWORD), request("passw0rd"), None),
        Err(ServerError::Unauthorized(UnauthorizedTypes::Default))
    );
    assert_eq!(
        authenticate(carol("damaged"), request("password"), Some(SECRET)),
        Err(ServerError::InternalServerError)
    );
}

#[test]
fn a_checked_account_is_the_principal_of_the_token() {
    assert_eq!(
        check_account(carol(CREDENTIAL_OF_PASSWORD), &request("password")),
        Ok(User { email: "carol@example.com".to_string(), id: 7 })
    );
    assert_eq!(
        check_account(carol(CREDENTIAL_OF_PASSWORD), &request("passw0rd")),
        Err(ServerError::Unauthorized(UnauthorizedTypes::Default))
    );
    assert_eq!(
        check_account(Err(LookupFailure::RowNotFound), &request("password")),
        Err(ServerError::NotFound)
    );
    assert_eq!(
        check_account(carol(""), &request("password")),
        Err(ServerError::InternalServerError)
    );
}

//! The authorization gate: the stage that stands before every protected
//! operation.
//!
//! It takes the raw value of the `Authorization` header as the token, with no
//! scheme in front of it, has the token service verify it, and either admits
//! the request or refuses it with the failure that the transport boundary
//! renders. Admission carries no identity, and nothing is kept between
//! requests.

use crate::errors::{ServerError, UnauthorizedTypes};
use crate::tokens::{
    carried_claims, has_two_dots, secret_view, verdict_view, verification,
    verification_on_reading, verify_token, verify_token_at, TokenValidationError,
    TOKEN_TTL_SECONDS,
};
use vstd::prelude::*;

verus! {

/// The failure with which each outcome of a verification is refused.
pub open spec fn rejection(failure: TokenValidationError) -> ServerError {
    match failure {
        TokenValidationError::Expired => ServerError::Unauthorized(UnauthorizedTypes::TokenExpired),
        TokenValidationError::Invalid => ServerError::Unauthorized(UnauthorizedTypes::TokenInvalid),
        TokenValidationError::Other => ServerError::InternalServerError,
    }
}

/// The answer to a request that carries `token`, under `secret` at the time
/// `now`.
pub open spec fn admission(token: Seq<char>, secret: Option<Seq<char>>, now: u64) -> Result<
    (),
    ServerError,
> {
    match verification(token, secret, now) {
        Ok(_) => Ok(()),
        Err(failure) => Err(rejection(failure)),
    }
}

/// The answer to a request that carries `token`, under `secret` on a reading
/// of the clock.
pub open spec fn admission_on_reading(
    token: Seq<char>,
    secret: Option<Seq<char>>,
    reading: i64,
) -> Result<(), ServerError> {
    match verification_on_reading(token, secret, reading) {
        Ok(_) => Ok(()),
        Err(failure) => Err(rejection(failure)),
    }
}

/// The answer, at the time `at`, to a request that carries a token issued at
/// the time `now`: admitted up to the expiry, refused as expired after it.
pub open spec fn admission_of_issued(now: u64, at: u64) -> Result<(), ServerError> {
    if at <= now + TOKEN_TTL_SECONDS {
        Ok(())
    } else {
        Err(ServerError::Unauthorized(UnauthorizedTypes::TokenExpired))
    }
}

/// Turns a failed verification into the failure to refuse the request with.
pub fn rejection_for(failure: TokenValidationError) -> (refusal: ServerError)
    ensures
        refusal == rejection(failure),
{
    match failure {
        TokenValidationError::Expired => ServerError::Unauthorized(UnauthorizedTypes::TokenExpired),
        TokenValidationError::Invalid => ServerError::Unauthorized(UnauthorizedTypes::TokenInvalid),
        TokenValidationError::Other => ServerError::InternalServerError,
    }
}

/// Admits or refuses a request that carries `token`, at the time `now` in
/// seconds since the Unix epoch.
pub fn authenticate_middleware_at(token: &str, secret: Option<&str>, now: u64) -> (r: Result<
    (),
    ServerError,
>)
    ensures
        r == admission(token@, secret_view(secret), now),
        secret is Some && !has_two_dots(token@) ==> r matches Err(
            ServerError::Unauthorized(UnauthorizedTypes::TokenInvalid),
        ),
{
    match verify_token_at(token, secret, now) {
        Ok(_) => Ok(()),
        Err(failure) => Err(rejection_for(failure)),
    }
}

/// Admits or refuses a request that carries `token`, at the present time.
///
/// A token that does not carry its claims is refused whatever the clock
/// reads: a forged or malformed one as invalid, and any token as an internal
/// failure where there is no secret. So with a secret at hand a header value
/// that does not hold two dots, such as a JSON object with no more than one
/// dot in it, is refused as an invalid token. For a token that carries its
/// claims the answer is the admission on some reading of the clock.
pub fn authenticate_middleware(token: String, secret: Option<&str>) -> (r: Result<(), ServerError>)
    ensures
        exists|reading: i64|
            r == #[trigger] admission_on_reading(token@, secret_view(secret), reading),
        carried_claims(token@, secret_view(secret)) matches Err(failure) ==> (r matches Err(
            refusal,
        ) && refusal == rejection(failure)),
        secret is Some && !has_two_dots(token@) ==> r matches Err(
            ServerError::Unauthorized(UnauthorizedTypes::TokenInvalid),
        ),
{
    let ghost text = token@;
    let verdict = verify_token(token, secret);
    let ghost seen = verdict_view(verdict);
    let r = match verdict {
        Ok(_) => Ok(()),
        Err(failure) => Err(rejection_for(failure)),
    };
    proof {
        let reading = choose|reading: i64|
            seen == #[trigger] verification_on_reading(text, secret_view(secret), reading);
        assert(r == admission_on_reading(text, secret_view(secret), reading));
    }
    r
}

/// Every refusal of a token is rendered: an expired and an invalid
/// token with status 401 and their own messages, a token that could not be
/// judged with status 500.
pub proof fn refusals_are_rendered(token: Seq<char>, secret: Option<Seq<char>>, now: u64)
    requires
        verification(token, secret, now) is Err,
    ensures
        admission(token, secret, now) is Err,
        verification(token, secret, now) matches Err(TokenValidationError::Invalid) ==> {
            &&& admission(token, secret, now)->Err_0.spec_status_code() == 401
            &&& admission(token, secret, now)->Err_0.spec_message() == "Invalid token"@
        },
        verification(token, secret, now) matches Err(TokenValidationError::Expired) ==> {
            &&& admission(token, secret, now)->Err_0.spec_status_code() == 401
            &&& admission(token, secret, now)->Err_0.spec_message() == "Token expired"@
        },
        verification(token, secret, now) matches Err(TokenValidationError::Other) ==> {
            &&& admission(token, secret, now)->Err_0.spec_status_code() == 500
            &&& admission(token, secret, now)->Err_0.spec_message() == "Internal Server Error"@
        },
{
}

} // verus!

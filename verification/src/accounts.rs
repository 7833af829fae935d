//! Signup and login, as far as they are decided here: the credential that a
//! signup stores, and the way from what the storage returned for an email
//! address, and the password that the request carries, to a token or a
//! failure.
//!
//! The storage itself is a collaborator. The caller looks the account up and
//! hands the outcome in; nothing here touches a database.

use crate::credentials::{hash_password, password_check, verify_password};
use crate::errors::{ServerError, UnauthorizedTypes};
use crate::gate::{admission, admission_of_issued};
use crate::tokens::{
    create_token, create_token_at, issuance, issuance_on_reading, secret_view, User, UserView,
};
use vstd::prelude::*;

verus! {

/// The body of a login or signup request.
#[derive(Debug, PartialEq, Eq)]
pub struct UserRequest {
    pub email: String,
    pub password: String,
}

/// An account as the storage holds it; `password` is the stored credential.
#[derive(Debug, PartialEq, Eq)]
pub struct StoredUser {
    pub id: i32,
    pub email: String,
    pub password: String,
}

/// Why the storage returned no account.
#[derive(Debug, Clone, Copy, PartialEq, Eq, Structural)]
pub enum LookupFailure {
    /// No row matches.
    RowNotFound,
    /// The query failed, or a row came back without the columns expected.
    Other,
}

/// The mathematical value of a [`StoredUser`].
pub struct StoredUserView {
    pub id: i32,
    pub email: Seq<char>,
    pub password: Seq<char>,
}

impl View for StoredUser {
    type V = StoredUserView;

    open spec fn view(&self) -> StoredUserView {
        StoredUserView { id: self.id, email: self.email@, password: self.password@ }
    }
}

/// The outcome of a lookup as contracts speak of it.
pub open spec fn lookup_view(lookup: Result<StoredUser, LookupFailure>) -> Result<
    StoredUserView,
    LookupFailure,
> {
    match lookup {
        Ok(stored) => Ok(stored@),
        Err(failure) => Err(failure),
    }
}

/// The result of a login as contracts speak of it.
pub open spec fn login_view(r: Result<String, ServerError>) -> Result<Seq<char>, ServerError> {
    match r {
        Ok(token) => Ok(token@),
        Err(e) => Err(e),
    }
}

/// The failure that a failed lookup is answered with.
pub open spec fn lookup_rejection(failure: LookupFailure) -> ServerError {
    match failure {
        LookupFailure::RowNotFound => ServerError::NotFound,
        LookupFailure::Other => ServerError::InternalServerError,
    }
}

/// The account that a login is for, once the password is checked: everything
/// in a login that needs no time.
///
/// An account that was not found, or not read, is answered as such. A stored
/// credential that is damaged is an internal failure, not a wrong password. A
/// wrong password is unauthorized.
pub open spec fn checked_account(
    lookup: Result<StoredUserView, LookupFailure>,
    password: Seq<char>,
) -> Result<UserView, ServerError> {
    match lookup {
        Err(failure) => Err(lookup_rejection(failure)),
        Ok(stored) => match password_check(stored.password, password) {
            Err(_) => Err(ServerError::InternalServerError),
            Ok(false) => Err(ServerError::Unauthorized(UnauthorizedTypes::Default)),
            Ok(true) => Ok(UserView { email: stored.email, id: stored.id }),
        },
    }
}

/// What an issuance earns a login: the token, or an internal failure where
/// none was issued.
pub open spec fn earned(issued: Option<Seq<char>>) -> Result<Seq<char>, ServerError> {
    match issued {
        Some(token) => Ok(token),
        None => Err(ServerError::InternalServerError),
    }
}

/// The outcome of a login at the time `now`: the right password earns the
/// token issued to the account.
pub open spec fn login(
    lookup: Result<StoredUserView, LookupFailure>,
    password: Seq<char>,
    secret: Option<Seq<char>>,
    now: u64,
) -> Result<Seq<char>, ServerError> {
    match checked_account(lookup, password) {
        Err(e) => Err(e),
        Ok(user) => earned(issuance(user, secret, now)),
    }
}

/// The outcome of a login on a reading of the clock: only the right password
/// needs the time.
pub open spec fn login_on_reading(
    lookup: Result<StoredUserView, LookupFailure>,
    password: Seq<char>,
    secret: Option<Seq<char>>,
    reading: i64,
) -> Result<Seq<char>, ServerError> {
    match checked_account(lookup, password) {
        Err(e) => Err(e),
        Ok(user) => earned(issuance_on_reading(user, secret, reading)),
    }
}

/// The result of checking an account as contracts speak of it.
pub open spec fn account_view(r: Result<User, ServerError>) -> Result<UserView, ServerError> {
    match r {
        Ok(user) => Ok(user@),
        Err(e) => Err(e),
    }
}

/// Turns a failed lookup into the failure to answer with.
pub fn rejection_for_lookup(failure: LookupFailure) -> (refusal: ServerError)
    ensures
        refusal == lookup_rejection(failure),
{
    match failure {
        LookupFailure::RowNotFound => ServerError::NotFound,
        LookupFailure::Other => ServerError::InternalServerError,
    }
}

/// Derives the credential to store for the password of a signup or of a
/// change of password.
///
/// The credential verifies against the password of `body`. Where none can be
/// derived the request fails internally; it is never answered as if it had
/// succeeded.
pub fn signup_credential(body: &UserRequest) -> (r: Result<String, ServerError>)
    ensures
        r matches Ok(credential) ==> password_check(credential@, body.password@) matches Ok(true),
        r matches Err(e) ==> e == ServerError::InternalServerError,
{
    match hash_password(body.password.as_str()) {
        Ok(credential) => Ok(credential),
        Err(_) => Err(ServerError::InternalServerError),
    }
}

/// Checks the password of `body` against the account that the storage
/// returned, and gives the principal to issue a token to.
pub fn check_account(lookup: Result<StoredUser, LookupFailure>, body: &UserRequest) -> (r: Result<
    User,
    ServerError,
>)
    ensures
        account_view(r) == checked_account(lookup_view(lookup), body.password@),
{
    let stored = match lookup {
        Ok(stored) => stored,
        Err(failure) => return Err(rejection_for_lookup(failure)),
    };
    match verify_password(stored.password.as_str(), body.password.as_str()) {
        Err(_) => Err(ServerError::InternalServerError),
        Ok(false) => Err(ServerError::Unauthorized(UnauthorizedTypes::Default)),
        Ok(true) => Ok(User { email: stored.email, id: stored.id }),
    }
}

/// Decides a login at the time `now`, in seconds since the Unix epoch:
/// `lookup` is what the storage returned for the email address of `body`.
///
/// A token earned here opens the authorization gate, under the same secret, at
/// every time up to its expiry, and is refused as expired at every later time.
pub fn authenticate_at(
    lookup: Result<StoredUser, LookupFailure>,
    body: UserRequest,
    secret: Option<&str>,
    now: u64,
) -> (r: Result<String, ServerError>)
    ensures
        login_view(r) == login(lookup_view(lookup), body.password@, secret_view(secret), now),
        r matches Ok(token) ==> forall|at: u64| #[trigger]
            admission(token@, secret_view(secret), at) == admission_of_issued(now, at),
{
    match check_account(lookup, &body) {
        Err(e) => Err(e),
        Ok(user) => match create_token_at(user, secret, now) {
            Ok(token) => Ok(token),
            Err(_) => Err(ServerError::InternalServerError),
        },
    }
}

/// Decides a login at the present time.
///
/// A login that earns no token is answered whatever the clock reads: a failed
/// lookup with its rejection, a damaged stored credential with an internal
/// failure, a wrong password as unauthorized. The clock is read for the right
/// password only, and the answer is then the login's outcome on some reading.
pub fn authenticate(
    lookup: Result<StoredUser, LookupFailure>,
    body: UserRequest,
    secret: Option<&str>,
) -> (r: Result<String, ServerError>)
    ensures
        exists|reading: i64|
            login_view(r) == #[trigger] login_on_reading(
                lookup_view(lookup),
                body.password@,
                secret_view(secret),
                reading,
            ),
        checked_account(lookup_view(lookup), body.password@) matches Err(refusal) ==> (r matches Err(
            e,
        ) && e == refusal),
{
    match check_account(lookup, &body) {
        Err(e) => {
            proof {
                assert(login_view(Err(e)) == login_on_reading(
                    lookup_view(lookup),
                    body.password@,
                    secret_view(secret),
                    0,
                ));
            }
            Err(e)
        },
        Ok(user) => {
            let ghost principal = user@;
            let issued = create_token(user, secret);
            let r = match issued {
                Ok(token) => Ok(token),
                Err(_) => Err(ServerError::InternalServerError),
            };
            proof {
                let reading = choose|reading: i64|
                    login_view(r) == earned(
                        #[trigger] issuance_on_reading(principal, secret_view(secret), reading),
                    );
                assert(login_view(r) == login_on_reading(
                    lookup_view(lookup),
                    body.password@,
                    secret_view(secret),
                    reading,
                ));
            }
            r
        },
    }
}

} // verus!

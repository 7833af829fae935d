//! The closed set of failures that the service reports, each with the status
//! and the message that the transport boundary renders for it.

use vstd::prelude::*;

verus! {

/// Why a request was refused as unauthorized.
#[derive(Debug, Clone, Copy, PartialEq, Eq, Structural)]
pub enum UnauthorizedTypes {
    /// The presented password does not belong to the account.
    Default,
    /// The bearer token was genuine but its lifetime is over.
    TokenExpired,
    /// The bearer token is malformed, forged or signed with another algorithm.
    TokenInvalid,
}

/// A failure that reaches the transport boundary.
#[derive(Debug, Clone, Copy, PartialEq, Eq, Structural)]
pub enum ServerError {
    /// The server is misconfigured or a collaborator failed.
    InternalServerError,
    /// The record that the request names does not exist.
    NotFound,
    /// The caller did not prove who they are.
    Unauthorized(UnauthorizedTypes),
}

impl ServerError {
    /// The transport status of each kind of failure.
    pub open spec fn spec_status_code(&self) -> u16 {
        match self {
            ServerError::InternalServerError => 500,
            ServerError::NotFound => 404,
            ServerError::Unauthorized(_) => 401,
        }
    }

    /// The human-readable message of each kind of failure.
    pub open spec fn spec_message(&self) -> Seq<char> {
        match self {
            ServerError::InternalServerError => "Internal Server Error"@,
            ServerError::NotFound => "Not Found"@,
            ServerError::Unauthorized(UnauthorizedTypes::Default) => "Unauthorized"@,
            ServerError::Unauthorized(UnauthorizedTypes::TokenExpired) => "Token expired"@,
            ServerError::Unauthorized(UnauthorizedTypes::TokenInvalid) => "Invalid token"@,
        }
    }

    /// The transport status to answer with.
    pub fn status_code(&self) -> (code: u16)
        ensures
            code == self.spec_status_code(),
    {
        match self {
            ServerError::InternalServerError => 500,
            ServerError::NotFound => 404,
            ServerError::Unauthorized(_) => 401,
        }
    }

    /// The message to answer with; it is the whole response body.
    pub fn message(&self) -> (text: &'static str)
        ensures
            text@ == self.spec_message(),
    {
        match self {
            ServerError::InternalServerError => "Internal Server Error",
            ServerError::NotFound => "Not Found",
            ServerError::Unauthorized(unauth_type) => match unauth_type {
                UnauthorizedTypes::Default => "Unauthorized",
                UnauthorizedTypes::TokenExpired => "Token expired",
                UnauthorizedTypes::TokenInvalid => "Invalid token",
            },
        }
    }
}

/// What the transport boundary does with a rejection: `found` is the failure
/// of this service that the rejection carries, if it carries one.
///
/// Such a failure is rendered with its status and its message, which is the
/// whole body. A rejection that carries none was raised by the transport
/// framework itself and passes through unchanged: `None`.
pub fn handle_errors(found: Option<ServerError>) -> (rendered: Option<(u16, &'static str)>)
    ensures
        found is None ==> rendered is None,
        found matches Some(e) ==> rendered matches Some(answer) && {
            &&& answer.0 == e.spec_status_code()
            &&& answer.1@ == e.spec_message()
        },
{
    match found {
        Some(server_error) => Some((server_error.status_code(), server_error.message())),
        None => None,
    }
}

/// The message alone tells the failures apart: no two of them share one.
pub proof fn messages_tell_failures_apart(a: ServerError, b: ServerError)
    requires
        a != b,
    ensures
        a.spec_message() != b.spec_message(),
{
    reveal_strlit("Internal Server Error");
    reveal_strlit("Not Found");
    reveal_strlit("Unauthorized");
    reveal_strlit("Token expired");
    reveal_strlit("Invalid token");
    // The lengths tell all apart but the two messages about tokens, which
    // differ in their first character.
    assert("Internal Server Error"@.len() == 21);
    assert("Not Found"@.len() == 9);
    assert("Unauthorized"@.len() == 12);
    assert("Token expired"@.len() == 13);
    assert("Invalid token"@[0] != "Token expired"@[0]);
}

} // verus!

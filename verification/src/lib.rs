//! Credential and session authentication for a small user-management service.
//!
//! The crate holds the credential hasher, the token service, the authorization
//! gate that guards protected operations, the decisions of signup and login,
//! and the closed set of failures that all of them report. Every function
//! carries a contract that Verus proves; the calls into `argon2`,
//! `jsonwebtoken`, `serde_json` and `chrono` are the only parts that are
//! believed rather than proved, and each of them is a small private wrapper
//! with a doc comment that says what is believed.
//!
//! Functions that need the time come in several forms: `create_token_at`,
//! `verify_token_at` and their like take the time as an argument and are
//! determined by their arguments; `create_token`, `verify_token` and their like
//! read the clock, as late as they can, and hand the reading over to a
//! function that says what every reading comes to.

pub mod accounts;
pub mod clock;
pub mod credentials;
pub mod errors;
pub mod gate;
pub mod tokens;

pub use accounts::{authenticate, UserRequest};
pub use credentials::{hash_password, verify_password, CredentialError};
pub use errors::{handle_errors, ServerError, UnauthorizedTypes};
pub use gate::authenticate_middleware;
pub use tokens::{create_token, verify_token, Claims, TokenValidationError, User};

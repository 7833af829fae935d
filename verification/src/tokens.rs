//! The token service: signed, expiring bearer tokens that carry an identity.
//!
//! A token is a JSON Web Token signed with HMAC-SHA256 under one symmetric
//! secret. Its payload is `{"exp": .., "user": {"email": .., "id": ..}}`. The
//! service keeps no record of the tokens it issued: a token that is well
//! formed, signed with the secret and not yet expired is accepted.
//!
//! Signing, signature checking and JSON are `jsonwebtoken`'s and
//! `serde_json`'s. Decoding is two steps: `jsonwebtoken` checks the token and
//! hands out the payload, `serde_json` reads the claims from it. What this
//! module decides, and proves, is the expiry, the order of the checks, and
//! which of the three failures each outcome of the outside calls is reported
//! as.

use crate::clock::{reading_time, time_of_reading, unix_time_now};
use jsonwebtoken::errors::ErrorKind;
use jsonwebtoken::{decode, encode, Algorithm, DecodingKey, EncodingKey, Header, Validation};
use serde_json::Value;
use vstd::prelude::*;

verus! {

/// The lifetime of a token, in seconds: one hour from issuance.
pub const TOKEN_TTL_SECONDS: u64 = 3600;

/// The authenticated principal.
#[derive(Debug, PartialEq, Eq)]
pub struct User {
    pub email: String,
    pub id: i32,
}

/// What a token states: who the bearer is, and the instant, in seconds since
/// the Unix epoch, after which the token is no longer accepted.
#[derive(Debug, PartialEq, Eq)]
pub struct Claims {
    pub exp: usize,
    pub user: User,
}

/// Why a token was not accepted.
#[derive(Debug, Clone, Copy, PartialEq, Eq, Structural)]
pub enum TokenValidationError {
    /// The token is genuine but its lifetime is over: the client should log in
    /// again.
    Expired,
    /// The token is malformed, forged or signed with another algorithm: the
    /// request should not be repeated as it is.
    Invalid,
    /// The server could not judge the token: the secret is missing or the clock
    /// is unusable.
    Other,
}

/// The kinds of error with which `jsonwebtoken::decode` rejects a token here.
#[derive(Debug, Clone, Copy, PartialEq, Eq, Structural)]
pub enum DecodeFailure {
    /// The text is not three parts separated by dots.
    InvalidToken,
    /// The signature is not the one that the secret gives.
    InvalidSignature,
    /// The header names another algorithm than HMAC-SHA256.
    InvalidAlgorithm,
    /// The payload carries no usable `exp`.
    MissingRequiredClaim,
    /// A part is not Base64.
    Base64,
    /// The header or the payload is not the JSON expected.
    Json,
    /// Any other kind.
    Other,
}

/// The claims as read from a payload: each is `None` where the payload does
/// not carry it, or carries it in another JSON type.
#[derive(Debug, PartialEq, Eq)]
pub struct DecodedPayload {
    pub exp: Option<u64>,
    pub user_id: Option<i64>,
    pub email: Option<String>,
}

/// The mathematical value of a [`User`].
pub struct UserView {
    pub email: Seq<char>,
    pub id: i32,
}

/// The mathematical value of [`Claims`].
pub struct ClaimsView {
    pub exp: usize,
    pub user: UserView,
}

/// The mathematical value of a [`DecodedPayload`].
pub struct PayloadView {
    pub exp: Option<u64>,
    pub user_id: Option<i64>,
    pub email: Option<Seq<char>>,
}

impl View for User {
    type V = UserView;

    open spec fn view(&self) -> UserView {
        UserView { email: self.email@, id: self.id }
    }
}

impl View for Claims {
    type V = ClaimsView;

    open spec fn view(&self) -> ClaimsView {
        ClaimsView { exp: self.exp, user: self.user@ }
    }
}

impl View for DecodedPayload {
    type V = PayloadView;

    open spec fn view(&self) -> PayloadView {
        PayloadView {
            exp: self.exp,
            user_id: self.user_id,
            email: match self.email {
                Some(text) => Some(text@),
                None => None,
            },
        }
    }
}

/// The token that `jsonwebtoken::encode` makes of the claims under the secret
/// with HMAC-SHA256.
pub uninterp spec fn hs256_token(exp: u64, id: i32, email: Seq<char>, secret: Seq<char>) -> Seq<
    char,
>;

/// What `jsonwebtoken::decode` finds in a token under the secret when it
/// checks everything but the expiry: the payload as JSON text, or the kind of
/// its error.
pub uninterp spec fn hs256_payload(token: Seq<char>, secret: Seq<char>) -> Result<
    Seq<char>,
    DecodeFailure,
>;

/// The claims that `serde_json` reads from JSON text, or `None` where the text
/// is not JSON.
pub uninterp spec fn payload_claims(json: Seq<char>) -> Option<PayloadView>;

/// The claims that a token carries under a secret: both outside steps of
/// decoding, one after the other.
pub open spec fn decoded_claims(token: Seq<char>, secret: Seq<char>) -> Result<
    Option<PayloadView>,
    DecodeFailure,
> {
    match hs256_payload(token, secret) {
        Ok(json) => Ok(payload_claims(json)),
        Err(failure) => Err(failure),
    }
}

/// Whether `token` passes the decoder under `secret` and carries exactly the
/// claims of `payload`.
pub open spec fn carries(token: Seq<char>, secret: Seq<char>, payload: PayloadView) -> bool {
    decoded_claims(token, secret) matches Ok(Some(found)) && found == payload
}

/// Whether `text` holds two dots, as every token does between its three
/// parts.
pub open spec fn has_two_dots(text: Seq<char>) -> bool {
    exists|i: int, j: int|
        0 <= i < j < text.len() && (#[trigger] text[i]) == '.' && (#[trigger] text[j]) == '.'
}

/// The result of the decoder as contracts speak of it.
pub open spec fn decoded_view(r: Result<String, DecodeFailure>) -> Result<
    Seq<char>,
    DecodeFailure,
> {
    match r {
        Ok(json) => Ok(json@),
        Err(failure) => Err(failure),
    }
}

/// The payload that is signed for the claims, as the decoder reads it back.
pub open spec fn signed_payload(exp: u64, id: i32, email: Seq<char>) -> PayloadView {
    PayloadView { exp: Some(exp), user_id: Some(id as i64), email: Some(email) }
}

/// Builds the payload `{"exp": .., "user": {"email": .., "id": ..}}` and calls
/// `jsonwebtoken::encode` on it with an HS256 header and the secret as the
/// HMAC key. Returns the token; the `Option` stands for the `Result` of
/// `encode`.
///
/// Believed of `jsonwebtoken`: `encode` does not fail here, since the key is
/// of the header's family, the header and a payload of strings and integers
/// always have a JSON text, and signing with HMAC has no error; the token
/// depends on the claims and the secret alone; and decoding a token that
/// `encode` made, under the same secret, finds the signature good and gives
/// back the three claims as they were put in.
#[verifier::external_body]
fn sign_hs256(exp: u64, id: i32, email: &str, secret: &str) -> (r: Option<String>)
    ensures
        r is Some,
        r matches Some(token) ==> token@ == hs256_token(exp, id, email@, secret@),
        r matches Some(token) ==> carries(token@, secret@, signed_payload(exp, id, email@)),
{
    let user = Value::from_iter([("email", Value::from(email)), ("id", Value::from(id))]);
    let claims = Value::from_iter([("exp", Value::from(exp)), ("user", user)]);
    let key = EncodingKey::from_secret(secret.as_bytes());
    encode(&Header::new(Algorithm::HS256), &claims, &key).ok()
}

/// Calls `jsonwebtoken::decode` with the secret as the HMAC key and a
/// validation that admits HS256 only and leaves the expiry unchecked, so that
/// the call reads no clock. Returns the payload as JSON text, or the kind of
/// the error, one variant of [`DecodeFailure`] for each kind told apart.
///
/// `decode` checks the shape, the header and the algorithm, then the
/// signature, then that the payload is JSON with an `exp`. Believed of it
/// beside that the result depends on the token and the secret alone: the shape
/// comes first, so a text that does not hold two dots is rejected as
/// `InvalidToken`.
#[verifier::external_body]
fn decode_hs256(token: &str, secret: &str) -> (r: Result<String, DecodeFailure>)
    ensures
        decoded_view(r) == hs256_payload(token@, secret@),
        !has_two_dots(token@) ==> r matches Err(DecodeFailure::InvalidToken),
{
    let mut rules = Validation::new(Algorithm::HS256);
    rules.validate_exp = false;
    match decode::<Value>(token, &DecodingKey::from_secret(secret.as_bytes()), &rules) {
        Ok(data) => Ok(data.claims.to_string()),
        Err(error) => Err(match error.kind() {
            ErrorKind::InvalidToken => DecodeFailure::InvalidToken,
            ErrorKind::InvalidSignature => DecodeFailure::InvalidSignature,
            ErrorKind::InvalidAlgorithm => DecodeFailure::InvalidAlgorithm,
            ErrorKind::MissingRequiredClaim(_) => DecodeFailure::MissingRequiredClaim,
            ErrorKind::Base64(_) => DecodeFailure::Base64,
            ErrorKind::Json(_) => DecodeFailure::Json,
            _ => DecodeFailure::Other,
        }),
    }
}

/// Parses JSON text with `serde_json::from_str` and picks the three claims out
/// of it: `exp` as an unsigned integer, `user.id` as a signed integer and
/// `user.email` as a string. Returns `None` where the text is not JSON.
#[verifier::external_body]
fn read_payload(json: &str) -> (r: Option<DecodedPayload>)
    ensures
        r matches Some(payload) ==> payload_claims(json@) == Some(payload@),
        r is None ==> payload_claims(json@) is None,
{
    let value = serde_json::from_str::<Value>(json).ok()?;
    Some(DecodedPayload {
        exp: value["exp"].as_u64(),
        user_id: value["user"]["id"].as_i64(),
        email: value["user"]["email"].as_str().map(str::to_owned),
    })
}

/// The secret as contracts speak of it.
pub open spec fn secret_view(secret: Option<&str>) -> Option<Seq<char>> {
    match secret {
        Some(key) => Some(key@),
        None => None,
    }
}

/// A payload, read or not, as contracts speak of it.
pub open spec fn payload_view(payload: Option<DecodedPayload>) -> Option<PayloadView> {
    match payload {
        Some(fields) => Some(fields@),
        None => None,
    }
}

/// The result of an issuance as contracts speak of it.
pub open spec fn issued_view(r: Result<String, ()>) -> Option<Seq<char>> {
    match r {
        Ok(token) => Some(token@),
        Err(_) => None,
    }
}

/// Claims, found or not, as contracts speak of them.
pub open spec fn option_claims_view(claims: Option<Claims>) -> Option<ClaimsView> {
    match claims {
        Some(found) => Some(found@),
        None => None,
    }
}

/// The result of a verification as contracts speak of it.
pub open spec fn verdict_view(r: Result<Claims, TokenValidationError>) -> Result<
    ClaimsView,
    TokenValidationError,
> {
    match r {
        Ok(claims) => Ok(claims@),
        Err(e) => Err(e),
    }
}

/// How a rejection by the decoder is reported: a bad signature, a malformed
/// structure and another algorithm make the token invalid; anything else is
/// the server's trouble. None is reported as an expiry.
pub open spec fn failure_class(failure: DecodeFailure) -> TokenValidationError {
    match failure {
        DecodeFailure::InvalidToken => TokenValidationError::Invalid,
        DecodeFailure::InvalidSignature => TokenValidationError::Invalid,
        DecodeFailure::InvalidAlgorithm => TokenValidationError::Invalid,
        DecodeFailure::MissingRequiredClaim => TokenValidationError::Invalid,
        DecodeFailure::Base64 => TokenValidationError::Invalid,
        DecodeFailure::Json => TokenValidationError::Invalid,
        DecodeFailure::Other => TokenValidationError::Other,
    }
}

/// The claims that a payload states, where it states all three within the
/// ranges of their types.
pub open spec fn stated_claims(payload: PayloadView) -> Option<ClaimsView> {
    if payload.exp is Some && payload.user_id is Some && payload.email is Some
        && payload.exp->0 <= usize::MAX && i32::MIN <= payload.user_id->0 <= i32::MAX {
        Some(
            ClaimsView {
                exp: payload.exp->0 as usize,
                user: UserView { email: payload.email->0, id: payload.user_id->0 as i32 },
            },
        )
    } else {
        None
    }
}

/// The claims that a payload, read or not, states.
pub open spec fn claims_in(payload: Option<PayloadView>) -> Option<ClaimsView> {
    match payload {
        Some(fields) => stated_claims(fields),
        None => None,
    }
}

/// The judgement on claims at the time `now`: they are accepted as long as
/// `now <= exp`, and expired after that.
pub open spec fn expiry_verdict(claims: ClaimsView, now: u64) -> Result<
    ClaimsView,
    TokenValidationError,
> {
    if now <= claims.exp {
        Ok(claims)
    } else {
        Err(TokenValidationError::Expired)
    }
}

/// The judgement on the payload of a token whose signature is good, at the
/// time `now`: a payload that does not state the claims is invalid; one that
/// does is judged by its expiry.
pub open spec fn judged(payload: Option<PayloadView>, now: u64) -> Result<
    ClaimsView,
    TokenValidationError,
> {
    match claims_in(payload) {
        None => Err(TokenValidationError::Invalid),
        Some(claims) => expiry_verdict(claims, now),
    }
}

/// The claims that `token` carries under `secret`, whatever the time.
///
/// A missing secret is the server's trouble. Otherwise the decoder's
/// rejection, which covers the signature, comes first; a payload that does not
/// state the claims is invalid.
pub open spec fn carried_claims(token: Seq<char>, secret: Option<Seq<char>>) -> Result<
    ClaimsView,
    TokenValidationError,
> {
    match secret {
        None => Err(TokenValidationError::Other),
        Some(key) => match hs256_payload(token, key) {
            Err(failure) => Err(failure_class(failure)),
            Ok(json) => match claims_in(payload_claims(json)) {
                None => Err(TokenValidationError::Invalid),
                Some(claims) => Ok(claims),
            },
        },
    }
}

/// The outcome of verifying `token` under `secret` at the time `now`: only a
/// token that carries its claims has its expiry looked at.
pub open spec fn verification(token: Seq<char>, secret: Option<Seq<char>>, now: u64) -> Result<
    ClaimsView,
    TokenValidationError,
> {
    match carried_claims(token, secret) {
        Err(e) => Err(e),
        Ok(claims) => expiry_verdict(claims, now),
    }
}

/// The judgement on claims on a reading of the clock: by their expiry where
/// the reading stands for a time, and the server's trouble where it stands for
/// none.
pub open spec fn reading_verdict(claims: ClaimsView, reading: i64) -> Result<
    ClaimsView,
    TokenValidationError,
> {
    match reading_time(reading) {
        None => Err(TokenValidationError::Other),
        Some(now) => expiry_verdict(claims, now),
    }
}

/// The outcome of verifying `token` under `secret` on a reading of the clock:
/// only a token that carries its claims needs the time.
pub open spec fn verification_on_reading(
    token: Seq<char>,
    secret: Option<Seq<char>>,
    reading: i64,
) -> Result<ClaimsView, TokenValidationError> {
    match carried_claims(token, secret) {
        Err(e) => Err(e),
        Ok(claims) => reading_verdict(claims, reading),
    }
}

/// The token issued to `user` under `secret` at the time `now`, or `None`
/// where none is issued: without a secret, or where the expiry does not fit
/// the claims.
pub open spec fn issuance(user: UserView, secret: Option<Seq<char>>, now: u64) -> Option<
    Seq<char>,
> {
    match secret {
        None => None,
        Some(key) => if now + TOKEN_TTL_SECONDS <= usize::MAX {
            Some(hs256_token((now + TOKEN_TTL_SECONDS) as u64, user.id, user.email, key))
        } else {
            None
        },
    }
}

/// The token issued to `user` under `secret` on a reading of the clock: none
/// where the reading stands for no time.
pub open spec fn issuance_on_reading(
    user: UserView,
    secret: Option<Seq<char>>,
    reading: i64,
) -> Option<Seq<char>> {
    match reading_time(reading) {
        None => None,
        Some(now) => issuance(user, secret, now),
    }
}

/// What verifying, at the time `at`, a token issued to `user` at the time
/// `now` comes to: the claims of `user` up to the expiry, the expiry included,
/// and an expiry report after it.
pub open spec fn lifetime_verdict(user: UserView, now: u64, at: u64) -> Result<
    ClaimsView,
    TokenValidationError,
> {
    if at <= now + TOKEN_TTL_SECONDS {
        Ok(ClaimsView { exp: (now + TOKEN_TTL_SECONDS) as usize, user })
    } else {
        Err(TokenValidationError::Expired)
    }
}

/// Whether `token` is what is issued to `user` under `secret` at the time
/// `now`, with the lifetime that goes with it: at every time, verifying it
/// comes to [`lifetime_verdict`].
pub open spec fn issued_at(
    token: Seq<char>,
    user: UserView,
    secret: Option<Seq<char>>,
    now: u64,
) -> bool {
    &&& issuance(user, secret, now) == Some(token)
    &&& forall|at: u64| #[trigger]
        verification(token, secret, at) == lifetime_verdict(user, now, at)
}

/// Reports a rejection by the decoder.
pub fn classify_failure(failure: DecodeFailure) -> (class: TokenValidationError)
    ensures
        class == failure_class(failure),
{
    match failure {
        DecodeFailure::Other => TokenValidationError::Other,
        _ => TokenValidationError::Invalid,
    }
}

/// The claims that a payload states, where it states all three within the
/// ranges of their types.
pub fn stated(payload: Option<DecodedPayload>) -> (claims: Option<Claims>)
    ensures
        option_claims_view(claims) == claims_in(payload_view(payload)),
{
    match payload {
        Some(DecodedPayload { exp: Some(exp), user_id: Some(id), email: Some(email) }) => {
            if exp > usize::MAX as u64 || id < i32::MIN as i64 || id > i32::MAX as i64 {
                None
            } else {
                Some(Claims { exp: exp as usize, user: User { email, id: id as i32 } })
            }
        },
        _ => None,
    }
}

/// Judges claims by their expiry at the time `now`.
pub fn judge_claims(claims: Claims, now: u64) -> (r: Result<Claims, TokenValidationError>)
    ensures
        verdict_view(r) == expiry_verdict(claims@, now),
{
    if now <= claims.exp as u64 {
        Ok(claims)
    } else {
        Err(TokenValidationError::Expired)
    }
}

/// Judges claims on a reading of the clock, as [`crate::clock`] describes
/// one: by their expiry where the reading stands for a time, and as the
/// server's trouble where it stands for none.
pub fn judge_claims_on_reading(claims: Claims, reading: i64) -> (r: Result<
    Claims,
    TokenValidationError,
>)
    ensures
        verdict_view(r) == reading_verdict(claims@, reading),
{
    match time_of_reading(reading) {
        Some(now) => judge_claims(claims, now),
        None => Err(TokenValidationError::Other),
    }
}

/// Judges the payload of a token whose signature is good, at the time `now`.
pub fn judge_payload(payload: Option<DecodedPayload>, now: u64) -> (r: Result<
    Claims,
    TokenValidationError,
>)
    ensures
        verdict_view(r) == judged(payload_view(payload), now),
{
    match stated(payload) {
        Some(claims) => judge_claims(claims, now),
        None => Err(TokenValidationError::Invalid),
    }
}

/// Reads the claims that `token` carries under `secret`: everything in a
/// verification that needs no time.
pub fn read_claims(token: &str, secret: Option<&str>) -> (r: Result<Claims, TokenValidationError>)
    ensures
        verdict_view(r) == carried_claims(token@, secret_view(secret)),
        secret is Some && !has_two_dots(token@) ==> r matches Err(TokenValidationError::Invalid),
{
    match secret {
        None => Err(TokenValidationError::Other),
        Some(key) => match decode_hs256(token, key) {
            Err(failure) => Err(classify_failure(failure)),
            Ok(json) => match stated(read_payload(json.as_str())) {
                Some(claims) => Ok(claims),
                None => Err(TokenValidationError::Invalid),
            },
        },
    }
}

/// Verifies `token` under `secret` at the time `now`, in seconds since the
/// Unix epoch, and returns the claims it carries.
///
/// With a secret at hand, a text that does not hold two dots, such as a JSON
/// object with no more than one dot in it, is invalid at every time.
pub fn verify_token_at(token: &str, secret: Option<&str>, now: u64) -> (r: Result<
    Claims,
    TokenValidationError,
>)
    ensures
        verdict_view(r) == verification(token@, secret_view(secret), now),
        secret is Some && !has_two_dots(token@) ==> r matches Err(TokenValidationError::Invalid),
{
    match read_claims(token, secret) {
        Ok(claims) => judge_claims(claims, now),
        Err(e) => Err(e),
    }
}

/// Verifies `token` under `secret` at the present time.
///
/// A token that does not carry its claims is reported as such whatever the
/// clock reads: without a secret as `Other`, on a rejection by the decoder as
/// the class of that rejection, on a payload without the claims as `Invalid`.
/// The clock is read for a token that carries its claims, and the result is
/// then the verification on some reading.
pub fn verify_token(token: String, secret: Option<&str>) -> (r: Result<
    Claims,
    TokenValidationError,
>)
    ensures
        exists|reading: i64|
            verdict_view(r) == #[trigger] verification_on_reading(
                token@,
                secret_view(secret),
                reading,
            ),
        carried_claims(token@, secret_view(secret)) is Err ==> verdict_view(r) == carried_claims(
            token@,
            secret_view(secret),
        ),
        secret is Some && !has_two_dots(token@) ==> r matches Err(TokenValidationError::Invalid),
{
    match read_claims(token.as_str(), secret) {
        Ok(claims) => {
            let reading = unix_time_now();
            let r = judge_claims_on_reading(claims, reading);
            proof {
                assert(verdict_view(r) == verification_on_reading(
                    token@,
                    secret_view(secret),
                    reading,
                ));
            }
            r
        },
        Err(e) => {
            proof {
                assert(Err::<ClaimsView, TokenValidationError>(e) == verification_on_reading(
                    token@,
                    secret_view(secret),
                    0,
                ));
            }
            Err(e)
        },
    }
}

/// Issues a token to `user` under `secret` at the time `now`, in seconds since
/// the Unix epoch. The token expires `TOKEN_TTL_SECONDS` later.
///
/// A token is issued wherever there is a secret and the expiry fits the
/// claims. It verifies under the same secret to the claims of `user` at every
/// time up to its expiry, and is reported expired at every later time.
pub fn create_token_at(user: User, secret: Option<&str>, now: u64) -> (r: Result<String, ()>)
    ensures
        issued_view(r) == issuance(user@, secret_view(secret), now),
        r matches Ok(got) ==> issued_at(got@, user@, secret_view(secret), now),
{
    let key = match secret {
        Some(key) => key,
        None => return Err(()),
    };
    let exp = match now.checked_add(TOKEN_TTL_SECONDS) {
        Some(exp) => exp,
        None => return Err(()),
    };
    if exp > usize::MAX as u64 {
        return Err(());
    }
    match sign_hs256(exp, user.id, user.email.as_str(), key) {
        Some(token) => Ok(token),
        None => Err(()),
    }
}

/// Issues a token to `user` under `secret` on a reading of the clock, as
/// [`crate::clock`] describes one: the token of the time that the reading
/// stands for, and none where it stands for no time.
pub fn create_token_on_reading(user: User, secret: Option<&str>, reading: i64) -> (r: Result<
    String,
    (),
>)
    ensures
        issued_view(r) == issuance_on_reading(user@, secret_view(secret), reading),
        r matches Ok(got) ==> issued_at(got@, user@, secret_view(secret), reading as u64),
{
    match time_of_reading(reading) {
        Some(now) => create_token_at(user, secret, now),
        None => Err(()),
    }
}

/// Issues a token to `user` under `secret` at the present time.
///
/// Whatever the clock reads, the result is the issuance on some reading. So no
/// token is issued without a secret; with one, a token fails to come only
/// where the clock stands before the epoch or the expiry does not fit the
/// claims; and a token that comes back was issued at some time, with the
/// lifetime that [`create_token_at`] states.
pub fn create_token(user: User, secret: Option<&str>) -> (r: Result<String, ()>)
    ensures
        exists|reading: i64|
            issued_view(r) == #[trigger] issuance_on_reading(
                user@,
                secret_view(secret),
                reading,
            ),
        secret is None ==> r is Err,
        r matches Ok(got) ==> exists|now: u64| #[trigger]
            issued_at(got@, user@, secret_view(secret), now),
{
    let reading = unix_time_now();
    let r = create_token_on_reading(user, secret, reading);
    proof {
        assert(issued_view(r) == issuance_on_reading(user@, secret_view(secret), reading));
        if r is Ok {
            assert(issued_at(r->Ok_0@, user@, secret_view(secret), reading as u64));
        }
    }
    r
}

/// A token that the decoder rejects is reported the same at every time and on
/// every reading of the clock, and never as expired; one whose signature is
/// bad is reported as invalid. So a token checked under a secret that does not
/// give its signature is invalid whether or not its lifetime is over.
pub proof fn rejected_token_is_never_expired(
    token: Seq<char>,
    secret: Seq<char>,
    now: u64,
    later: u64,
    reading: i64,
)
    ensures
        hs256_payload(token, secret) is Err ==> verification(token, Some(secret), now)
            == verification(token, Some(secret), later),
        hs256_payload(token, secret) is Err ==> verification(token, Some(secret), now)
            == verification_on_reading(token, Some(secret), reading),
        hs256_payload(token, secret) is Err ==> !(verification(token, Some(secret), now)
            matches Err(TokenValidationError::Expired)),
        hs256_payload(token, secret) matches Err(DecodeFailure::InvalidSignature)
            ==> verification(token, Some(secret), now) matches Err(TokenValidationError::Invalid),
{
}

/// Expiry is final: a token reported expired at one time is reported expired
/// at every later time.
pub proof fn expired_token_stays_expired(
    token: Seq<char>,
    secret: Option<Seq<char>>,
    now: u64,
    later: u64,
)
    requires
        now <= later,
        verification(token, secret, now) matches Err(TokenValidationError::Expired),
    ensures
        verification(token, secret, later) matches Err(TokenValidationError::Expired),
{
}

/// A token accepted at one time was accepted, with the same claims, at every
/// earlier time.
pub proof fn valid_token_was_valid_before(
    token: Seq<char>,
    secret: Option<Seq<char>>,
    earlier: u64,
    now: u64,
)
    requires
        earlier <= now,
        verification(token, secret, now) is Ok,
    ensures
        verification(token, secret, earlier) == verification(token, secret, now),
{
}

} // verus!

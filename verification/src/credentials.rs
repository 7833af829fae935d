//! The credential hasher: one-way, salted, memory-hard hashing of passwords,
//! and the check of a password against a stored credential.
//!
//! A credential is the PHC string that Argon2 produces: algorithm, version,
//! cost parameters, salt and digest in one text field. The hashing itself is
//! `argon2`'s; what this module decides, and proves, is how each outcome of
//! the outside calls is reported to the caller.

use argon2::password_hash::rand_core::{OsRng, RngCore};
use argon2::password_hash::{PasswordHash, PasswordHasher, PasswordVerifier, Salt, SaltString};
use argon2::Argon2;
use vstd::prelude::*;

verus! {

/// A failure of the credential hasher.
#[derive(Debug, Clone, Copy, PartialEq, Eq, Structural)]
pub enum CredentialError {
    /// No credential could be derived. This is an internal failure, never the
    /// user's.
    HashingFailed,
    /// The stored credential is not one that this hasher produced. This points
    /// at damaged data, not at a wrong password.
    Malformed,
}

/// What came of checking a password against a stored credential with Argon2.
#[derive(Debug, Clone, Copy, PartialEq, Eq, Structural)]
pub enum Argon2Check {
    /// The stored text is not a PHC string.
    Unparsable,
    /// The password re-derives the stored digest.
    Verified,
    /// The verifier answered "wrong password". It gives this answer also for a
    /// PHC string that carries no digest to compare with, so the outcome
    /// records whether there was one.
    Refused { digest_present: bool },
    /// The PHC string names an algorithm, a version or parameters that Argon2
    /// does not accept.
    Unsupported,
}

/// The credential that `Argon2::default().hash_password` derives from a
/// password and a salt in B64 text, or `None` where it refuses them.
pub uninterp spec fn argon2_credential(password: Seq<char>, salt: Seq<char>) -> Option<Seq<char>>;

/// The outcome of parsing `stored` with `PasswordHash::new` and checking
/// `password` against it with `Argon2::default().verify_password`.
pub uninterp spec fn argon2_check(stored: Seq<char>, password: Seq<char>) -> Argon2Check;

/// Whether `c` is a character of the standard Base64 alphabet.
pub open spec fn is_b64_char(c: char) -> bool {
    ||| 'A' <= c <= 'Z'
    ||| 'a' <= c <= 'z'
    ||| '0' <= c <= '9'
    ||| c == '+'
    ||| c == '/'
}

/// Whether `salt` has the shape of a freshly drawn salt: the unpadded Base64
/// text of 16 bytes. That is 22 characters of the alphabet, the last of which
/// carries two bits only and so is one of `A`, `Q`, `g` and `w`.
pub open spec fn is_drawn_salt(salt: Seq<char>) -> bool {
    &&& salt.len() == 22
    &&& forall|i: int| 0 <= i < 22 ==> is_b64_char(#[trigger] salt[i])
    &&& (salt[21] == 'A' || salt[21] == 'Q' || salt[21] == 'g' || salt[21] == 'w')
}

/// Whether `password` is short enough for Argon2 in every encoding: up to
/// 2^30 - 1 characters, which are less than 2^32 bytes of UTF-8.
pub open spec fn is_hashable_password(password: Seq<char>) -> bool {
    password.len() <= 0x3FFF_FFFF
}

/// Draws 16 bytes from the operating system's random generator with
/// `OsRng.try_fill_bytes` and encodes them with `SaltString::encode_b64`.
/// Returns the salt's text, `None` where the generator gives no bytes.
///
/// Believed of `password-hash`: the text is the unpadded Base64 of the 16
/// bytes. Nothing is claimed of which salt comes: every call may return
/// another one.
#[verifier::external_body]
fn fresh_salt() -> (salt: Option<String>)
    ensures
        salt matches Some(text) ==> is_drawn_salt(text@),
{
    let mut bytes = [0u8; Salt::RECOMMENDED_LENGTH];
    OsRng.try_fill_bytes(&mut bytes).ok()?;
    Some(SaltString::encode_b64(&bytes).ok()?.as_str().to_owned())
}

/// Calls `Argon2::default().hash_password` with the salt parsed by
/// `Salt::from_b64`, and returns the PHC string of the hash, `None` where either
/// call fails.
///
/// Believed of `argon2`: the result depends on the password and the salt
/// alone; a credential it derives verifies against the password it was derived
/// from; the PHC string carries the salt as given, so that no other salt
/// yields the same credential; and it derives a credential wherever the salt
/// is the Base64 of 16 bytes and the password is under 2^32 bytes, the lengths
/// of the two being all that it checks of them.
#[verifier::external_body]
fn argon2_hash(password: &str, salt: &str) -> (r: Option<String>)
    ensures
        r matches Some(h) ==> argon2_credential(password@, salt@) == Some(h@),
        r is None ==> argon2_credential(password@, salt@) is None,
        is_drawn_salt(salt@) && is_hashable_password(password@) ==> r is Some,
        r matches Some(h) ==> argon2_check(h@, password@) == Argon2Check::Verified,
        r matches Some(h) ==> forall|other: Seq<char>|
            other != salt@ ==> #[trigger] argon2_credential(password@, other) != Some(h@),
{
    let salt = Salt::from_b64(salt).ok()?;
    let hash = Argon2::default().hash_password(password.as_bytes(), salt).ok()?;
    Some(hash.to_string())
}

/// Parses `stored` with `PasswordHash::new` and checks `password` against it
/// with `Argon2::default().verify_password`, which compares the digests in
/// constant time. Each outcome of the two calls becomes one variant of
/// [`Argon2Check`]; the result depends on the two texts alone.
#[verifier::external_body]
fn argon2_verify(stored: &str, password: &str) -> (r: Argon2Check)
    ensures
        r == argon2_check(stored@, password@),
{
    match PasswordHash::new(stored) {
        Err(_) => Argon2Check::Unparsable,
        Ok(parsed) => match Argon2::default().verify_password(password.as_bytes(), &parsed) {
            Ok(()) => Argon2Check::Verified,
            Err(argon2::password_hash::Error::Password) => {
                Argon2Check::Refused { digest_present: parsed.hash.is_some() }
            },
            Err(_) => Argon2Check::Unsupported,
        },
    }
}

/// How an outcome of the Argon2 check is reported: a match and a mismatch are
/// answers, everything else says that the stored credential is damaged.
pub open spec fn check_verdict(check: Argon2Check) -> Result<bool, CredentialError> {
    match check {
        Argon2Check::Verified => Ok(true),
        Argon2Check::Refused { digest_present } => if digest_present {
            Ok(false)
        } else {
            Err(CredentialError::Malformed)
        },
        Argon2Check::Unparsable => Err(CredentialError::Malformed),
        Argon2Check::Unsupported => Err(CredentialError::Malformed),
    }
}

/// Whether `password` belongs to the credential `stored`, or that `stored` is
/// no credential of this hasher.
pub open spec fn password_check(stored: Seq<char>, password: Seq<char>) -> Result<
    bool,
    CredentialError,
> {
    check_verdict(argon2_check(stored, password))
}

/// The credential of `password` under `salt`.
pub open spec fn salted_credential(password: Seq<char>, salt: Seq<char>) -> Result<
    Seq<char>,
    CredentialError,
> {
    match argon2_credential(password, salt) {
        Some(credential) => Ok(credential),
        None => Err(CredentialError::HashingFailed),
    }
}

/// Whether `credential` is the credential of `password` under `salt`.
pub open spec fn derives(password: Seq<char>, salt: Seq<char>, credential: Seq<char>) -> bool {
    argon2_credential(password, salt) == Some(credential)
}

/// A draw of the salt as contracts speak of it.
pub open spec fn salt_view(drawn: Option<String>) -> Option<Seq<char>> {
    match drawn {
        Some(salt) => Some(salt@),
        None => None,
    }
}

/// The result of a hashing as contracts speak of it.
pub open spec fn credential_view(r: Result<String, CredentialError>) -> Result<
    Seq<char>,
    CredentialError,
> {
    match r {
        Ok(credential) => Ok(credential@),
        Err(e) => Err(e),
    }
}

/// Reports an outcome of the Argon2 check to the caller.
pub fn verdict_of(check: Argon2Check) -> (r: Result<bool, CredentialError>)
    ensures
        r == check_verdict(check),
{
    match check {
        Argon2Check::Verified => Ok(true),
        Argon2Check::Refused { digest_present: true } => Ok(false),
        _ => Err(CredentialError::Malformed),
    }
}

/// Checks `password` against the stored credential.
///
/// `Ok(false)` is a wrong password. An error is a stored value that this
/// hasher did not produce, which callers must not take for a wrong password.
pub fn verify_password(hashed_password: &str, password: &str) -> (r: Result<bool, CredentialError>)
    ensures
        r == password_check(hashed_password@, password@),
{
    verdict_of(argon2_verify(hashed_password, password))
}

/// Derives the credential of `password` under the given salt, which is B64
/// text as a PHC string carries it.
///
/// A credential is derived wherever the salt has the shape of a drawn one and
/// the password is of hashable length. The credential verifies against
/// `password`, and it is the credential of no other salt: hashing one password
/// under two different salts gives two different credentials.
pub fn hash_password_with_salt(password: &str, salt: &str) -> (r: Result<String, CredentialError>)
    ensures
        credential_view(r) == salted_credential(password@, salt@),
        is_drawn_salt(salt@) && is_hashable_password(password@) ==> r is Ok,
        r matches Ok(got) ==> password_check(got@, password@) matches Ok(true),
        r matches Ok(got) ==> forall|other: Seq<char>|
            other != salt@ ==> !#[trigger] derives(password@, other, got@),
{
    match argon2_hash(password, salt) {
        Some(credential) => Ok(credential),
        None => Err(CredentialError::HashingFailed),
    }
}

/// The credential of `password` on a draw of the salt: `drawn` is the salt
/// that the random generator gave, or `None` where it gave none.
pub open spec fn credential_on_draw(password: Seq<char>, drawn: Option<Seq<char>>) -> Result<
    Seq<char>,
    CredentialError,
> {
    match drawn {
        Some(salt) => salted_credential(password, salt),
        None => Err(CredentialError::HashingFailed),
    }
}

/// Whether `drawn` is a possible draw of the salt.
pub open spec fn is_draw(drawn: Option<Seq<char>>) -> bool {
    drawn matches Some(salt) ==> is_drawn_salt(salt)
}

/// Whether `outcome` is what hashing `password` comes to on the draw `drawn`:
/// the draw is a possible one, the outcome is the credential on it, and where
/// a salt was drawn a password of hashable length has got its credential.
pub open spec fn hashed_on_draw(
    outcome: Result<Seq<char>, CredentialError>,
    password: Seq<char>,
    drawn: Option<Seq<char>>,
) -> bool {
    &&& is_draw(drawn)
    &&& outcome == credential_on_draw(password, drawn)
    &&& drawn is Some && is_hashable_password(password) ==> outcome is Ok
}

/// Derives the credential of `password` on a draw of the salt: under the salt
/// where one was drawn, and a failure where the generator gave none.
///
/// On a possible draw that gave a salt, a password of hashable length always
/// gets its credential.
pub fn hash_password_on_draw(password: &str, drawn: Option<String>) -> (r: Result<
    String,
    CredentialError,
>)
    ensures
        credential_view(r) == credential_on_draw(password@, salt_view(drawn)),
        drawn matches Some(salt) && is_drawn_salt(salt@) && is_hashable_password(password@)
            ==> r is Ok,
        r matches Ok(got) ==> password_check(got@, password@) matches Ok(true),
{
    match drawn {
        Some(salt) => hash_password_with_salt(password, salt.as_str()),
        None => Err(CredentialError::HashingFailed),
    }
}

/// Derives a credential of `password` under a fresh random salt.
///
/// Whatever was drawn, the result is the credential on some possible draw. So
/// a credential that comes back is the credential of `password` under a salt
/// of the drawn shape and verifies against `password`; and a password of
/// hashable length fails to get one only where the generator gave no salt.
pub fn hash_password(password: &str) -> (r: Result<String, CredentialError>)
    ensures
        exists|drawn: Option<Seq<char>>| #[trigger]
            hashed_on_draw(credential_view(r), password@, drawn),
        r matches Ok(got) ==> password_check(got@, password@) matches Ok(true),
        r matches Err(e) ==> e == CredentialError::HashingFailed,
{
    let drawn = fresh_salt();
    let ghost seen = salt_view(drawn);
    let r = hash_password_on_draw(password, drawn);
    proof {
        assert(hashed_on_draw(credential_view(r), password@, seen));
    }
    r
}

/// A password that Argon2 refuses on a credential that carries a digest is a
/// plain mismatch: the answer is `Ok(false)`, never an error. Whether Argon2
/// refuses another password than the one hashed is its own affair.
pub proof fn refused_password_is_a_mismatch(stored: Seq<char>, password: Seq<char>)
    ensures
        argon2_check(stored, password) == (Argon2Check::Refused { digest_present: true })
            ==> password_check(stored, password) matches Ok(false),
{
}

} // verus!

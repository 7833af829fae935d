use user_auth::credentials::{
    hash_password, hash_password_on_draw, hash_password_with_salt, verdict_of, verify_password,
    Argon2Check, CredentialError,
};

const SALT: &str = "c29tZXNhbHQ";
const REFERENCE: &str =
    "$argon2id$v=19$m=19456,t=2,p=1$c29tZXNhbHQ$PL01amPyeUuxG7H0vIr5X+qHkZvWnHmGBGXFYvh8z2E";
const OLDER_COST: &str =
    "$argon2id$v=19$m=65536,t=2,p=1$c29tZXNhbHQ$CTFhFdXPJO1aFaMaO6Mm5c8y7cJHAph8ArZWb2GRPPc";

#[test]
fn a_hashed_password_verifies() {
    for plaintext in ["hunter2", "", "pässwörd ✓", "a much longer pass phrase with spaces in it"] {
        let credential = hash_password(plaintext).unwrap();
        assert_eq!(verify_password(&credential, plaintext), Ok(true));
    }
}

#[test]
fn another_password_is_refused_without_an_error() {
    let credential = hash_password("hunter2").unwrap();
    assert_eq!(verify_password(&credential, "hunter3"), Ok(false));
    assert_eq!(verify_password(&credential, ""), Ok(false));
    assert_eq!(verify_password(&credential, "Hunter2"), Ok(false));
}

#[test]
fn two_hashes_of_one_password_differ_and_both_verify() {
    let first = hash_password("hunter2").unwrap();
    let second = hash_password("hunter2").unwrap();
    assert_ne!(first, second);
    assert_eq!(verify_password(&first, "hunter2"), Ok(true));
    assert_eq!(verify_password(&second, "hunter2"), Ok(true));
}

#[test]
fn a_credential_is_a_phc_string_and_not_the_plaintext() {
    let credential = hash_password("hunter2").unwrap();
    assert!(credential.starts_with("$argon2id$v=19$m=19456,t=2,p=1$"));
    assert_eq!(credential.split('$').count(), 6);
    assert!(!credential.contains("hunter2"));
}

#[test]
fn a_salted_hash_matches_the_reference_value() {
    assert_eq!(hash_password_with_salt("password", SALT), Ok(REFERENCE.to_string()));
    assert_eq!(
        hash_password_with_salt("correct horse", "AAECAwQFBgcICQoLDA0ODw"),
        Ok("$argon2id$v=19$m=19456,t=2,p=1$AAECAwQFBgcICQoLDA0ODw$0AuQxA+RjPiJeA19Op7DwrFxnfh9xeTU2T6mFj2wThc"
            .to_string())
    );
}

#[test]
fn a_salted_hash_depends_on_password_and_salt_alone() {
    let once = hash_password_with_salt("hunter2", SALT).unwrap();
    let again = hash_password_with_salt("hunter2", SALT).unwrap();
    assert_eq!(once, again);
    assert_eq!(verify_password(&once, "hunter2"), Ok(true));
}

#[test]
fn different_salts_give_different_credentials() {
    let one = hash_password_with_salt("hunter2", "c29tZXNhbHQ").unwrap();
    let other = hash_password_with_salt("hunter2", "b3RoZXJzYWx0").unwrap();
    assert_ne!(one, other);
    assert_eq!(one.split('$').nth(4), Some("c29tZXNhbHQ"));
    assert_eq!(other.split('$').nth(4), Some("b3RoZXJzYWx0"));
    assert_eq!(verify_password(&one, "hunter2"), Ok(true));
    assert_eq!(verify_password(&other, "hunter2"), Ok(true));
}

#[test]
fn an_unusable_salt_fails_the_hashing() {
    assert_eq!(hash_password_with_salt("hunter2", ""), Err(CredentialError::HashingFailed));
    assert_eq!(hash_password_with_salt("hunter2", "abc"), Err(CredentialError::HashingFailed));
    assert_eq!(
        hash_password_with_salt("hunter2", "not$a$salt"),
        Err(CredentialError::HashingFailed)
    );
    assert_eq!(
        hash_password_with_salt("hunter2", &"a".repeat(65)),
        Err(CredentialError::HashingFailed)
    );
}

#[test]
fn a_reference_credential_verifies() {
    assert_eq!(verify_password(REFERENCE, "password"), Ok(true));
    assert_eq!(verify_password(REFERENCE, "sassword"), Ok(false));
}

#[test]
fn a_credential_with_other_cost_parameters_verifies() {
    assert_eq!(verify_password(OLDER_COST, "password"), Ok(true));
    assert_eq!(verify_password(OLDER_COST, "sassword"), Ok(false));
}

#[test]
fn a_stored_value_that_is_no_phc_string_is_malformed() {
    for stored in ["", "hunter2", "argon2id$v=19", "$", "$argon2id$v=19$m=19456,t=2,p=1$c29tZXNhbHQ$PL01$extra"] {
        assert_eq!(verify_password(stored, "hunter2"), Err(CredentialError::Malformed));
    }
}

#[test]
fn a_phc_string_without_a_digest_is_malformed_not_a_mismatch() {
    assert_eq!(
        verify_password("$argon2id$v=19$m=19456,t=2,p=1$c29tZXNhbHQ", "password"),
        Err(CredentialError::Malformed)
    );
    assert_eq!(
        verify_password("$argon2id$v=19$m=19456,t=2,p=1", "password"),
        Err(CredentialError::Malformed)
    );
}

#[test]
fn a_phc_string_of_another_scheme_is_malformed() {
    assert_eq!(
        verify_password(
            "$argon2i$v=42$m=65536,t=2,p=1$c29tZXNhbHQ$9sTbSlTio3Biev89thdrlKKiCaYsjjYVJxGAL3swxpQ",
            "password"
        ),
        Err(CredentialError::Malformed)
    );
    assert_eq!(
        verify_password(
            "$pbkdf2-sha256$i=1000$c29tZXNhbHQ$CTFhFdXPJO1aFaMaO6Mm5c8y7cJHAph8ArZWb2GRPPc",
            "password"
        ),
        Err(CredentialError::Malformed)
    );
}

#[test]
fn each_outcome_of_the_check_has_its_verdict() {
    assert_eq!(verdict_of(Argon2Check::Verified), Ok(true));
    assert_eq!(verdict_of(Argon2Check::Refused { digest_present: true }), Ok(false));
    assert_eq!(
        verdict_of(Argon2Check::Refused { digest_present: false }),
        Err(CredentialError::Malformed)
    );
    assert_eq!(verdict_of(Argon2Check::Unparsable), Err(CredentialError::Malformed));
    assert_eq!(verdict_of(Argon2Check::Unsupported), Err(CredentialError::Malformed));
}

#[test]
fn a_draw_without_a_salt_fails_the_hashing() {
    assert_eq!(hash_password_on_draw("hunter2", None), Err(CredentialError::HashingFailed));
}

#[test]
fn a_drawn_salt_always_gives_a_credential() {
    for salt in ["AAAAAAAAAAAAAAAAAAAAAA", "/////////////////////w", "+/09azAZ+/09azAZ+/09ag"] {
        let credential = hash_password_on_draw("hunter2", Some(salt.to_string())).unwrap();
        assert_eq!(credential.split('$').nth(4), Some(salt));
        assert_eq!(verify_password(&credential, "hunter2"), Ok(true));
    }
}

#[test]
fn a_drawn_salt_gives_a_credential_to_the_empty_password() {
    let credential =
        hash_password_on_draw("", Some("abcdefghijklmnopqrstuQ".to_string())).unwrap();
    assert_eq!(credential.split('$').nth(4), Some("abcdefghijklmnopqrstuQ"));
    assert_eq!(verify_password(&credential, ""), Ok(true));
    assert_eq!(hash_password_with_salt("", "abcdefghijklmnopqrstuQ"), Ok(credential));
}

#[test]
fn a_fresh_salt_is_the_base64_of_16_bytes() {
    for _ in 0..4 {
        let credential = hash_password("hunter2").unwrap();
        let salt = credential.split('$').nth(4).unwrap().to_string();
        assert_eq!(salt.len(), 22);
        assert!(salt.chars().all(|c| c.is_ascii_alphanumeric() || c == '+' || c == '/'));
        assert!(matches!(salt.chars().last(), Some('A') | Some('Q') | Some('g') | Some('w')));
    }
}

use argon2::password_hash::{PasswordHash, PasswordHasher, PasswordVerifier, SaltString};
use argon2::{Algorithm, Argon2, Params, Version};
use fishy_edge::authentication::password::{
    compute_password_hash, conclude, dummy_hash, expected_password_hash, get_stored_credentials,
    hash_outcome, password_outcome, validate_credentials, verify_password_hash, AuthCause,
    AuthError, Credentials, CredentialsRow, HashCheck, HashingFailed, LookupFailed,
    StoredCredentials, ITERATIONS, MEMORY_COST, PARALLELISM,
};

// Argon2id, version 0x13, two passes, one lane, of "password" under the
// salt "somesalt", with 256 KiB and with 64 MiB of memory.
const SMALL: &str = "$argon2id$v=19$m=256,t=2,p=1$c29tZXNhbHQ$nf65EOgLrQMR/uIPnA4rEsF5h7TKyQwu9U1bMCHGi/4";
const LARGE: &str = "$argon2id$v=19$m=65536,t=2,p=1$c29tZXNhbHQ$CTFhFdXPJO1aFaMaO6Mm5c8y7cJHAph8ArZWb2GRPPc";

const INVALID_PASSWORD: AuthError = AuthError::InvalidCredentials(AuthCause::InvalidPassword);
const UNKNOWN_USERNAME: AuthError = AuthError::InvalidCredentials(AuthCause::UnknownUsername);
const MALFORMED_HASH: AuthError = AuthError::UnexpectedError(AuthCause::MalformedHash);

fn credentials<'a>(email: &'a str, password: &'a str) -> Credentials<'a> {
    Credentials { email, password }
}

fn record(password_hash: &str, is_admin: bool) -> StoredCredentials {
    StoredCredentials { user_id: 42, password_hash: password_hash.to_string(), is_admin }
}

#[test]
fn the_costs_are_fixed() {
    assert_eq!((MEMORY_COST, ITERATIONS, PARALLELISM), (15000, 2, 1));
}

#[test]
fn a_known_hash_verifies_for_its_password() {
    assert_eq!(verify_password_hash(SMALL, "password"), Ok(()));
    assert_eq!(verify_password_hash(LARGE, "password"), Ok(()));
}

#[test]
fn a_known_hash_refuses_every_other_password() {
    for candidate in ["", "passwor", "password ", "Password", "passwore", SMALL] {
        assert_eq!(verify_password_hash(SMALL, candidate), Err(INVALID_PASSWORD));
    }
}

#[test]
fn a_hash_with_another_salt_or_cost_refuses_the_password() {
    let other_salt = "$argon2id$v=19$m=256,t=2,p=1$c29tZXNhbHR6$nf65EOgLrQMR/uIPnA4rEsF5h7TKyQwu9U1bMCHGi/4";
    let other_cost = "$argon2id$v=19$m=256,t=3,p=1$c29tZXNhbHQ$nf65EOgLrQMR/uIPnA4rEsF5h7TKyQwu9U1bMCHGi/4";
    let other_kind = "$argon2i$v=19$m=256,t=2,p=1$c29tZXNhbHQ$nf65EOgLrQMR/uIPnA4rEsF5h7TKyQwu9U1bMCHGi/4";
    for hash in [other_salt, other_cost, other_kind] {
        assert_eq!(verify_password_hash(hash, "password"), Err(INVALID_PASSWORD));
    }
}

#[test]
fn a_hash_that_is_no_phc_string_is_an_unexpected_error() {
    for hash in ["", "password", "argon2id$v=19$m=256,t=2,p=1$c29tZXNhbHQ$abcd", "$", "$argon2id$v=19$m=256,t=2,p=1$c29tZXNhbHQ$not base64!"] {
        assert_eq!(verify_password_hash(hash, "password"), Err(MALFORMED_HASH));
    }
}

#[test]
fn a_hash_that_cannot_be_verified_against_is_an_unexpected_error() {
    let unverifiable = AuthError::UnexpectedError(AuthCause::VerificationFailed);
    let other_scheme = "$scrypt$ln=16,r=8,p=1$c29tZXNhbHQ$nf65EOgLrQMR/uIPnA4rEsF5h7TKyQwu9U1bMCHGi/4";
    let no_memory = "$argon2id$v=19$m=1,t=2,p=1$c29tZXNhbHQ$nf65EOgLrQMR/uIPnA4rEsF5h7TKyQwu9U1bMCHGi/4";
    let other_version = "$argon2id$v=17$m=256,t=2,p=1$c29tZXNhbHQ$nf65EOgLrQMR/uIPnA4rEsF5h7TKyQwu9U1bMCHGi/4";
    for hash in [other_scheme, no_memory, other_version] {
        assert_eq!(verify_password_hash(hash, "password"), Err(unverifiable));
    }
    let found = Ok(Some(record(other_scheme, false)));
    assert_eq!(validate_credentials(&credentials("u1@example.com", "password"), found), Err(unverifiable));
}

#[test]
fn a_hash_without_output_refuses_every_password() {
    assert_eq!(
        verify_password_hash("$argon2id$v=19$m=256,t=2,p=1$c29tZXNhbHQ", "password"),
        Err(INVALID_PASSWORD)
    );
}

#[test]
fn the_check_is_the_one_of_the_argon2_crate() {
    let salt = SaltString::new("c2FsdHNhbHRzYWx0").unwrap();
    let params = Params::new(64, 1, 1, None).unwrap();
    let hash = Argon2::new(Algorithm::Argon2id, Version::V0x13, params)
        .hash_password("correct horse".as_bytes(), &salt)
        .unwrap()
        .to_string();
    assert_eq!(verify_password_hash(&hash, "correct horse"), Ok(()));
    assert_eq!(verify_password_hash(&hash, "battery staple"), Err(INVALID_PASSWORD));
}

#[test]
fn only_an_unexpected_error_may_be_retried() {
    assert!(!INVALID_PASSWORD.may_be_retried());
    assert!(!UNKNOWN_USERNAME.may_be_retried());
    assert!(MALFORMED_HASH.may_be_retried());
    assert!(AuthError::UnexpectedError(AuthCause::LookupFailed).may_be_retried());
    assert!(AuthError::UnexpectedError(AuthCause::TaskFailed).may_be_retried());
}

#[test]
fn each_check_has_its_outcome() {
    assert_eq!(password_outcome(HashCheck::Match), Ok(()));
    assert_eq!(password_outcome(HashCheck::Mismatch), Err(INVALID_PASSWORD));
    assert_eq!(password_outcome(HashCheck::Malformed), Err(MALFORMED_HASH));
    assert_eq!(
        password_outcome(HashCheck::Unverifiable),
        Err(AuthError::UnexpectedError(AuthCause::VerificationFailed))
    );
}

#[test]
fn the_dummy_hash_is_a_hash_with_the_costs_of_the_library() {
    let text = dummy_hash();
    assert_eq!(
        text,
        "$argon2id$v=19$m=15000,t=2,p=1$gZiV/M1gPc22ElAH/Jh1Hw$CWOrkoo7oJBQ/iyh7uJ0LO2aLEfrHwTWllSAxT0zRno"
    );
    let parsed = PasswordHash::new(text).unwrap();
    let params = Params::try_from(&parsed).unwrap();
    assert_eq!((params.m_cost(), params.t_cost(), params.p_cost()), (MEMORY_COST, ITERATIONS, PARALLELISM));
    assert_eq!(verify_password_hash(text, "anything"), Err(INVALID_PASSWORD));
}

#[test]
fn the_expected_hash_is_the_stored_one_or_the_dummy() {
    assert_eq!(expected_password_hash(&Some(record(SMALL, false))), SMALL);
    assert_eq!(expected_password_hash(&None), dummy_hash());
}

#[test]
fn a_new_hash_verifies_for_its_password_only() {
    let hash = compute_password_hash("first password").unwrap();
    assert_eq!(verify_password_hash(&hash, "first password"), Ok(()));
    assert_eq!(verify_password_hash(&hash, "second password"), Err(INVALID_PASSWORD));
    let parsed = PasswordHash::new(&hash).unwrap();
    assert!(Argon2::default().verify_password("first password".as_bytes(), &parsed).is_ok());
}

#[test]
fn a_new_hash_records_the_fixed_costs() {
    let hash = compute_password_hash("").unwrap();
    assert!(hash.starts_with("$argon2id$v=19$m=15000,t=2,p=1$"));
    assert_ne!(hash, "");
}

#[test]
fn two_hashes_of_one_password_differ_by_their_salt() {
    let first = compute_password_hash("same").unwrap();
    let second = compute_password_hash("same").unwrap();
    assert_ne!(first, second);
}

#[test]
fn a_hashing_attempt_has_its_outcome() {
    assert_eq!(hash_outcome(Some("hash".to_string())), Ok("hash".to_string()));
    assert_eq!(hash_outcome(None), Err(HashingFailed));
}

#[test]
fn an_absent_stored_flag_is_false() {
    let row = CredentialsRow { id: 7, password_hash: SMALL.to_string(), is_admin: None };
    assert_eq!(
        get_stored_credentials(Ok(Some(row))),
        Ok(Some(StoredCredentials { user_id: 7, password_hash: SMALL.to_string(), is_admin: false }))
    );
    let row = CredentialsRow { id: 8, password_hash: LARGE.to_string(), is_admin: Some(true) };
    assert_eq!(
        get_stored_credentials(Ok(Some(row))),
        Ok(Some(StoredCredentials { user_id: 8, password_hash: LARGE.to_string(), is_admin: true }))
    );
    let row = CredentialsRow { id: 9, password_hash: String::new(), is_admin: Some(false) };
    assert_eq!(get_stored_credentials(Ok(Some(row))).unwrap().unwrap().is_admin, false);
    assert_eq!(get_stored_credentials(Ok(None)), Ok(None));
    assert_eq!(get_stored_credentials(Err(LookupFailed)), Err(LookupFailed));
}

#[test]
fn correct_credentials_give_the_identifier_and_the_flag() {
    let found = Ok(Some(record(SMALL, true)));
    assert_eq!(validate_credentials(&credentials("u1@example.com", "password"), found), Ok((42, true)));
    let found = Ok(Some(record(SMALL, false)));
    assert_eq!(validate_credentials(&credentials("u1@example.com", "password"), found), Ok((42, false)));
}

#[test]
fn a_wrong_password_is_invalid_credentials() {
    let found = Ok(Some(record(SMALL, true)));
    assert_eq!(validate_credentials(&credentials("u1@example.com", "wrong"), found), Err(INVALID_PASSWORD));
}

#[test]
fn an_unknown_email_is_invalid_credentials() {
    let outcome = validate_credentials(&credentials("nobody@example.com", "password"), Ok(None));
    assert_eq!(outcome, Err(INVALID_PASSWORD));
    assert!(matches!(outcome, Err(AuthError::InvalidCredentials(_))));
}

#[test]
fn a_failed_lookup_is_an_unexpected_error() {
    assert_eq!(
        validate_credentials(&credentials("u1@example.com", "password"), Err(LookupFailed)),
        Err(AuthError::UnexpectedError(AuthCause::LookupFailed))
    );
}

#[test]
fn a_malformed_stored_hash_is_an_unexpected_error() {
    let found = Ok(Some(record("not a hash", false)));
    assert_eq!(validate_credentials(&credentials("u1@example.com", "password"), found), Err(MALFORMED_HASH));
}

#[test]
fn a_password_that_passed_the_check_authenticates_nobody_without_a_record() {
    assert_eq!(conclude(&None, Ok(())), Err(UNKNOWN_USERNAME));
    assert_eq!(conclude(&None, Err(INVALID_PASSWORD)), Err(INVALID_PASSWORD));
    assert_eq!(conclude(&None, Err(MALFORMED_HASH)), Err(MALFORMED_HASH));
    assert_eq!(conclude(&Some(record(SMALL, true)), Ok(())), Ok((42, true)));
    assert_eq!(conclude(&Some(record(SMALL, true)), Err(INVALID_PASSWORD)), Err(INVALID_PASSWORD));
}

/// The shortest of three runs of a validation that is refused.
fn shortest(credentials: &Credentials<'_>, found: &Result<Option<StoredCredentials>, LookupFailed>) -> std::time::Duration {
    let mut shortest = std::time::Duration::MAX;
    for _ in 0..3 {
        let started = std::time::Instant::now();
        assert!(validate_credentials(credentials, found.clone()).is_err());
        shortest = shortest.min(started.elapsed());
    }
    shortest
}

#[test]
fn an_unknown_email_costs_a_verification() {
    // The dummy hash is verified with the costs of a real one, so the
    // answer for an unknown email takes about as long as the answer for
    // a wrong password, and far longer than an answer without verification.
    let real = compute_password_hash("first password").unwrap();
    let wrong = credentials("u1@example.com", "wrong");
    assert_eq!(validate_credentials(&wrong, Ok(Some(record(&real, false)))), Err(INVALID_PASSWORD));
    assert_eq!(validate_credentials(&wrong, Ok(None)), Err(INVALID_PASSWORD));
    let wrong_password = shortest(&wrong, &Ok(Some(record(&real, false))));
    let unknown_email = shortest(&wrong, &Ok(None));
    let no_verification = shortest(&wrong, &Err(LookupFailed));
    assert!(unknown_email * 5 > wrong_password, "{:?} against {:?}", unknown_email, wrong_password);
    assert!(wrong_password * 5 > unknown_email, "{:?} against {:?}", unknown_email, wrong_password);
    assert!(unknown_email > no_verification * 5, "{:?} against {:?}", unknown_email, no_verification);
}

use jot::authentication::password::{
    credential_outcome, dummy_hash, select_expected_hash, verify_password_hash, AuthError,
    Credentials, StoreError, StoredCredentials,
};
use jot::authentication::validate_credentials;
use jot::domain::user_password::{
    compute_password_hash_with_salt, hashing_outcome, verdict, HashError, VerifyError,
};
use jot::domain::{compute_password_hash, SecretText, UserPassWord};

fn secret(text: &str) -> SecretText {
    Credentials::from_form(String::new(), text.to_string()).password
}

#[test]
fn verify_password_with_fresh_hash_succeeds() {
    let password = UserPassWord::parse("TestPassword123".to_string()).unwrap();
    let hash = compute_password_hash(&password).unwrap();

    let result = verify_password_hash(hash, secret("TestPassword123"));
    assert_eq!(result, Ok(()));
}

#[test]
fn verify_password_with_invalid_password_fails() {
    let password = secret("WrongPassword123");
    let hash = "$argon2id$v=19$m=19456,t=2,p=1$VE0dJ1xo8RcJKxCc4KXMqw$qmM+1JDsIGMjGGOEUBGJrKCfVLGzCCZGbXGxoLUzEq4"
        .to_string();

    let result = verify_password_hash(hash, password);
    assert!(result.is_err());
}

#[test]
fn password_too_short_is_rejected() {
    let password = "jshort".to_string();

    assert!(UserPassWord::parse(password).is_err());
}

#[test]
fn password_too_long_is_rejected() {
    let password = "a".repeat(129) + "1";

    assert!(UserPassWord::parse(password).is_err());
}

#[test]
fn password_without_digit_is_rejected() {
    let password = "nodigitshere".to_string();
    assert!(UserPassWord::parse(password).is_err());
}

#[test]
fn password_without_letter_is_rejected() {
    let password = "12345678".to_string();
    assert!(UserPassWord::parse(password).is_err());
}

#[test]
fn valid_password_is_parsed_successfully() {
    let password = "validPass123".to_string();
    assert!(UserPassWord::parse(password).is_ok());
}

#[test]
fn password_hash_verification_works() {
    let password = UserPassWord::parse("testPass123".to_string()).unwrap();
    let hash = compute_password_hash(&password).unwrap();

    assert!(jot::domain::verify_password_hash(&hash, &password).is_ok());
}

#[test]
fn wrong_password_fails_verification() {
    let password = UserPassWord::parse("testPass123".to_string()).unwrap();
    let wrong_password = UserPassWord::parse("wrongPass123".to_string()).unwrap();
    let hash = compute_password_hash(&password).unwrap();
    assert!(jot::domain::verify_password_hash(&hash, &wrong_password).is_err());
}

#[test]
fn password_errors_name_the_first_rule_broken() {
    let reason = |s: &str| UserPassWord::parse(s.to_string()).err().unwrap();
    assert_eq!(reason("a1"), "Password must be atleast 8 characters long");
    assert_eq!(reason(&"a1".repeat(65)), "Password must be at most 128 characters long");
    assert_eq!(reason("nodigitshere"), "Password must contain at least one digit");
    assert_eq!(reason("12345678"), "Password must contain at least one letter");
    assert!(UserPassWord::parse("a1".repeat(64)).is_ok());
    assert!(UserPassWord::parse("abcdefg1".to_string()).is_ok());
    // length is counted in bytes: four letters of two bytes each make eight
    assert_eq!(reason("éééé"), "Password must contain at least one digit");
    assert_eq!(reason("ééé1"), "Password must be atleast 8 characters long");
}

#[test]
fn a_hash_is_a_phc_string_of_argon2() {
    let password = UserPassWord::parse("testPass123".to_string()).unwrap();
    let hash = compute_password_hash(&password).unwrap();
    assert!(hash.starts_with("$argon2id$v=19$"));
    assert_ne!(hash, password.expose_secret());
}

#[test]
fn hashing_twice_gives_two_hashes_that_both_verify() {
    let password = UserPassWord::parse("testPass123".to_string()).unwrap();
    let first = compute_password_hash(&password).unwrap();
    let second = compute_password_hash(&password).unwrap();
    assert_ne!(first, second);
    assert_eq!(jot::domain::verify_password_hash(&first, &password), Ok(()));
    assert_eq!(jot::domain::verify_password_hash(&second, &password), Ok(()));
}

#[test]
fn verification_tells_a_mismatch_from_a_malformed_hash() {
    let password = UserPassWord::parse("testPass123".to_string()).unwrap();
    let other = UserPassWord::parse("testPass124".to_string()).unwrap();
    let hash = compute_password_hash(&password).unwrap();
    assert_eq!(
        jot::domain::verify_password_hash(&hash, &other),
        Err(VerifyError::Mismatch)
    );
    assert_eq!(
        jot::domain::verify_password_hash("testPass123", &password),
        Err(VerifyError::MalformedHash)
    );
    assert_eq!(
        jot::domain::verify_password_hash("", &password),
        Err(VerifyError::MalformedHash)
    );
    assert_eq!(verdict(false, true), Err(VerifyError::MalformedHash));
    assert_eq!(verdict(true, false), Err(VerifyError::Mismatch));
    assert_eq!(verdict(true, true), Ok(()));
}

#[test]
fn a_hash_is_determined_by_password_and_salt() {
    let password = UserPassWord::parse("testPass123".to_string()).unwrap();
    let other = UserPassWord::parse("testPass124".to_string()).unwrap();
    let first = compute_password_hash_with_salt(&password, "gZiV/M1gPc22ElAH/Jh1Hw").unwrap();
    let again = compute_password_hash_with_salt(&password, "gZiV/M1gPc22ElAH/Jh1Hw").unwrap();
    let salted = compute_password_hash_with_salt(&password, "VE0dJ1xo8RcJKxCc4KXMqw").unwrap();
    let changed = compute_password_hash_with_salt(&other, "gZiV/M1gPc22ElAH/Jh1Hw").unwrap();
    assert_eq!(first, again);
    assert_ne!(first, salted);
    assert_ne!(first, changed);
    assert!(first.starts_with("$argon2id$v=19$m=19456,t=2,p=1$gZiV/M1gPc22ElAH/Jh1Hw$"));
    assert!(salted.starts_with("$argon2id$v=19$m=19456,t=2,p=1$VE0dJ1xo8RcJKxCc4KXMqw$"));
    assert_eq!(jot::domain::verify_password_hash(&first, &password), Ok(()));
    assert_eq!(jot::domain::verify_password_hash(&salted, &password), Ok(()));
    assert_eq!(jot::domain::verify_password_hash(&first, &other), Err(VerifyError::Mismatch));
}

#[test]
fn a_salt_that_is_refused_is_an_unexpected_error() {
    let password = UserPassWord::parse("testPass123".to_string()).unwrap();
    assert_eq!(compute_password_hash_with_salt(&password, "ab"), Err(HashError::Unexpected));
    assert_eq!(compute_password_hash_with_salt(&password, ""), Err(HashError::Unexpected));
    assert_eq!(
        compute_password_hash_with_salt(&password, &"a".repeat(65)),
        Err(HashError::Unexpected)
    );
}

#[test]
fn a_fresh_hash_is_that_of_its_own_salt() {
    let password = UserPassWord::parse("testPass123".to_string()).unwrap();
    let hash = compute_password_hash(&password).unwrap();
    let salt = hash.split('$').nth(4).unwrap();
    assert_eq!(salt.len(), 22);
    assert_eq!(compute_password_hash_with_salt(&password, salt), Ok(hash.clone()));
}

#[test]
fn an_error_of_the_primitive_is_an_unexpected_error() {
    assert_eq!(hashing_outcome(Ok("$hash".to_string())), Ok("$hash".to_string()));
    assert_eq!(
        hashing_outcome(Err(argon2::password_hash::Error::Password)),
        Err(HashError::Unexpected)
    );
    assert_eq!(
        hashing_outcome(Err(argon2::password_hash::Error::Algorithm)),
        Err(HashError::Unexpected)
    );
}

#[test]
fn a_hash_that_does_not_parse_is_an_unexpected_error() {
    assert_eq!(
        verify_password_hash("plaintext".to_string(), secret("plaintext")),
        Err(AuthError::UnexpectedError)
    );
}

fn stored_for(user_id: u128, password: &str) -> StoredCredentials {
    let password = UserPassWord::parse(password.to_string()).unwrap();
    StoredCredentials { user_id, password_hash: compute_password_hash(&password).unwrap() }
}

fn credentials(email: &str, password: &str) -> Credentials {
    Credentials::from_form(email.to_string(), password.to_string())
}

#[test]
fn known_identifier_with_its_password_validates() {
    let stored = stored_for(42, "jotpass1234");
    let result = validate_credentials(credentials("jot@example.com", "jotpass1234"), Ok(Some(stored)));
    assert_eq!(result, Ok(42));
}

#[test]
fn unknown_identifier_and_wrong_password_are_refused_alike() {
    let unknown = validate_credentials(credentials("unknown@example.com", "SomePass123"), Ok(None));
    let stored = stored_for(42, "jotPass123");
    let wrong =
        validate_credentials(credentials("jot@example.com", "jotWrongPass123"), Ok(Some(stored)));
    assert_eq!(unknown, Err(AuthError::InvalidCredentials));
    assert_eq!(wrong, Err(AuthError::InvalidCredentials));
    assert_eq!(unknown, wrong);
}

#[test]
fn a_failed_lookup_is_an_unexpected_error() {
    let result = validate_credentials(credentials("jot@example.com", "jotpass1234"), Err(StoreError));
    assert_eq!(result, Err(AuthError::UnexpectedError));
}

#[test]
fn a_stored_hash_that_does_not_parse_is_an_unexpected_error() {
    let stored = StoredCredentials { user_id: 1, password_hash: "jotpass1234".to_string() };
    let result = validate_credentials(credentials("jot@example.com", "jotpass1234"), Ok(Some(stored)));
    assert_eq!(result, Err(AuthError::UnexpectedError));
}

#[test]
fn the_dummy_hash_stands_in_for_a_missing_account() {
    let (user_id, hash) = select_expected_hash(None);
    assert_eq!(user_id, None);
    assert_eq!(hash, dummy_hash());
    assert_eq!(
        hash,
        "$argon2id$v=19$m=15000,t=2,p=1$gZiV/M1gPc22ElAH/Jh1Hw$CWOrkoo7oJBQ/iyh7uJ0LO2aLEfrHwTWllSAxT0zRno"
    );
    let (user_id, hash) =
        select_expected_hash(Some(StoredCredentials { user_id: 5, password_hash: "h".to_string() }));
    assert_eq!(user_id, Some(5));
    assert_eq!(hash, "h");
}

#[test]
fn success_takes_an_account_and_a_verified_password() {
    assert_eq!(credential_outcome(Some(3), Ok(())), Ok(3));
    assert_eq!(credential_outcome(None, Ok(())), Err(AuthError::InvalidCredentials));
    assert_eq!(
        credential_outcome(Some(3), Err(AuthError::InvalidCredentials)),
        Err(AuthError::InvalidCredentials)
    );
    assert_eq!(
        credential_outcome(Some(3), Err(AuthError::UnexpectedError)),
        Err(AuthError::UnexpectedError)
    );
    // without an account the answer never tells what the verification gave
    assert_eq!(
        credential_outcome(None, Err(AuthError::UnexpectedError)),
        Err(AuthError::InvalidCredentials)
    );
    assert_eq!(
        credential_outcome(None, Err(AuthError::InvalidCredentials)),
        Err(AuthError::InvalidCredentials)
    );
}

#[test]
fn credentials_carry_the_password_text() {
    let password = UserPassWord::parse("validPass123".to_string()).unwrap();
    let made = Credentials::new("jot@example.com".to_string(), password.clone());
    assert_eq!(made.email, "jot@example.com");
    assert!(!format!("{:?}", made.password).contains("validPass123"));
    assert!(!format!("{:?}", password).contains("validPass123"));
    let stored = StoredCredentials {
        user_id: 6,
        password_hash: compute_password_hash(&password).unwrap(),
    };
    assert_eq!(validate_credentials(made, Ok(Some(stored))), Ok(6));
}

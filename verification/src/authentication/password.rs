//! Credential validation that does the same work whether or not the account
//! exists: a lookup that finds nothing is verified against a fixed hash that
//! stands in for the missing one.

use crate::domain::secret::SecretText;
use crate::domain::user_password::{
    argon2_verifies, password_matches, phc_parses, phc_well_formed, UserPassWord,
};
use vstd::prelude::*;

verus! {

/// Why a login was refused.
#[derive(Clone, Copy, Debug, PartialEq, Eq, Structural)]
pub enum AuthError {
    /// Unknown identifier or wrong password; which of the two is not told.
    InvalidCredentials,
    /// The store or the hashing primitive failed.
    UnexpectedError,
}

/// The credential store did not answer the lookup.
#[derive(Clone, Copy, Debug, PartialEq, Eq, Structural)]
pub struct StoreError;

/// What a client presents to log in.
pub struct Credentials {
    pub email: String,
    pub password: SecretText,
}

/// What the credential store holds for one account.
pub struct StoredCredentials {
    pub user_id: u128,
    pub password_hash: String,
}

impl Credentials {
    pub fn new(email: String, password: UserPassWord) -> (credentials: Credentials)
        ensures
            credentials.email@ == email@,
            credentials.password@ == password@,
    {
        Credentials { email, password: SecretText::new(password.expose_secret().to_owned()) }
    }

    /// The credentials of a login form, whose password is taken as it is.
    pub fn from_form(email: String, password: String) -> (credentials: Credentials)
        ensures
            credentials.email@ == email@,
            credentials.password@ == password@,
    {
        Credentials { email, password: SecretText::new(password) }
    }
}

/// The PHC string that is verified against when the identifier is unknown.
pub open spec fn dummy_hash_text() -> Seq<char> {
    "$argon2id$v=19$m=15000,t=2,p=1$gZiV/M1gPc22ElAH/Jh1Hw$CWOrkoo7oJBQ/iyh7uJ0LO2aLEfrHwTWllSAxT0zRno"@
}

pub fn dummy_hash() -> (hash: String)
    ensures
        hash@ == dummy_hash_text(),
{
    "$argon2id$v=19$m=15000,t=2,p=1$gZiV/M1gPc22ElAH/Jh1Hw$CWOrkoo7oJBQ/iyh7uJ0LO2aLEfrHwTWllSAxT0zRno".to_owned()
}

/// The hash a candidate is verified against: the stored one, or the dummy
/// where the lookup found no account.
pub open spec fn expected_hash(stored: Option<StoredCredentials>) -> Seq<char> {
    match stored {
        Some(found) => found.password_hash@,
        None => dummy_hash_text(),
    }
}

/// The account a lookup found, if any.
pub open spec fn found_user(stored: Option<StoredCredentials>) -> Option<u128> {
    match stored {
        Some(found) => Some(found.user_id),
        None => None,
    }
}

/// The result of verifying `candidate` against `hash`: a hash that does not
/// parse is an unexpected error, a digest that differs is a refusal.
pub open spec fn check_outcome(hash: Seq<char>, candidate: Seq<char>) -> Result<(), AuthError> {
    if !phc_well_formed(hash) {
        Err(AuthError::UnexpectedError)
    } else if password_matches(hash, candidate) {
        Ok(())
    } else {
        Err(AuthError::InvalidCredentials)
    }
}

/// The result of a validation, from the account found and the result of the
/// verification: success takes both an account and a verified password, and
/// without an account the credentials are invalid whatever the verification
/// gave.
pub open spec fn outcome_of(user_id: Option<u128>, check: Result<(), AuthError>) -> Result<
    u128,
    AuthError,
> {
    match user_id {
        None => Err(AuthError::InvalidCredentials),
        Some(id) => match check {
            Ok(()) => Ok(id),
            Err(e) => Err(e),
        },
    }
}

/// The result of validating `candidate` given what the lookup returned.
pub open spec fn validation_outcome(
    lookup: Result<Option<StoredCredentials>, StoreError>,
    candidate: Seq<char>,
) -> Result<u128, AuthError> {
    match lookup {
        Err(_) => Err(AuthError::UnexpectedError),
        Ok(stored) => outcome_of(
            found_user(stored),
            check_outcome(expected_hash(stored), candidate),
        ),
    }
}

/// Verifies a candidate against a PHC string.
pub fn verify_password_hash(expected_password_hash: String, password_candidate: SecretText) -> (r:
    Result<(), AuthError>)
    ensures
        r == check_outcome(expected_password_hash@, password_candidate@),
{
    if !phc_parses(expected_password_hash.as_str()) {
        return Err(AuthError::UnexpectedError);
    }
    if argon2_verifies(expected_password_hash.as_str(), password_candidate.expose_secret()) {
        Ok(())
    } else {
        Err(AuthError::InvalidCredentials)
    }
}

/// Splits what the lookup returned into the account found and the hash to
/// verify against.
pub fn select_expected_hash(stored: Option<StoredCredentials>) -> (selected: (Option<u128>, String))
    ensures
        selected.0 == found_user(stored),
        selected.1@ == expected_hash(stored),
{
    match stored {
        Some(found) => (Some(found.user_id), found.password_hash),
        None => (None, dummy_hash()),
    }
}

/// Decides a validation once the verification has run.
pub fn credential_outcome(user_id: Option<u128>, check: Result<(), AuthError>) -> (r: Result<
    u128,
    AuthError,
>)
    ensures
        r == outcome_of(user_id, check),
{
    match user_id {
        None => Err(AuthError::InvalidCredentials),
        Some(id) => match check {
            Ok(()) => Ok(id),
            Err(e) => Err(e),
        },
    }
}

/// Validates credentials against what the credential store returned for
/// their identifier. The candidate is verified whether or not an account was
/// found; only a failed lookup ends the validation before that.
pub fn validate_credentials(
    credentials: Credentials,
    lookup: Result<Option<StoredCredentials>, StoreError>,
) -> (r: Result<u128, AuthError>)
    ensures
        r == validation_outcome(lookup, credentials.password@),
{
    let stored = match lookup {
        Ok(stored) => stored,
        Err(_) => {
            return Err(AuthError::UnexpectedError);
        },
    };
    let (user_id, expected_password_hash) = select_expected_hash(stored);
    let check = verify_password_hash(expected_password_hash, credentials.password);
    credential_outcome(user_id, check)
}

/// An unknown identifier is refused as invalid credentials, whatever the
/// password.
pub proof fn lemma_unknown_identifier_rejected(candidate: Seq<char>)
    ensures
        validation_outcome(Ok(None), candidate) == Err::<u128, AuthError>(
            AuthError::InvalidCredentials,
        ),
{
}

/// A known identifier with a password that does not match its stored hash is
/// refused as invalid credentials.
pub proof fn lemma_wrong_password_rejected(stored: StoredCredentials, candidate: Seq<char>)
    requires
        phc_well_formed(stored.password_hash@),
        !password_matches(stored.password_hash@, candidate),
    ensures
        validation_outcome(Ok(Some(stored)), candidate) == Err::<u128, AuthError>(
            AuthError::InvalidCredentials,
        ),
{
}

/// The refusal of an unknown identifier and the refusal of a wrong password
/// are one and the same value.
pub proof fn lemma_refusals_alike(
    stored: StoredCredentials,
    wrong: Seq<char>,
    candidate: Seq<char>,
)
    requires
        phc_well_formed(stored.password_hash@),
        !password_matches(stored.password_hash@, wrong),
    ensures
        validation_outcome(Ok(None), candidate) == validation_outcome(Ok(Some(stored)), wrong),
{
}

/// A validation succeeds exactly when the lookup found an account whose
/// stored hash parses and matches the candidate; the result is that
/// account.
pub proof fn lemma_success_takes_account_and_match(
    lookup: Result<Option<StoredCredentials>, StoreError>,
    candidate: Seq<char>,
)
    ensures
        validation_outcome(lookup, candidate) is Ok <==> (lookup matches Ok(Some(found))
            && phc_well_formed(found.password_hash@) && password_matches(
            found.password_hash@,
            candidate,
        )),
        validation_outcome(lookup, candidate) matches Ok(id) ==> (lookup matches Ok(Some(found))
            && found.user_id == id),
{
}

} // verus!

use crate::domain::secret::SecretText;
use crate::domain::text::byte_len;
use argon2::password_hash::SaltString;
use argon2::{Argon2, PasswordHash, PasswordHasher, PasswordVerifier};
use vstd::prelude::*;

verus! {

/// `password_hash::Error`, the error of the hashing primitive, carried as it
/// is.
#[verifier::external_type_specification]
#[verifier::external_body]
pub struct ExPasswordHashError(argon2::password_hash::Error);

/// Whether a text parses as a password hash in the PHC string format.
pub uninterp spec fn phc_well_formed(hash: Seq<char>) -> bool;

/// Whether hashing `candidate` under the algorithm, parameters and salt that
/// the PHC string `hash` embeds gives the digest that `hash` embeds.
pub uninterp spec fn password_matches(hash: Seq<char>, candidate: Seq<char>) -> bool;

/// `PasswordHash::new`: the result is whether the text parses as a PHC
/// string.
#[verifier::external_body]
pub(crate) fn phc_parses(hash: &str) -> (b: bool)
    ensures
        b == phc_well_formed(hash@),
{
    PasswordHash::new(hash).is_ok()
}

/// `PasswordVerifier::verify_password` of the default `Argon2`, on a PHC
/// string that parses: the result is whether the candidate's digest, computed
/// under what the string embeds, equals the embedded digest. Every error of
/// the call counts as no match.
#[verifier::external_body]
pub(crate) fn argon2_verifies(hash: &str, candidate: &str) -> (b: bool)
    requires
        phc_well_formed(hash@),
    ensures
        b == password_matches(hash@, candidate@),
{
    let parsed = PasswordHash::new(hash).expect("a PHC string that parses");
    Argon2::default().verify_password(candidate.as_bytes(), &parsed).is_ok()
}

/// The PHC string that the default Argon2 derives from a password under a
/// salt given in B64; `None` where the salt is refused or the derivation
/// fails.
pub uninterp spec fn argon2_phc(password: Seq<char>, salt: Seq<char>) -> Option<Seq<char>>;

/// `SaltString::generate` on the thread's random generator, written out by
/// `SaltString::as_str`: a fresh salt in B64. Nothing is claimed of the
/// value.
#[verifier::external_body]
pub(crate) fn fresh_salt() -> (salt: String) {
    SaltString::generate(&mut rand::thread_rng()).as_str().to_owned()
}

/// `PasswordHasher::hash_password` of the default `Argon2`, under the salt
/// that `SaltString::from_b64` reads from the text, written out as a PHC
/// string. The string is determined by the password and the salt; one that
/// comes out parses and matches the password it was made from. An error of
/// either call is handed on.
#[verifier::external_body]
pub(crate) fn argon2_hash_with(password: &str, salt: &str) -> (r: Result<
    String,
    argon2::password_hash::Error,
>)
    ensures
        match r {
            Ok(hash) => argon2_phc(password@, salt@) == Some(hash@),
            Err(_) => argon2_phc(password@, salt@) is None,
        },
        r matches Ok(hash) ==> phc_well_formed(hash@) && password_matches(hash@, password@),
{
    let salt = match SaltString::from_b64(salt) {
        Ok(salt) => salt,
        Err(error) => return Err(error),
    };
    match Argon2::default().hash_password(password.as_bytes(), &salt) {
        Ok(hash) => Ok(hash.to_string()),
        Err(error) => Err(error),
    }
}

/// A password that meets the policy: 8 to 128 bytes, with at least one ASCII
/// digit and one ASCII letter.
#[derive(Debug)]
pub struct UserPassWord(SecretText);

impl View for UserPassWord {
    type V = Seq<char>;

    closed spec fn view(&self) -> Seq<char> {
        self.0@
    }
}

impl Clone for UserPassWord {
    fn clone(&self) -> (copy: UserPassWord)
        ensures
            copy@ == self@,
    {
        UserPassWord(self.0.duplicate())
    }
}

pub open spec fn ascii_digit(c: char) -> bool {
    '0' <= c <= '9'
}

pub open spec fn ascii_letter(c: char) -> bool {
    'a' <= c <= 'z' || 'A' <= c <= 'Z'
}

pub open spec fn has_digit(s: Seq<char>) -> bool {
    exists|i: int| 0 <= i < s.len() && ascii_digit(#[trigger] s[i])
}

pub open spec fn has_letter(s: Seq<char>) -> bool {
    exists|i: int| 0 <= i < s.len() && ascii_letter(#[trigger] s[i])
}

/// Why a text is refused as a password, if it is. The first rule broken
/// decides.
pub open spec fn user_password_error(s: Seq<char>) -> Option<Seq<char>> {
    if byte_len(s) < 8 {
        Some("Password must be atleast 8 characters long"@)
    } else if byte_len(s) > 128 {
        Some("Password must be at most 128 characters long"@)
    } else if !has_digit(s) {
        Some("Password must contain at least one digit"@)
    } else if !has_letter(s) {
        Some("Password must contain at least one letter"@)
    } else {
        None
    }
}

/// Whether a text meets the password policy.
pub open spec fn meets_policy(s: Seq<char>) -> bool {
    user_password_error(s) is None
}

fn contains_digit(s: &str) -> (b: bool)
    ensures
        b == has_digit(s@),
{
    let n: usize = s.unicode_len();
    let mut i: usize = 0;
    while i < n
        invariant
            0 <= i <= n,
            n == s@.len(),
            forall|j: int| 0 <= j < i ==> !ascii_digit(#[trigger] s@[j]),
        decreases n - i,
    {
        let c = s.get_char(i);
        if '0' <= c && c <= '9' {
            return true;
        }
        i += 1;
    }
    false
}

fn contains_letter(s: &str) -> (b: bool)
    ensures
        b == has_letter(s@),
{
    let n: usize = s.unicode_len();
    let mut i: usize = 0;
    while i < n
        invariant
            0 <= i <= n,
            n == s@.len(),
            forall|j: int| 0 <= j < i ==> !ascii_letter(#[trigger] s@[j]),
        decreases n - i,
    {
        let c = s.get_char(i);
        if ('a' <= c && c <= 'z') || ('A' <= c && c <= 'Z') {
            return true;
        }
        i += 1;
    }
    false
}

impl UserPassWord {
    pub fn parse(s: String) -> (r: Result<UserPassWord, String>)
        ensures
            match r {
                Ok(password) => meets_policy(s@) && password@ == s@,
                Err(reason) => user_password_error(s@) == Some(reason@),
            },
    {
        let length: usize = s.as_str().as_bytes().len();
        if length < 8 {
            return Err("Password must be atleast 8 characters long".to_owned());
        }
        if length > 128 {
            return Err("Password must be at most 128 characters long".to_owned());
        }
        if !contains_digit(s.as_str()) {
            return Err("Password must contain at least one digit".to_owned());
        }
        if !contains_letter(s.as_str()) {
            return Err("Password must contain at least one letter".to_owned());
        }
        Ok(UserPassWord(SecretText::new(s)))
    }

    pub fn expose_secret(&self) -> (s: &str)
        ensures
            s@ == self@,
    {
        self.0.expose_secret()
    }
}

/// Why the hashing of a password failed.
#[derive(Clone, Copy, Debug, PartialEq, Eq, Structural)]
pub enum HashError {
    /// The hashing primitive reported an error.
    Unexpected,
}

/// Why a candidate was not verified against a stored hash.
#[derive(Clone, Copy, Debug, PartialEq, Eq, Structural)]
pub enum VerifyError {
    /// The candidate's digest differs from the stored one.
    Mismatch,
    /// The stored text is no PHC string.
    MalformedHash,
}

/// The result of verifying `candidate` against `hash`.
pub open spec fn verify_outcome(hash: Seq<char>, candidate: Seq<char>) -> Result<(), VerifyError> {
    if !phc_well_formed(hash) {
        Err(VerifyError::MalformedHash)
    } else if password_matches(hash, candidate) {
        Ok(())
    } else {
        Err(VerifyError::Mismatch)
    }
}

/// The verdict on a stored hash of which it is known whether it parsed and,
/// if it did, whether the candidate matched it.
pub fn verdict(parsed: bool, matched: bool) -> (r: Result<(), VerifyError>)
    ensures
        r == if !parsed {
            Err::<(), VerifyError>(VerifyError::MalformedHash)
        } else if matched {
            Ok::<(), VerifyError>(())
        } else {
            Err::<(), VerifyError>(VerifyError::Mismatch)
        },
{
    if !parsed {
        Err(VerifyError::MalformedHash)
    } else if matched {
        Ok(())
    } else {
        Err(VerifyError::Mismatch)
    }
}

/// What a hashing returns for what the primitive gave: the hash, or an
/// unexpected error whatever the primitive's error was.
pub fn hashing_outcome(result: Result<String, argon2::password_hash::Error>) -> (r: Result<
    String,
    HashError,
>)
    ensures
        match result {
            Ok(hash) => r == Ok::<String, HashError>(hash),
            Err(_) => r == Err::<String, HashError>(HashError::Unexpected),
        },
{
    match result {
        Ok(hash) => Ok(hash),
        Err(_) => Err(HashError::Unexpected),
    }
}

/// The result of hashing a password under a salt: the PHC string that
/// Argon2 derives from the two, or an unexpected error where it derives
/// none.
pub open spec fn hash_under(password: Seq<char>, salt: Seq<char>) -> Result<Seq<char>, HashError> {
    match argon2_phc(password, salt) {
        Some(hash) => Ok(hash),
        None => Err(HashError::Unexpected),
    }
}

/// The text of a hashing's result.
pub open spec fn hashed_text(r: Result<String, HashError>) -> Result<Seq<char>, HashError> {
    match r {
        Ok(hash) => Ok(hash@),
        Err(error) => Err(error),
    }
}

/// Hashes a password under the salt given in B64. The result is determined
/// by the two, and a hash that comes out verifies against the password.
pub fn compute_password_hash_with_salt(password: &UserPassWord, salt: &str) -> (r: Result<
    String,
    HashError,
>)
    ensures
        hashed_text(r) == hash_under(password@, salt@),
        r matches Ok(hash) ==> verify_outcome(hash@, password@) == Ok::<(), VerifyError>(()),
{
    hashing_outcome(argon2_hash_with(password.expose_secret(), salt))
}

/// Hashes a password under a fresh random salt: the result is that of
/// hashing it under some salt. A hash that comes out verifies against the
/// password it was made from.
pub fn compute_password_hash(password: &UserPassWord) -> (r: Result<String, HashError>)
    ensures
        exists|salt: Seq<char>| #[trigger] hash_under(password@, salt) == hashed_text(r),
        r matches Ok(hash) ==> verify_outcome(hash@, password@) == Ok::<(), VerifyError>(()),
{
    let salt = fresh_salt();
    let r = compute_password_hash_with_salt(password, salt.as_str());
    proof {
        assert(hash_under(password@, salt@) == hashed_text(r));
    }
    r
}

/// Verifies a candidate against a stored PHC string.
pub fn verify_password_hash(expected_password_hash: &str, password_candidate: &UserPassWord) -> (r:
    Result<(), VerifyError>)
    ensures
        r == verify_outcome(expected_password_hash@, password_candidate@),
{
    if !phc_parses(expected_password_hash) {
        return verdict(false, false);
    }
    let matched = argon2_verifies(expected_password_hash, password_candidate.expose_secret());
    verdict(true, matched)
}

} // verus!

use crate::domain::user::{new_user_error, NewUser};
use crate::domain::user_password::{compute_password_hash, verify_outcome, VerifyError};
use vstd::prelude::*;

verus! {

pub struct RegistrationData {
    pub email: String,
    pub password: String,
}

pub struct RegistrationResponse {
    pub user_id: u128,
    pub email: String,
}

#[derive(Clone, Debug)]
pub enum RegistrationError {
    ValidationError(String),
    EmailArealdyExists,
    UnexpectedError,
}

impl RegistrationError {
    pub fn status_code(&self) -> (code: u16)
        ensures
            code == match self {
                RegistrationError::ValidationError(_) => 400u16,
                RegistrationError::EmailArealdyExists => 409u16,
                RegistrationError::UnexpectedError => 500u16,
            },
    {
        match self {
            RegistrationError::ValidationError(_) => 400,
            RegistrationError::EmailArealdyExists => 409,
            RegistrationError::UnexpectedError => 500,
        }
    }
}

/// What is stored for a new user.
pub struct NewUserRow {
    pub email: String,
    pub password_hash: String,
}

/// Validates a registration and hashes its password. A form that breaks a
/// rule is refused with that rule; a row that comes out holds the form's
/// e-mail address and a hash that verifies against the form's password.
pub fn register(form: RegistrationData) -> (r: Result<NewUserRow, RegistrationError>)
    ensures
        match new_user_error(form.email@, form.password@) {
            Some(reason) => r matches Err(RegistrationError::ValidationError(text)) && text@
                == reason,
            None => match r {
                Ok(row) => row.email@ == form.email@ && verify_outcome(
                    row.password_hash@,
                    form.password@,
                ) == Ok::<(), VerifyError>(()),
                Err(error) => error matches RegistrationError::UnexpectedError,
            },
        },
{
    let new_user = match NewUser::parse(form.email, form.password) {
        Ok(new_user) => new_user,
        Err(reason) => {
            return Err(RegistrationError::ValidationError(reason));
        },
    };
    match compute_password_hash(&new_user.password) {
        Ok(password_hash) => Ok(NewUserRow { email: new_user.email.to_string(), password_hash }),
        Err(_) => Err(RegistrationError::UnexpectedError),
    }
}

/// The error for a user that the store refused to insert: the e-mail address
/// is taken where the refusal was a violated uniqueness rule.
pub fn insert_user_error(unique_violation: bool) -> (error: RegistrationError)
    ensures
        unique_violation ==> error matches RegistrationError::EmailArealdyExists,
        !unique_violation ==> error matches RegistrationError::UnexpectedError,
{
    if unique_violation {
        RegistrationError::EmailArealdyExists
    } else {
        RegistrationError::UnexpectedError
    }
}

} // verus!

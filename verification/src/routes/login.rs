use crate::authentication::password::{
    validate_credentials, validation_outcome, AuthError, Credentials, StoreError,
    StoredCredentials,
};
use crate::authentication::session::{login_actions, SessionAction, TypedSession};
use vstd::prelude::*;

verus! {

pub struct LoginForm {
    pub email: String,
    pub password: String,
}

/// Why a login request failed.
#[derive(Clone, Copy, Debug, PartialEq, Eq, Structural)]
pub enum LoginError {
    /// The credentials were refused.
    AuthError,
    /// Something else went wrong.
    UnexpectedError,
}

/// The HTTP status that answers each login error.
pub open spec fn login_status(error: LoginError) -> u16 {
    match error {
        LoginError::AuthError => 401,
        LoginError::UnexpectedError => 500,
    }
}

/// The login error that a validation error becomes.
pub open spec fn login_error_of(error: AuthError) -> LoginError {
    match error {
        AuthError::InvalidCredentials => LoginError::AuthError,
        AuthError::UnexpectedError => LoginError::UnexpectedError,
    }
}

impl LoginError {
    pub fn status_code(&self) -> (code: u16)
        ensures
            code == login_status(*self),
    {
        match self {
            LoginError::AuthError => 401,
            LoginError::UnexpectedError => 500,
        }
    }

    pub fn from_auth_error(error: AuthError) -> (r: LoginError)
        ensures
            r == login_error_of(error),
    {
        match error {
            AuthError::InvalidCredentials => LoginError::AuthError,
            AuthError::UnexpectedError => LoginError::UnexpectedError,
        }
    }
}

/// The body of the answer to a successful login.
pub struct LoginResponse {
    pub message: String,
    pub user_id: u128,
}

/// Handles a login request, given what the credential store returned for the
/// form's e-mail address. On success the session is renewed first and bound
/// to the user second; on failure it is left as it was.
pub fn login(
    form: LoginForm,
    lookup: Result<Option<StoredCredentials>, StoreError>,
    session: &mut TypedSession,
) -> (r: Result<LoginResponse, LoginError>)
    ensures
        match validation_outcome(lookup, form.password@) {
            Ok(user_id) => {
                &&& r matches Ok(response)
                &&& response.user_id == user_id
                &&& response.message@ == "Login successful"@
                &&& final(session).user_id() == Some(user_id)
                &&& final(session).actions() == old(session).actions() + login_actions(user_id)
            },
            Err(error) => {
                &&& r matches Err(e)
                &&& e == login_error_of(error)
                &&& final(session).user_id() == old(session).user_id()
                &&& final(session).actions() == old(session).actions()
            },
        },
{
    let credentials = Credentials::from_form(form.email, form.password);
    let user_id = match validate_credentials(credentials, lookup) {
        Ok(user_id) => user_id,
        Err(error) => {
            return Err(LoginError::from_auth_error(error));
        },
    };
    session.renew();
    session.insert_user_id(user_id);
    proof {
        assert(old(session).actions().push(SessionAction::Renew).push(
            SessionAction::InsertUserId(user_id),
        ) =~= old(session).actions() + login_actions(user_id));
    }
    Ok(LoginResponse { message: "Login successful".to_owned(), user_id })
}

/// The lines that name the causes of an error, outermost first.
pub open spec fn causes_text(causes: Seq<String>) -> Seq<char>
    decreases causes.len(),
{
    if causes.len() == 0 {
        Seq::empty()
    } else {
        causes_text(causes.drop_last()) + "Caused by:\n\t"@ + causes.last()@ + "\n"@
    }
}

/// An error written out with its chain of causes: the message, an empty
/// line, then one "Caused by:" entry for each cause.
pub open spec fn error_chain_text(message: Seq<char>, causes: Seq<String>) -> Seq<char> {
    message + "\n\n"@ + causes_text(causes)
}

pub fn error_chain_fmt(message: &str, causes: &Vec<String>) -> (text: String)
    ensures
        text@ == error_chain_text(message@, causes@),
{
    let mut text = message.to_owned();
    text.append("\n\n");
    let mut i: usize = 0;
    while i < causes.len()
        invariant
            0 <= i <= causes.len(),
            text@ == message@ + "\n\n"@ + causes_text(causes@.take(i as int)),
        decreases causes.len() - i,
    {
        proof {
            assert(causes@.take(i + 1).drop_last() =~= causes@.take(i as int));
            assert(causes@.take(i + 1).last() == causes@[i as int]);
        }
        text.append("Caused by:\n\t");
        text.append(causes[i].as_str());
        text.append("\n");
        i += 1;
    }
    proof {
        assert(causes@.take(i as int) =~= causes@);
    }
    text
}

} // verus!

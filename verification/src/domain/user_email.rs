use crate::domain::text::{all_white_space, is_blank};
use validator::ValidateEmail;
use vstd::prelude::*;

verus! {

/// Whether a text has the shape of an e-mail address, as the HTML5 rule for
/// e-mail input judges it.
pub uninterp spec fn email_shape(s: Seq<char>) -> bool;

/// `ValidateEmail::validate_email` on a string: the result is whether the
/// text has the shape of an e-mail address. A text that passes is not empty
/// and holds an `@`.
#[verifier::external_body]
fn is_valid_email(s: &str) -> (b: bool)
    ensures
        b == email_shape(s@),
        b ==> s@.len() > 0 && s@.contains('@'),
{
    s.validate_email()
}

/// The message for a text that is no e-mail address: the text in single
/// quotes, then the complaint.
fn invalid_email_message(s: &str) -> (message: String)
    ensures
        message@ == "'"@ + s@ + "' is not a valid email address"@,
{
    let mut message = "'".to_owned();
    message.append(s);
    message.append("' is not a valid email address");
    message
}

/// An e-mail address that passed validation.
#[derive(Debug, Clone)]
pub struct UserEmail(String);

impl View for UserEmail {
    type V = Seq<char>;

    closed spec fn view(&self) -> Seq<char> {
        self.0@
    }
}

/// Why a text is refused as an e-mail address, if it is.
pub open spec fn user_email_error(s: Seq<char>) -> Option<Seq<char>> {
    if all_white_space(s) {
        Some("Email cannot be empty"@)
    } else if !email_shape(s) {
        Some("'"@ + s + "' is not a valid email address"@)
    } else {
        None
    }
}

impl UserEmail {
    pub fn parse(s: String) -> (r: Result<UserEmail, String>)
        ensures
            match r {
                Ok(email) => {
                    &&& user_email_error(s@) is None
                    &&& email@ == s@
                    &&& email@.contains('@')
                },
                Err(reason) => user_email_error(s@) == Some(reason@),
            },
    {
        if is_blank(s.as_str()) {
            return Err("Email cannot be empty".to_owned());
        }
        if !is_valid_email(s.as_str()) {
            return Err(invalid_email_message(s.as_str()));
        }
        Ok(UserEmail(s))
    }

    pub fn as_ref(&self) -> (s: &str)
        ensures
            s@ == self@,
    {
        self.0.as_str()
    }

    pub fn to_string(&self) -> (s: String)
        ensures
            s@ == self@,
    {
        self.0.clone()
    }

    pub(crate) fn duplicate(&self) -> (copy: UserEmail)
        ensures
            copy@ == self@,
    {
        UserEmail(self.0.clone())
    }
}

} // verus!

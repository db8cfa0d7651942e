use crate::domain::user_email::{user_email_error, UserEmail};
use crate::domain::user_password::{user_password_error, UserPassWord};
use vstd::prelude::*;

verus! {

/// A registration that passed validation.
#[derive(Debug)]
pub struct NewUser {
    pub email: UserEmail,
    pub password: UserPassWord,
}

/// Why an e-mail address and a password are refused as a registration, if
/// they are: the address is judged first.
pub open spec fn new_user_error(email: Seq<char>, password: Seq<char>) -> Option<Seq<char>> {
    if user_email_error(email) is Some {
        user_email_error(email)
    } else {
        user_password_error(password)
    }
}

impl Clone for NewUser {
    fn clone(&self) -> (copy: NewUser)
        ensures
            copy.email@ == self.email@,
            copy.password@ == self.password@,
    {
        NewUser { email: self.email.duplicate(), password: self.password.clone() }
    }
}

impl NewUser {
    pub fn parse(email: String, password: String) -> (r: Result<NewUser, String>)
        ensures
            match r {
                Ok(user) => {
                    &&& new_user_error(email@, password@) is None
                    &&& user.email@ == email@
                    &&& user.password@ == password@
                },
                Err(reason) => new_user_error(email@, password@) == Some(reason@),
            },
    {
        let email = match UserEmail::parse(email) {
            Ok(email) => email,
            Err(reason) => {
                return Err(reason);
            },
        };
        let password = match UserPassWord::parse(password) {
            Ok(password) => password,
            Err(reason) => {
                return Err(reason);
            },
        };
        Ok(NewUser { email, password })
    }
}

} // verus!

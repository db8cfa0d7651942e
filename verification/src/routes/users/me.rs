use crate::domain::text::{uuid_text, uuid_to_text};
use vstd::prelude::*;

verus! {

pub struct UserResponse {
    pub user_id: String,
    pub email: String,
}

/// The answer that describes the authenticated user, from the row that the
/// store holds for them.
pub fn get_user_details(user_id: u128, email: String) -> (response: UserResponse)
    ensures
        response.user_id@ == uuid_text(user_id),
        response.email@ == email@,
{
    UserResponse { user_id: uuid_to_text(user_id), email }
}

} // verus!

use crate::authentication::session::{logout_actions, SessionAction, TypedSession};
use vstd::prelude::*;

verus! {

/// The body of the answer to a logout.
pub struct LogoutResponse {
    pub message: String,
}

/// Handles a logout request: the session is invalidated in the store, not
/// only forgotten by the client.
pub fn logout(session: &mut TypedSession) -> (response: LogoutResponse)
    ensures
        response.message@ == "Logout successful"@,
        final(session).user_id() == None::<u128>,
        final(session).actions() == old(session).actions() + logout_actions(),
{
    session.log_out();
    proof {
        assert(old(session).actions().push(SessionAction::Purge) =~= old(session).actions()
            + logout_actions());
    }
    LogoutResponse { message: "Logout successful".to_owned() }
}

} // verus!

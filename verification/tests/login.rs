use jot::authentication::{
    AuthenticatedUser, GateError, SessionAction, StoreError, StoredCredentials, TypedSession,
};
use jot::domain::{compute_password_hash, UserPassWord};
use jot::routes::{error_chain_fmt, login, logout, LoginError, LoginForm};

fn stored_for(user_id: u128, password: &str) -> StoredCredentials {
    let password = UserPassWord::parse(password.to_string()).unwrap();
    StoredCredentials { user_id, password_hash: compute_password_hash(&password).unwrap() }
}

fn form(email: &str, password: &str) -> LoginForm {
    LoginForm { email: email.to_string(), password: password.to_string() }
}

#[test]
fn login_with_valid_credentials_succeeds() {
    let stored = stored_for(11, "jotpass1234");
    let mut session = TypedSession::new(None);

    let response = login(form("jot@example.com", "jotpass1234"), Ok(Some(stored)), &mut session);

    let body = response.ok().unwrap();
    assert_eq!(body.message, "Login successful");
    assert_eq!(body.user_id, 11);
    assert_eq!(session.get_user_id(), Some(11));
}

#[test]
fn login_with_wrong_password_fails() {
    let stored = stored_for(11, "jotPass123");
    let mut session = TypedSession::new(None);

    let response =
        login(form("jot@example.com", "jotWrongPass123"), Ok(Some(stored)), &mut session);

    let error = response.err().unwrap();
    assert_eq!(error, LoginError::AuthError);
    assert_eq!(error.status_code(), 401);
    assert_eq!(session.get_user_id(), None);
    assert!(session.into_actions().is_empty());
}

#[test]
fn login_with_unknown_email_fails() {
    let mut session = TypedSession::new(None);

    let response = login(form("unknown@example.com", "SomePass123"), Ok(None), &mut session);

    let error = response.err().unwrap();
    assert_eq!(error, LoginError::AuthError);
    assert_eq!(error.status_code(), 401);
    assert!(session.into_actions().is_empty());
}

#[test]
fn login_with_a_failed_lookup_is_a_server_error() {
    let mut session = TypedSession::new(Some(3));

    let response = login(form("jot@example.com", "jotpass1234"), Err(StoreError), &mut session);

    let error = response.err().unwrap();
    assert_eq!(error, LoginError::UnexpectedError);
    assert_eq!(error.status_code(), 500);
    assert_eq!(session.get_user_id(), Some(3));
}

#[test]
fn session_persists_across_requests() {
    let stored = stored_for(11, "ValidPass123");
    let mut session = TypedSession::new(None);
    assert!(login(form("user@example.com", "ValidPass123"), Ok(Some(stored)), &mut session).is_ok());

    // the next request of the session resolves to what the login stored
    let next = TypedSession::new(session.get_user_id());
    assert_eq!(AuthenticatedUser::from_session(&next), Ok(AuthenticatedUser { user_id: 11 }));
}

#[test]
fn logout_invalidates_session() {
    let stored = stored_for(11, "ValidPass123");
    let mut session = TypedSession::new(None);
    assert!(login(form("user@example.com", "ValidPass123"), Ok(Some(stored)), &mut session).is_ok());
    assert!(AuthenticatedUser::from_session(&session).is_ok());

    let response = logout(&mut session);

    assert_eq!(response.message, "Logout successful");
    assert_eq!(AuthenticatedUser::from_session(&session), Err(GateError::Unauthenticated));
    assert_eq!(
        session.into_actions(),
        vec![SessionAction::Renew, SessionAction::InsertUserId(11), SessionAction::Purge]
    );
}

#[test]
fn protected_endpoint_requires_authentication() {
    let session = TypedSession::new(None);
    assert_eq!(AuthenticatedUser::from_session(&session), Err(GateError::Unauthenticated));
}

#[test]
fn multiple_users_can_login_independently() {
    let first = stored_for(1, "Password123");
    let second = stored_for(2, "Password456");
    let mut session1 = TypedSession::new(None);
    let mut session2 = TypedSession::new(None);

    assert!(login(form("user1@example.com", "Password123"), Ok(Some(first)), &mut session1).is_ok());
    assert!(login(form("user2@example.com", "Password456"), Ok(Some(second)), &mut session2).is_ok());

    assert_eq!(session1.get_user_id(), Some(1));
    assert_eq!(session2.get_user_id(), Some(2));
}

#[test]
fn session_is_renewed_on_login() {
    let stored = stored_for(11, "ValidPass123");
    // a session that was bound to another user before the login
    let mut session = TypedSession::new(Some(4));

    assert!(login(form("user@example.com", "ValidPass123"), Ok(Some(stored)), &mut session).is_ok());

    // the renewal comes before the user is stored
    assert_eq!(
        session.into_actions(),
        vec![SessionAction::Renew, SessionAction::InsertUserId(11)]
    );
}

#[test]
fn session_records_actions_in_order() {
    let mut session = TypedSession::new(Some(1));
    session.renew();
    assert_eq!(session.get_user_id(), Some(1));
    session.insert_user_id(2);
    assert_eq!(session.get_user_id(), Some(2));
    session.log_out();
    assert_eq!(session.get_user_id(), None);
    assert_eq!(
        session.into_actions(),
        vec![SessionAction::Renew, SessionAction::InsertUserId(2), SessionAction::Purge]
    );
}

#[test]
fn error_chain_lists_each_cause() {
    assert_eq!(error_chain_fmt("Something went wrong", &vec![]), "Something went wrong\n\n");
    assert_eq!(
        error_chain_fmt(
            "Invalid credentials.",
            &vec!["Invalid password".to_string(), "password mismatch".to_string()]
        ),
        "Invalid credentials.\n\nCaused by:\n\tInvalid password\nCaused by:\n\tpassword mismatch\n"
    );
}

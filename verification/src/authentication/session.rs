//! What stands between a request's session and the protected handlers.
//!
//! A handler never talks to the session store. It reads the principal that
//! the store holds for the request's token, and records what the store is to
//! do once the request is answered: rotate the token, bind a principal to it,
//! or invalidate it.

use vstd::prelude::*;

verus! {

/// What a handler asks of the session store.
#[derive(Clone, Copy, Debug, PartialEq, Eq, Structural)]
pub enum SessionAction {
    /// Issue a fresh token for the session and retire the old one.
    Renew,
    /// Bind the principal to the session's token.
    InsertUserId(u128),
    /// Invalidate the session's token in the store.
    Purge,
}

/// A protected operation was asked for without a session that resolves to a
/// principal.
#[derive(Clone, Copy, Debug, PartialEq, Eq, Structural)]
pub enum GateError {
    Unauthenticated,
}

/// The principal of a request whose session resolved to one.
#[derive(Clone, Copy, Debug, PartialEq, Eq, Structural)]
pub struct AuthenticatedUser {
    pub user_id: u128,
}

/// Whether a request may pass, by what its session resolved to.
pub open spec fn gate(resolved: Option<u128>) -> Result<AuthenticatedUser, GateError> {
    match resolved {
        Some(user_id) => Ok(AuthenticatedUser { user_id }),
        None => Err(GateError::Unauthenticated),
    }
}

/// The session of one request: the principal it resolves to, and the actions
/// recorded for the store, oldest first.
pub struct TypedSession {
    user_id: Option<u128>,
    actions: Vec<SessionAction>,
}

impl TypedSession {
    /// The principal that the session resolves to at this point.
    pub closed spec fn user_id(&self) -> Option<u128> {
        self.user_id
    }

    /// The actions recorded so far.
    pub closed spec fn actions(&self) -> Seq<SessionAction> {
        self.actions@
    }

    /// The session of a request whose token the store resolved to `resolved`.
    pub fn new(resolved: Option<u128>) -> (session: TypedSession)
        ensures
            session.user_id() == resolved,
            session.actions() == Seq::<SessionAction>::empty(),
    {
        TypedSession { user_id: resolved, actions: Vec::new() }
    }

    pub fn get_user_id(&self) -> (user_id: Option<u128>)
        ensures
            user_id == self.user_id(),
    {
        self.user_id
    }

    /// Asks for a fresh token. The principal stays.
    pub fn renew(&mut self)
        ensures
            final(self).user_id() == old(self).user_id(),
            final(self).actions() == old(self).actions().push(SessionAction::Renew),
    {
        self.actions.push(SessionAction::Renew);
    }

    /// Binds `user_id` to the session.
    pub fn insert_user_id(&mut self, user_id: u128)
        ensures
            final(self).user_id() == Some(user_id),
            final(self).actions() == old(self).actions().push(SessionAction::InsertUserId(user_id)),
    {
        self.user_id = Some(user_id);
        self.actions.push(SessionAction::InsertUserId(user_id));
    }

    /// Ends the session: it resolves to no principal from here on, and the
    /// store is asked to invalidate its token.
    pub fn log_out(&mut self)
        ensures
            final(self).user_id() == None::<u128>,
            final(self).actions() == old(self).actions().push(SessionAction::Purge),
    {
        self.user_id = None;
        self.actions.push(SessionAction::Purge);
    }

    /// Hands out the recorded actions for the store, oldest first.
    pub fn into_actions(self) -> (actions: Vec<SessionAction>)
        ensures
            actions@ == self.actions(),
    {
        self.actions
    }
}

impl AuthenticatedUser {
    /// A session that resolves to a principal passes as that
    /// principal, any other is unauthenticated.
    pub fn from_session(session: &TypedSession) -> (r: Result<AuthenticatedUser, GateError>)
        ensures
            r == gate(session.user_id()),
    {
        match session.get_user_id() {
            Some(user_id) => Ok(AuthenticatedUser { user_id }),
            None => Err(GateError::Unauthenticated),
        }
    }
}

/// The principal that the store holds for `token`, if any.
pub open spec fn resolve(store: Map<Seq<char>, u128>, token: Seq<char>) -> Option<u128> {
    if store.contains_key(token) {
        Some(store[token])
    } else {
        None
    }
}

/// The store after one action on the session with `token`; `fresh` is the
/// token that a renewal issues.
pub open spec fn store_after_action(
    store: Map<Seq<char>, u128>,
    token: Seq<char>,
    action: SessionAction,
    fresh: Seq<char>,
) -> Map<Seq<char>, u128> {
    match action {
        SessionAction::Renew => if store.contains_key(token) {
            store.remove(token).insert(fresh, store[token])
        } else {
            store.remove(fresh)
        },
        SessionAction::InsertUserId(user_id) => store.insert(token, user_id),
        SessionAction::Purge => store.remove(token),
    }
}

/// The session's token after one action.
pub open spec fn token_after_action(token: Seq<char>, action: SessionAction, fresh: Seq<char>) -> Seq<
    char,
> {
    match action {
        SessionAction::Renew => fresh,
        _ => token,
    }
}

/// The store after the actions of one request, applied oldest first.
pub open spec fn store_after(
    store: Map<Seq<char>, u128>,
    token: Seq<char>,
    actions: Seq<SessionAction>,
    fresh: Seq<char>,
) -> Map<Seq<char>, u128>
    decreases actions.len(),
{
    if actions.len() == 0 {
        store
    } else {
        store_after(
            store_after_action(store, token, actions[0], fresh),
            token_after_action(token, actions[0], fresh),
            actions.drop_first(),
            fresh,
        )
    }
}

/// The session's token after the actions of one request.
pub open spec fn token_after(token: Seq<char>, actions: Seq<SessionAction>, fresh: Seq<char>) -> Seq<
    char,
>
    decreases actions.len(),
{
    if actions.len() == 0 {
        token
    } else {
        token_after(token_after_action(token, actions[0], fresh), actions.drop_first(), fresh)
    }
}

/// What a successful login records: a renewal, then the principal.
pub open spec fn login_actions(user_id: u128) -> Seq<SessionAction> {
    seq![SessionAction::Renew, SessionAction::InsertUserId(user_id)]
}

/// What a logout records.
pub open spec fn logout_actions() -> Seq<SessionAction> {
    seq![SessionAction::Purge]
}

proof fn lemma_login_unfolds(
    store: Map<Seq<char>, u128>,
    token: Seq<char>,
    user_id: u128,
    fresh: Seq<char>,
)
    ensures
        token_after(token, login_actions(user_id), fresh) == fresh,
        store_after(store, token, login_actions(user_id), fresh) == store_after_action(
            store,
            token,
            SessionAction::Renew,
            fresh,
        ).insert(fresh, user_id),
{
    let actions = login_actions(user_id);
    let rest = actions.drop_first();
    assert(rest =~= seq![SessionAction::InsertUserId(user_id)]);
    assert(rest.drop_first() =~= Seq::<SessionAction>::empty());
    reveal_with_fuel(store_after, 3);
    reveal_with_fuel(token_after, 3);
}

/// After a login, the session's token is let through as the principal that
/// logged in, whatever the session held before.
pub proof fn lemma_login_then_authenticated(
    store: Map<Seq<char>, u128>,
    token: Seq<char>,
    user_id: u128,
    fresh: Seq<char>,
)
    ensures
        gate(
            resolve(
                store_after(store, token, login_actions(user_id), fresh),
                token_after(token, login_actions(user_id), fresh),
            ),
        ) == Ok::<AuthenticatedUser, GateError>(AuthenticatedUser { user_id }),
{
    lemma_login_unfolds(store, token, user_id, fresh);
}

/// After a logout, the token that was logged out is unauthenticated.
pub proof fn lemma_logout_then_unauthenticated(
    store: Map<Seq<char>, u128>,
    token: Seq<char>,
    fresh: Seq<char>,
)
    ensures
        token_after(token, logout_actions(), fresh) == token,
        gate(resolve(store_after(store, token, logout_actions(), fresh), token)) == Err::<
            AuthenticatedUser,
            GateError,
        >(GateError::Unauthenticated),
{
    assert(logout_actions().drop_first() =~= Seq::<SessionAction>::empty());
    reveal_with_fuel(store_after, 2);
    reveal_with_fuel(token_after, 2);
}

/// A login rotates the token: the session continues under the token that the
/// renewal issued, and where that token is a new one, the token from before
/// the login resolves to no principal afterwards.
pub proof fn lemma_login_rotates_token(
    store: Map<Seq<char>, u128>,
    token: Seq<char>,
    user_id: u128,
    fresh: Seq<char>,
)
    ensures
        token_after(token, login_actions(user_id), fresh) == fresh,
        fresh != token ==> token_after(token, login_actions(user_id), fresh) != token,
        fresh != token ==> resolve(
            store_after(store, token, login_actions(user_id), fresh),
            token,
        ) == None::<u128>,
{
    lemma_login_unfolds(store, token, user_id, fresh);
}

} // verus!

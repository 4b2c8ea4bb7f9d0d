use vstd::prelude::*;
use crate::error::BlogError;
use crate::forms::LoginUser;
use crate::ids::{id_to_string, parse_id, uuid_parse};
use crate::models::{User, UserView};
use crate::password::{verify_outcome, verify_password};
use crate::store::{BlogStore, StoreView};

verus! {

/// The name of the private cookie that carries the session.
pub const SESSION_COOKIE: &'static str = "user_id";

/// The session cookie as the request brought it, or as the response will
/// set it: the text of a user key, or nothing. The web layer keeps it in a
/// tamper-evident private cookie named `SESSION_COOKIE`.
pub struct SessionCookies {
    pub user_id: Option<String>,
}

impl View for SessionCookies {
    type V = Option<Seq<char>>;

    open spec fn view(&self) -> Option<Seq<char>> {
        match self.user_id {
            Some(v) => Some(v@),
            None => None,
        }
    }
}

/// Who a request comes from, computed once when it arrives.
pub enum AuthState {
    /// No session cookie.
    Unauthenticated,
    /// A cookie that names no user of the store.
    Invalid,
    /// A cookie that names this user.
    Authenticated(User),
}

pub enum AuthView {
    Unauthenticated,
    Invalid,
    Authenticated(UserView),
}

impl View for AuthState {
    type V = AuthView;

    open spec fn view(&self) -> AuthView {
        match self {
            AuthState::Unauthenticated => AuthView::Unauthenticated,
            AuthState::Invalid => AuthView::Invalid,
            AuthState::Authenticated(u) => AuthView::Authenticated(u@),
        }
    }
}

/// The state a request with session cookie `cookie` resolves to against the
/// store `s`.
pub open spec fn session_view(s: StoreView, cookie: Option<Seq<char>>) -> AuthView {
    match cookie {
        None => AuthView::Unauthenticated,
        Some(c) => match uuid_parse(c) {
            None => AuthView::Invalid,
            Some(id) => if s.has_user(id) {
                AuthView::Authenticated(s.user_with(id))
            } else {
                AuthView::Invalid
            },
        },
    }
}

/// Resolves the session cookie against the store: no cookie is
/// `Unauthenticated`; a cookie that is no user key, or names a user that no
/// longer exists, is `Invalid`; otherwise the user is `Authenticated`.
pub fn resolve_session(store: &BlogStore, cookies: &SessionCookies) -> (r: AuthState)
    requires
        store.wf(),
    ensures
        r@ == session_view(store@, cookies@),
{
    match &cookies.user_id {
        None => AuthState::Unauthenticated,
        Some(c) => match parse_id(c.as_str()) {
            None => AuthState::Invalid,
            Some(id) => match store.get_user_by_id(id) {
                Some(u) => AuthState::Authenticated(u),
                None => AuthState::Invalid,
            },
        },
    }
}

/// The user of a route that requires one: anything but `Authenticated` is
/// `Unauthenticated`.
pub fn require_user(state: AuthState) -> (r: Result<User, BlogError>)
    ensures
        match state@ {
            AuthView::Authenticated(u) => r is Ok && r->Ok_0@ == u,
            _ => r == Err::<User, BlogError>(BlogError::Unauthenticated),
        },
{
    match state {
        AuthState::Authenticated(u) => Ok(u),
        _ => Err(BlogError::Unauthenticated),
    }
}

/// The user of a route where logging in is optional: anything but
/// `Authenticated` is an anonymous request.
pub fn optional_user(state: AuthState) -> (r: Option<User>)
    ensures
        match state@ {
            AuthView::Authenticated(u) => r is Some && r->Some_0@ == u,
            _ => r is None,
        },
{
    match state {
        AuthState::Authenticated(u) => Some(u),
        _ => None,
    }
}

/// Checks the credentials and, where they verify, sets the session cookie to
/// the user's key, so that later requests resolve to that user. An unknown
/// username and a wrong password are both `InvalidCredentials`; a malformed
/// stored hash is `Infrastructure`. The cookie changes only on success.
pub fn login(store: &BlogStore, cookies: &mut SessionCookies, credentials: &LoginUser) -> (r: Result<
    User,
    BlogError,
>)
    requires
        store.wf(),
    ensures
        !store@.has_username(credentials.username@) ==> r == Err::<User, BlogError>(
            BlogError::InvalidCredentials,
        ),
        store@.has_username(credentials.username@) ==> exists|i: int|
            0 <= i < store@.users.len() && store@.users[i].username == credentials.username@ && match verify_outcome(
                credentials.password@,
                store@.users[i].password_hash,
            ) {
                Ok(true) => r is Ok && r->Ok_0@ == store@.users[i],
                Ok(false) => r == Err::<User, BlogError>(BlogError::InvalidCredentials),
                Err(e) => r == Err::<User, BlogError>(e),
            },
        r is Err ==> final(cookies)@ == old(cookies)@,
        r is Ok ==> session_view(store@, final(cookies)@) == AuthView::Authenticated(r->Ok_0@),
{
    let user = match store.get_user_by_username(credentials.username.as_str()) {
        Some(u) => u,
        None => return Err(BlogError::InvalidCredentials),
    };
    match verify_password(credentials.password.as_str(), user.password_hash.as_str()) {
        Ok(true) => {
            let value = id_to_string(user.id);
            cookies.user_id = Some(value);
            proof {
                let i = choose|i: int| 0 <= i < store@.users.len() && store@.users[i] == user@;
                assert(store@.users[i].id == user.id);
                let j = choose|j: int| 0 <= j < store@.users.len() && #[trigger] store@.users[j].id == user.id;
                assert(store@.users[j].id == user.id);
                assert(i == j);
            }
            Ok(user)
        },
        Ok(false) => Err(BlogError::InvalidCredentials),
        Err(e) => Err(e),
    }
}

/// Ends the session: the cookie is removed, so later requests resolve to
/// `Unauthenticated`.
pub fn logout(cookies: &mut SessionCookies)
    ensures
        final(cookies)@ is None,
        forall|s: StoreView| session_view(s, final(cookies)@) == AuthView::Unauthenticated,
{
    cookies.user_id = None;
}

} // verus!

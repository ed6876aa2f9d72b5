//! The routes of the backend and which of them stand behind the session
//! guard.

use crate::auth::constants::AuthMessage;
use crate::auth::guard::{auth_middleware, unauthorized};
use crate::common::api_res::Response;
use crate::common::message::Message;
use crate::session::Session;
use crate::user::constants::UserMessage;
use crate::words::constants::WordsMessage;
use vstd::prelude::*;

verus! {

/// The prefix every scope is mounted under.
pub const API_PREFIX: &'static str = "/v1";

/// The origins a browser may call the backend from.
pub const ALLOWED_ORIGINS: [&'static str; 3] = [
    "http://localhost:3001",
    "http://localhost:3000",
    "https://blog.gentleduck.com",
];

/// Whether the origin is one a browser may call the backend from.
pub open spec fn origin_allowed(origin: Seq<char>) -> bool {
    exists|i: int| 0 <= i < 3 && origin == (#[trigger] ALLOWED_ORIGINS[i])@
}

/// Decides whether a cross-origin request is let in.
pub fn is_allowed_origin(origin: &str) -> (yes: bool)
    ensures
        yes == origin_allowed(origin@),
{
    let asked: String = origin.to_string();
    let mut i: usize = 0;
    while i < 3
        invariant
            i <= 3,
            asked@ == origin@,
            forall|k: int| 0 <= k < i ==> origin@ != (#[trigger] ALLOWED_ORIGINS[k])@,
        decreases 3 - i,
    {
        let known: String = ALLOWED_ORIGINS[i].to_string();
        if asked == known {
            return true;
        }
        i = i + 1;
    }
    false
}

/// The HTTP methods the routes answer to.
#[derive(Debug, Clone, Copy, PartialEq, Eq, Structural)]
pub enum Method {
    Get,
    Post,
    Patch,
    Delete,
}

/// The endpoints of the backend.
#[derive(Debug, Clone, Copy, PartialEq, Eq, Structural)]
pub enum Route {
    AuthSignin,
    AuthSignout,
    UserCreate,
    UserUpdate,
    UserDelete,
    UserMe,
    UserResetPassword,
    WordsGetAll,
    WordsCreate,
    WordsUpdate,
    WordsDelete,
}

impl Route {
    /// Whether the route is open only to a signed-in user.
    pub open spec fn protected(self) -> bool {
        match self {
            Route::UserUpdate | Route::UserDelete | Route::UserMe => true,
            Route::WordsGetAll | Route::WordsCreate | Route::WordsUpdate | Route::WordsDelete => true,
            Route::AuthSignin | Route::AuthSignout => false,
            Route::UserCreate | Route::UserResetPassword => false,
        }
    }

    /// The code the route answers a success with.
    pub open spec fn succeeds_with(self) -> Message {
        match self {
            Route::AuthSignin => Message::Auth(AuthMessage::AuthSigninSuccess),
            Route::AuthSignout => Message::Auth(AuthMessage::AuthSignoutSuccess),
            Route::UserCreate => Message::User(UserMessage::UserCreateSuccess),
            Route::UserUpdate => Message::User(UserMessage::UserUpdateSuccess),
            Route::UserDelete => Message::User(UserMessage::UserDeleteSuccess),
            Route::UserMe => Message::User(UserMessage::UserGetProfileSuccess),
            Route::UserResetPassword => Message::User(UserMessage::UserResetPasswordSuccess),
            Route::WordsGetAll => Message::Words(WordsMessage::WordGetSuccess),
            Route::WordsCreate => Message::Words(WordsMessage::WordGetSuccess),
            Route::WordsUpdate => Message::Words(WordsMessage::WordUpdateSuccess),
            Route::WordsDelete => Message::Words(WordsMessage::WordDeleteSuccess),
        }
    }

    pub fn is_protected(&self) -> (yes: bool)
        ensures
            yes == self.protected(),
    {
        match self {
            Route::UserUpdate | Route::UserDelete | Route::UserMe => true,
            Route::WordsGetAll | Route::WordsCreate | Route::WordsUpdate | Route::WordsDelete => true,
            Route::AuthSignin | Route::AuthSignout => false,
            Route::UserCreate | Route::UserResetPassword => false,
        }
    }

    pub fn method(&self) -> (method: Method)
        ensures
            method == (match *self {
                Route::UserMe | Route::WordsGetAll => Method::Get,
                Route::UserUpdate | Route::WordsUpdate => Method::Patch,
                Route::UserDelete | Route::WordsDelete => Method::Delete,
                _ => Method::Post,
            }),
    {
        match self {
            Route::AuthSignin => Method::Post,
            Route::AuthSignout => Method::Post,
            Route::UserCreate => Method::Post,
            Route::UserUpdate => Method::Patch,
            Route::UserDelete => Method::Delete,
            Route::UserMe => Method::Get,
            Route::UserResetPassword => Method::Post,
            Route::WordsGetAll => Method::Get,
            Route::WordsCreate => Method::Post,
            Route::WordsUpdate => Method::Patch,
            Route::WordsDelete => Method::Delete,
        }
    }

    /// The scope the route is mounted under.
    pub fn scope(&self) -> (scope: &'static str)
        ensures
            scope@ == (match *self {
                Route::AuthSignin | Route::AuthSignout => "/auth"@,
                Route::WordsGetAll | Route::WordsCreate | Route::WordsUpdate | Route::WordsDelete => "/words"@,
                _ => "/user"@,
            }),
    {
        match self {
            Route::AuthSignin | Route::AuthSignout => "/auth",
            Route::WordsGetAll | Route::WordsCreate | Route::WordsUpdate | Route::WordsDelete => "/words",
            _ => "/user",
        }
    }

    /// The path of the route within its scope.
    pub fn path(&self) -> (path: &'static str)
        ensures
            path@ == (match *self {
                Route::AuthSignin => "/signin"@,
                Route::AuthSignout => "/signout"@,
                Route::UserCreate | Route::WordsCreate => "/create"@,
                Route::UserUpdate | Route::WordsUpdate => "/update"@,
                Route::UserDelete | Route::WordsDelete => "/delete"@,
                Route::UserMe => "/me"@,
                Route::UserResetPassword => "/reset-password"@,
                Route::WordsGetAll => "/get-all"@,
            }),
    {
        match self {
            Route::AuthSignin => "/signin",
            Route::AuthSignout => "/signout",
            Route::UserCreate | Route::WordsCreate => "/create",
            Route::UserUpdate | Route::WordsUpdate => "/update",
            Route::UserDelete | Route::WordsDelete => "/delete",
            Route::UserMe => "/me",
            Route::UserResetPassword => "/reset-password",
            Route::WordsGetAll => "/get-all",
        }
    }

    pub fn success_message(&self) -> (code: Message)
        ensures
            code == self.succeeds_with(),
            code.reports_success(),
    {
        match self {
            Route::AuthSignin => Message::Auth(AuthMessage::AuthSigninSuccess),
            Route::AuthSignout => Message::Auth(AuthMessage::AuthSignoutSuccess),
            Route::UserCreate => Message::User(UserMessage::UserCreateSuccess),
            Route::UserUpdate => Message::User(UserMessage::UserUpdateSuccess),
            Route::UserDelete => Message::User(UserMessage::UserDeleteSuccess),
            Route::UserMe => Message::User(UserMessage::UserGetProfileSuccess),
            Route::UserResetPassword => Message::User(UserMessage::UserResetPasswordSuccess),
            Route::WordsGetAll => Message::Words(WordsMessage::WordGetSuccess),
            Route::WordsCreate => Message::Words(WordsMessage::WordGetSuccess),
            Route::WordsUpdate => Message::Words(WordsMessage::WordUpdateSuccess),
            Route::WordsDelete => Message::Words(WordsMessage::WordDeleteSuccess),
        }
    }
}

/// What the session guard makes of a request to a route.
pub open spec fn admission(route: Route, session: Session) -> Result<(), Response<(), Message>> {
    if route.protected() && !session.authenticated() {
        Err(unauthorized())
    } else {
        Ok(())
    }
}

/// Every route that changes or reads a user's own data, but for the reset
/// request, and every word route is protected; a request to any of them
/// without a signed-in user is answered with 401, `AuthSigninFailed`, the
/// error status and no data.
pub proof fn protected_routes_need_a_session(route: Route, session: Session)
    requires
        !session.authenticated(),
    ensures
        route.protected() <==> !(route == Route::AuthSignin || route == Route::AuthSignout || route
            == Route::UserCreate || route == Route::UserResetPassword),
        route.protected() ==> admission(route, session) == Err::<(), Response<(), Message>>(
            unauthorized(),
        ),
        !route.protected() ==> admission(route, session) == Ok::<(), Response<(), Message>>(()),
        unauthorized().status.code() == 401,
        unauthorized().body.message == Message::Auth(AuthMessage::AuthSigninFailed),
        unauthorized().body.status == crate::common::api_res::Status::Error,
        unauthorized().body.data is None,
        unauthorized().consistent(),
{
}

/// Whether a request to the route may go on to its handler. A protected
/// route is closed to a session that names no user: the request is answered
/// with 401 and `AuthSigninFailed`. Every other request passes.
pub fn guard(route: Route, session: &Session) -> (passed: Result<(), Response<(), Message>>)
    ensures
        passed == admission(route, *session),
{
    if route.is_protected() {
        auth_middleware(session)
    } else {
        Ok(())
    }
}

} // verus!

//! The session guard in front of the protected routes.

use crate::auth::constants::AuthMessage;
use crate::common::api_res::{api_error, Response, StatusCode};
use crate::common::message::{coherent, Message};
use crate::session::Session;
use vstd::prelude::*;

verus! {

/// What a request without a signed-in user is answered with.
pub open spec fn unauthorized() -> Response<(), Message> {
    Response::error(StatusCode::Unauthorized, Message::Auth(AuthMessage::AuthSigninFailed))
}

/// Lets a request pass if its session names a user, and answers it with 401
/// and `AuthSigninFailed` if not. The session is only read; whether the user
/// it names still exists is not looked up.
pub fn auth_middleware(session: &Session) -> (passed: Result<(), Response<(), Message>>)
    ensures
        passed == (if session.authenticated() {
            Ok::<(), Response<(), Message>>(())
        } else {
            Err(unauthorized())
        }),
        coherent(unauthorized()),
{
    if session.is_authenticated() {
        Ok(())
    } else {
        Err(api_error(StatusCode::Unauthorized, Message::Auth(AuthMessage::AuthSigninFailed)))
    }
}

} // verus!

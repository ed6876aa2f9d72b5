//! Sign-in, sign-out and the session guard.

use crate::auth::constants::AuthMessage;
use crate::auth::dto::SigninDto;
use crate::auth::service::AuthService;
use crate::common::api_res::{api_error, api_success, Response, StatusCode};
use crate::common::message::{coherent, reject, rejection, Message};
use crate::common::password::password_matches;
use crate::common::validators::{uuid_text, uuid_to_string};
use crate::session::Session;
use crate::store::{Bind, Query, StoreError};
use crate::user::types::User;
use vstd::prelude::*;

pub mod constants;
pub mod dto;
pub mod guard;
pub mod service;

verus! {

/// What a sign-in is answered with, given what the service made of it.
pub open spec fn signin_response(signed: Result<User, AuthMessage>) -> Response<User, Message> {
    match signed {
        Ok(user) => Response::success(
            StatusCode::Success,
            user,
            Message::Auth(AuthMessage::AuthSigninSuccess),
        ),
        Err(code) => Response::error(StatusCode::Unauthorized, Message::Auth(code)),
    }
}

/// A sign-in is answered in one of three ways. Where the store finds the
/// user and the password is accepted against the stored hash, the answer is
/// 200 with the user and `AuthSigninSuccess`. Where the store finds no user
/// of that name, it is 401 with `AuthUserNotFound`. Where it finds one and
/// the password is not accepted, it is 401 with `AuthPasswordInvalid`.
pub proof fn signin_answers(row: Result<User, StoreError>, password: Seq<char>)
    ensures
        ({
            let response = signin_response(
                AuthService::outcome(row, AuthService::answer_for(row, password)),
            );
            match row {
                Ok(user) => if password_matches(password, user.password_hash@) == Some(true) {
                    response == Response::success(
                        StatusCode::Success,
                        user,
                        Message::Auth(AuthMessage::AuthSigninSuccess),
                    )
                } else {
                    response == Response::<User, Message>::error(
                        StatusCode::Unauthorized,
                        Message::Auth(AuthMessage::AuthPasswordInvalid),
                    )
                },
                Err(_) => response == Response::<User, Message>::error(
                    StatusCode::Unauthorized,
                    Message::Auth(AuthMessage::AuthUserNotFound),
                ),
            }
        }),
{
}

/// Opens a sign-in: a body that fails its rules is answered at once, any
/// other asks the store for the user of that name.
pub fn signin(credentials: &SigninDto) -> (step: Result<Query, Response<User, Message>>)
    ensures
        match step {
            Ok(query) => {
                &&& credentials.is_valid()
                &&& query.sql@ == service::SELECT_USER_BY_USERNAME@
                &&& query.binds@ == seq![Bind::Text(credentials.username)]
            },
            Err(response) => {
                &&& !credentials.is_valid()
                &&& response == rejection::<User>(credentials.violations())
            },
        },
{
    match credentials.validate() {
        Ok(()) => Ok(AuthService::signin_query(credentials)),
        Err(errors) => Err(reject(&errors)),
    }
}

/// Closes a sign-in with the row the store found. Where the password is
/// accepted against the row's hash the session is given the user's id and
/// the user is returned with `AuthSigninSuccess`. Where there is no row the
/// answer is 401 with `AuthUserNotFound`, where the password is not accepted
/// 401 with `AuthPasswordInvalid`; the session is then left as it was.
pub fn signin_found(
    row: Result<User, StoreError>,
    credentials: &SigninDto,
    session: &mut Session,
) -> (response: Response<User, Message>)
    ensures
        response == signin_response(
            AuthService::outcome(row, AuthService::answer_for(row, credentials.password@)),
        ),
        coherent(response),
        match response.body.data {
            Some(user) => final(session).user_id matches Some(id) && id@ == uuid_text(user.id),
            None => *final(session) == *old(session),
        },
{
    match AuthService::signin(row, credentials) {
        Ok(user) => {
            session.insert_user_id(uuid_to_string(user.id));
            api_success(StatusCode::Success, user, Message::Auth(AuthMessage::AuthSigninSuccess))
        },
        Err(code) => api_error(StatusCode::Unauthorized, Message::Auth(code)),
    }
}

/// Signs out: whatever the session held, it is purged, and the answer is
/// `AuthSignoutSuccess` with no data.
pub fn signout(session: &mut Session) -> (response: Response<Option<u8>, Message>)
    ensures
        *final(session) == old(session).purged(),
        response == (Response::<Option<u8>, Message> {
            status: StatusCode::Success,
            body: crate::common::api_res::ApiResult {
                data: None,
                message: Message::Auth(AuthMessage::AuthSignoutSuccess),
                status: crate::common::api_res::Status::Success,
            },
        }),
        coherent(response),
{
    session.purge();
    Response {
        status: StatusCode::Success,
        body: crate::common::api_res::ApiResult {
            data: None,
            message: Message::Auth(AuthMessage::AuthSignoutSuccess),
            status: crate::common::api_res::Status::Success,
        },
    }
}

} // verus!

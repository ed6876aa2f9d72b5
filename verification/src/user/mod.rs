//! The user resource: what each endpoint does before, between and after its
//! calls to the store and the mailer.

use crate::auth::constants::AuthMessage;
use crate::auth::guard::unauthorized;
use crate::common::api_res::{api_error, api_success, Response, StatusCode};
use crate::common::generators::{generate_code, is_code};
use crate::common::message::{coherent, reject, rejection, Message};
use crate::common::password::password_matches;
use crate::common::validators::{uuid_text, uuid_to_string};
use crate::email::emails::{
    ResetPasswordEmail, UpdateUserEmail, UpdatedField, WelcomeEmail, DASHBOARD_URL,
    RESET_LINK_PREFIX, VIEW_PROFILE_LINK,
};
use crate::otp_code::constants::OtpCodeMessage;
use crate::otp_code::service::{OtpCodeService, INSERT_OTP_CODE};
use crate::otp_code::types::OtpCode;
use crate::session::Session;
use crate::store::{Bind, Query, StoreError};
use crate::user::constants::UserMessage;
use crate::user::dto::{CreateUserDto, DeleteUserDto, ResetPasswordDto, UpdateUserDto};
use crate::user::service::{UserService, DELETE_USER, SELECT_USER, SELECT_USER_FOR_RESET};
use crate::user::types::User;
use vstd::prelude::*;

pub mod constants;
pub mod dto;
pub mod service;
pub mod types;

verus! {

/// How many characters a reset code has.
pub const RESET_CODE_LENGTH: usize = 6;

/// How the mailing of a reset email ended.
#[derive(Debug, Clone, Copy, PartialEq, Eq, Structural)]
pub enum ResetMail {
    /// The template could not be rendered; nothing was sent.
    RenderFailed,
    /// The mailer could not send the email.
    SendFailed,
    Sent,
}

/// The 400 response a user endpoint fails with.
pub open spec fn user_failure<T>(code: UserMessage) -> Response<T, Message> {
    Response::error(StatusCode::BadRequest, Message::User(code))
}

/// The 200 response a user endpoint succeeds with.
pub open spec fn user_success<T>(data: T, code: UserMessage) -> Response<T, Message> {
    Response::success(StatusCode::Success, data, Message::User(code))
}

/// Opens the creation of a user: a body that fails its rules is answered at
/// once; any other has its password hashed and asks the store for the
/// insert, or fails with `UserCreateFailed` where the hasher does.
pub fn user_create(credentials: &CreateUserDto) -> (step: Result<Query, Response<User, Message>>)
    ensures
        !credentials.is_valid() ==> step == Err::<Query, Response<User, Message>>(
            rejection::<User>(credentials.violations()),
        ),
        credentials.is_valid() && step is Ok ==> exists|hash: String|
            {
                &&& #[trigger] UserService::inserts(step->Ok_0, *credentials, hash)
                &&& password_matches(credentials.password@, hash@) == Some(true)
            },
        credentials.is_valid() && step is Err ==> step->Err_0 == user_failure::<User>(
            UserMessage::UserCreateFailed,
        ),
{
    match credentials.validate() {
        Err(errors) => Err(reject(&errors)),
        Ok(()) => {
            let planned = UserService::create_query(credentials);
            let step = match planned {
                Ok(query) => Ok(query),
                Err(code) => Err(api_error(StatusCode::BadRequest, Message::User(code))),
            };
            proof {
                if step is Ok {
                    let hash = choose|hash: String|
                        {
                            &&& #[trigger] UserService::inserts(planned->Ok_0, *credentials, hash)
                            &&& password_matches(credentials.password@, hash@) == Some(true)
                        };
                    assert(UserService::inserts(step->Ok_0, *credentials, hash));
                }
            }
            step
        },
    }
}

/// Goes on with the row the insert returned. Without a row the answer is
/// `UserCreateFailed` and the session stays as it was. With one the new user
/// is signed in, and the welcome email for them is handed out to be sent to
/// their address.
pub fn user_create_stored(row: Result<User, StoreError>, session: &mut Session, current_year: i32) -> (step:
    Result<(User, WelcomeEmail), Response<User, Message>>)
    ensures
        match row {
            Ok(user) => {
                &&& step matches Ok((created, email))
                &&& created == user
                &&& email.username == user.username
                &&& email.dashboard_url@ == DASHBOARD_URL@
                &&& email.current_year == current_year
                &&& final(session).user_id matches Some(id)
                &&& id@ == uuid_text(user.id)
            },
            Err(_) => {
                &&& step == Err::<(User, WelcomeEmail), Response<User, Message>>(
                    user_failure::<User>(UserMessage::UserCreateFailed),
                )
                &&& *final(session) == *old(session)
            },
        },
{
    match UserService::create(row) {
        Ok(user) => {
            session.insert_user_id(uuid_to_string(user.id));
            let email = WelcomeEmail::new(&user, current_year);
            Ok((user, email))
        },
        Err(code) => Err(api_error(StatusCode::BadRequest, Message::User(code))),
    }
}

/// Closes the creation once the welcome email went out or failed to. A
/// failed email is reported as `UserCreateEmailFailed`; the user stays
/// created.
pub fn user_create_mailed(user: User, sent: bool) -> (response: Response<User, Message>)
    ensures
        response == (if sent {
            user_success(user, UserMessage::UserCreateSuccess)
        } else {
            user_failure::<User>(UserMessage::UserCreateEmailFailed)
        }),
        coherent(response),
{
    if sent {
        api_success(StatusCode::Success, user, Message::User(UserMessage::UserCreateSuccess))
    } else {
        api_error(StatusCode::BadRequest, Message::User(UserMessage::UserCreateEmailFailed))
    }
}

/// Opens an update: a body that fails its rules is answered at once, one
/// that supplies no field with `NothingToUpdate`; for any other the store is
/// asked to write the supplied fields, the password hashed first, or the
/// answer is `UserUpdateFailed` where the hasher fails.
pub fn user_update(credentials: UpdateUserDto) -> (step: Result<
    (Query, Vec<UpdatedField>),
    Response<User, Message>,
>)
    ensures
        !credentials.is_valid() ==> step == Err::<
            (Query, Vec<UpdatedField>),
            Response<User, Message>,
        >(rejection::<User>(credentials.violations())),
        credentials.is_valid() && credentials.is_empty() ==> step == Err::<
            (Query, Vec<UpdatedField>),
            Response<User, Message>,
        >(user_failure::<User>(UserMessage::NothingToUpdate)),
        credentials.is_valid() && !credentials.is_empty() && step is Ok ==> exists|
            hash: Option<String>,
        |
            {
                &&& #[trigger] UserService::updates(step->Ok_0.0, step->Ok_0.1, credentials, hash)
                &&& UserService::hash_of(credentials.password, hash)
            },
        credentials.is_valid() && !credentials.is_empty() && step is Err ==> {
            &&& step->Err_0 == user_failure::<User>(UserMessage::UserUpdateFailed)
            &&& credentials.password is Some
        },
{
    match credentials.validate() {
        Err(errors) => Err(reject(&errors)),
        Ok(()) => {
            let planned = UserService::update_query(credentials);
            let step = match planned {
                Ok(plan) => Ok(plan),
                Err(code) => Err(api_error(StatusCode::BadRequest, Message::User(code))),
            };
            proof {
                if step is Ok {
                    let hash = choose|hash: Option<String>|
                        {
                            &&& #[trigger] UserService::updates(
                                planned->Ok_0.0,
                                planned->Ok_0.1,
                                credentials,
                                hash,
                            )
                            &&& UserService::hash_of(credentials.password, hash)
                        };
                    assert(UserService::updates(step->Ok_0.0, step->Ok_0.1, credentials, hash));
                }
            }
            step
        },
    }
}

/// Goes on with the row the update returned. Without a row the answer is
/// `UserUpdateFailed`. With one, the notice that lists the changed fields is
/// handed out to be sent to the user's address.
pub fn user_update_stored(
    row: Result<User, StoreError>,
    changed: Vec<UpdatedField>,
    last_update: String,
) -> (step: Result<(User, UpdateUserEmail), Response<User, Message>>)
    ensures
        match row {
            Ok(user) => {
                &&& step matches Ok((updated, email))
                &&& updated == user
                &&& email.username == user.username
                &&& email.view_profile_link@ == VIEW_PROFILE_LINK@
                &&& email.updated_fields == changed
                &&& email.last_update == last_update
            },
            Err(_) => step == Err::<(User, UpdateUserEmail), Response<User, Message>>(
                user_failure::<User>(UserMessage::UserUpdateFailed),
            ),
        },
{
    match UserService::update(row, changed) {
        Ok((user, changed)) => {
            let email = UpdateUserEmail::new(&user, changed, last_update);
            Ok((user, email))
        },
        Err(code) => Err(api_error(StatusCode::BadRequest, Message::User(code))),
    }
}

/// Closes the update once the notice went out or failed to. A failed email
/// is reported as `UserUpdateProfileEmailFailed`; the update stays written.
pub fn user_update_mailed(user: User, sent: bool) -> (response: Response<User, Message>)
    ensures
        response == (if sent {
            user_success(user, UserMessage::UserUpdateSuccess)
        } else {
            user_failure::<User>(UserMessage::UserUpdateProfileEmailFailed)
        }),
        coherent(response),
{
    if sent {
        api_success(StatusCode::Success, user, Message::User(UserMessage::UserUpdateSuccess))
    } else {
        api_error(StatusCode::BadRequest, Message::User(UserMessage::UserUpdateProfileEmailFailed))
    }
}

/// Opens a password reset: a body whose id is no UUID is answered at once;
/// any other asks the store for the user, who is found only while no active
/// code of theirs is still to expire.
pub fn user_reset_password(credentials: &ResetPasswordDto) -> (step: Result<
    Query,
    Response<User, Message>,
>)
    ensures
        match step {
            Ok(query) => {
                &&& credentials.is_valid()
                &&& query.sql@ == SELECT_USER_FOR_RESET@
                &&& query.binds@ == seq![Bind::Text(credentials.user_id)]
            },
            Err(response) => {
                &&& !credentials.is_valid()
                &&& response == rejection::<User>(credentials.violations())
            },
        },
{
    match credentials.validate() {
        Ok(()) => Ok(UserService::get_query(credentials)),
        Err(errors) => Err(reject(&errors)),
    }
}

/// What the guarded lookup of a reset comes to: the user to issue a code
/// for, or the refusal of the request.
pub open spec fn reset_lookup(row: Result<User, StoreError>) -> Result<User, Response<User, Message>> {
    match row {
        Ok(user) => Ok(user),
        Err(_) => Err(user_failure::<User>(UserMessage::UserGetFailed)),
    }
}

/// Goes on with the row the guarded lookup returned. Without a row the
/// answer is `UserGetFailed` and no code is issued. With one, a fresh code
/// of six letters and digits is drawn and the store is asked to keep it for
/// the user.
pub fn user_reset_password_found(row: Result<User, StoreError>) -> (step: Result<
    (User, Query),
    Response<User, Message>,
>)
    ensures
        step is Ok <==> reset_lookup(row) is Ok,
        step matches Err(response) ==> reset_lookup(row) == Err::<User, Response<User, Message>>(
            response,
        ),
        match row {
            Ok(user) => {
                &&& step matches Ok((found, query))
                &&& found == user
                &&& query.sql@ == INSERT_OTP_CODE@
                &&& query.binds@.len() == 2
                &&& query.binds@[0] matches Bind::Text(code)
                &&& is_code(code@, RESET_CODE_LENGTH as nat)
                &&& query.binds@[1] == Bind::Uuid(user.id)
            },
            Err(_) => step == Err::<(User, Query), Response<User, Message>>(
                user_failure::<User>(UserMessage::UserGetFailed),
            ),
        },
{
    match UserService::get(row) {
        Ok(user) => {
            let code = generate_code(RESET_CODE_LENGTH);
            let query = OtpCodeService::create_query(code, user.id);
            Ok((user, query))
        },
        Err(code) => Err(api_error(StatusCode::BadRequest, Message::User(code))),
    }
}

/// Goes on with the row the insert of the code returned. Without a row the
/// answer is `OtpCodeCreateFailed`. With one, the reset email that carries
/// the stored code and its link is handed out to be sent to the user.
pub fn user_reset_password_issued(user: &User, row: Result<OtpCode, StoreError>) -> (step: Result<
    ResetPasswordEmail,
    Response<User, Message>,
>)
    ensures
        match row {
            Ok(otp) => {
                &&& step matches Ok(email)
                &&& email.username == user.username
                &&& email.reset_code@ == otp.code@
                &&& email.reset_link@ == RESET_LINK_PREFIX@ + otp.code@
            },
            Err(_) => step == Err::<ResetPasswordEmail, Response<User, Message>>(
                Response::error(
                    StatusCode::BadRequest,
                    Message::OtpCode(OtpCodeMessage::OtpCodeCreateFailed),
                ),
            ),
        },
{
    match OtpCodeService::create(row) {
        Ok(otp) => Ok(ResetPasswordEmail::new(user, otp.code.as_str())),
        Err(code) => Err(api_error(StatusCode::BadRequest, Message::OtpCode(code))),
    }
}

/// What a reset is answered with, given how the mailing ended.
pub open spec fn reset_response(user: User, mail: ResetMail) -> Response<User, Message> {
    match mail {
        ResetMail::Sent => user_success(user, UserMessage::UserResetPasswordSuccess),
        ResetMail::RenderFailed => user_failure::<User>(UserMessage::UserResetPasswordFailed),
        ResetMail::SendFailed => user_failure::<User>(UserMessage::UserResetPasswordEmailFailed),
    }
}

/// Closes the reset once the email was rendered and sent, or one of the two
/// failed. The code stays issued either way.
pub fn user_reset_password_mailed(user: User, mail: ResetMail) -> (response: Response<User, Message>)
    ensures
        response == reset_response(user, mail),
        coherent(response),
{
    match mail {
        ResetMail::Sent => api_success(
            StatusCode::Success,
            user,
            Message::User(UserMessage::UserResetPasswordSuccess),
        ),
        ResetMail::RenderFailed => api_error(
            StatusCode::BadRequest,
            Message::User(UserMessage::UserResetPasswordFailed),
        ),
        ResetMail::SendFailed => api_error(
            StatusCode::BadRequest,
            Message::User(UserMessage::UserResetPasswordEmailFailed),
        ),
    }
}

/// Opens a delete: the store is asked to delete the user with the id.
pub fn user_delete(credentials: &DeleteUserDto) -> (query: Query)
    ensures
        query.sql@ == DELETE_USER@,
        query.binds@ == seq![Bind::Uuid(credentials.user_id)],
{
    UserService::delete_query(credentials)
}

/// What a delete is answered with, given how many rows it touched.
pub open spec fn delete_response(rows: Result<u64, StoreError>) -> Response<(), Message> {
    match rows {
        Ok(affected) => if affected == 0 {
            user_failure::<()>(UserMessage::UserNotFound)
        } else {
            user_success((), UserMessage::UserDeleteSuccess)
        },
        Err(_) => user_failure::<()>(UserMessage::UserDeleteFailed),
    }
}

/// Closes a delete with the number of rows it touched: none is
/// `UserNotFound`, a store that could not run it `UserDeleteFailed`.
pub fn user_delete_done(rows: Result<u64, StoreError>) -> (response: Response<(), Message>)
    ensures
        response == delete_response(rows),
        coherent(response),
{
    match UserService::delete(rows) {
        Ok(()) => api_success(
            StatusCode::Success,
            (),
            Message::User(UserMessage::UserDeleteSuccess),
        ),
        Err(code) => api_error(StatusCode::BadRequest, Message::User(code)),
    }
}

/// Opens the profile lookup: the store is asked for the user the session
/// names. A session that names none is answered as the session guard answers it.
pub fn user_me(session: &Session) -> (step: Result<Query, Response<(), Message>>)
    ensures
        match session.user_id {
            Some(id) => {
                &&& step matches Ok(query)
                &&& query.sql@ == SELECT_USER@
                &&& query.binds@ == seq![Bind::Text(id)]
            },
            None => step == Err::<Query, Response<(), Message>>(unauthorized()),
        },
{
    match &session.user_id {
        Some(id) => Ok(UserService::me_query(id.clone())),
        None => Err(
            api_error(StatusCode::Unauthorized, Message::Auth(AuthMessage::AuthSigninFailed)),
        ),
    }
}

/// Closes the profile lookup with the row the store found: the user with
/// `UserGetProfileSuccess`, or `UserGetProfileFailed` without a row.
pub fn user_me_found(row: Result<User, StoreError>) -> (response: Response<User, Message>)
    ensures
        response == (match row {
            Ok(user) => user_success(user, UserMessage::UserGetProfileSuccess),
            Err(_) => user_failure::<User>(UserMessage::UserGetProfileFailed),
        }),
        coherent(response),
{
    match UserService::me(row) {
        Ok(user) => api_success(
            StatusCode::Success,
            user,
            Message::User(UserMessage::UserGetProfileSuccess),
        ),
        Err(code) => api_error(StatusCode::BadRequest, Message::User(code)),
    }
}

} // verus!

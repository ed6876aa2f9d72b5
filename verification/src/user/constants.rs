//! The codes the user endpoints answer with.

use vstd::prelude::*;

verus! {

/// The codes the user endpoints answer with.
#[derive(Debug, Clone, Copy, PartialEq, Eq, Structural)]
pub enum UserMessage {
    // Success
    UserCreateSuccess,
    UserUpdateSuccess,
    UserDeleteSuccess,
    UserGetProfileSuccess,
    UserResetPasswordSuccess,
    UserGetSuccess,
    // Error
    AuthInsertUserIdSessionFailed,
    AuthGetSessionUserIdSessionFailed,
    UserCreateFailed,
    UserNotFound,
    UserGetProfileFailed,
    UserDeleteFailed,
    InvalidUuid,
    UserUpdateFailed,
    NothingToUpdate,
    UserResetPasswordFailed,
    UserGetFailed,
    UserResetPasswordEmailFailed,
    UserUpdateProfileEmailFailed,
    UserCreateEmailFailed,
}

impl UserMessage {
    /// The code as it stands in the `message` field of a response.
    pub open spec fn name(self) -> Seq<char> {
        match self {
            UserMessage::UserCreateSuccess => "UserCreateSuccess"@,
            UserMessage::UserUpdateSuccess => "UserUpdateSuccess"@,
            UserMessage::UserDeleteSuccess => "UserDeleteSuccess"@,
            UserMessage::UserGetProfileSuccess => "UserGetProfileSuccess"@,
            UserMessage::UserResetPasswordSuccess => "UserResetPasswordSuccess"@,
            UserMessage::UserGetSuccess => "UserGetSuccess"@,
            UserMessage::AuthInsertUserIdSessionFailed => "AuthInsertUserIdSessionFailed"@,
            UserMessage::AuthGetSessionUserIdSessionFailed => "AuthGetSessionUserIdSessionFailed"@,
            UserMessage::UserCreateFailed => "UserCreateFailed"@,
            UserMessage::UserNotFound => "UserNotFound"@,
            UserMessage::UserGetProfileFailed => "UserGetProfileFailed"@,
            UserMessage::UserDeleteFailed => "UserDeleteFailed"@,
            UserMessage::InvalidUuid => "InvalidUuid"@,
            UserMessage::UserUpdateFailed => "UserUpdateFailed"@,
            UserMessage::NothingToUpdate => "NothingToUpdate"@,
            UserMessage::UserResetPasswordFailed => "UserResetPasswordFailed"@,
            UserMessage::UserGetFailed => "UserGetFailed"@,
            UserMessage::UserResetPasswordEmailFailed => "UserResetPasswordEmailFailed"@,
            UserMessage::UserUpdateProfileEmailFailed => "UserUpdateProfileEmailFailed"@,
            UserMessage::UserCreateEmailFailed => "UserCreateEmailFailed"@,
        }
    }

    /// Whether the code reports a success.
    pub open spec fn reports_success(self) -> bool {
        match self {
            UserMessage::UserCreateSuccess | UserMessage::UserUpdateSuccess | UserMessage::UserDeleteSuccess | UserMessage::UserGetProfileSuccess | UserMessage::UserResetPasswordSuccess | UserMessage::UserGetSuccess => true,
            _ => false,
        }
    }

    pub fn as_str(&self) -> (code: &'static str)
        ensures
            code@ == self.name(),
    {
        match self {
            UserMessage::UserCreateSuccess => "UserCreateSuccess",
            UserMessage::UserUpdateSuccess => "UserUpdateSuccess",
            UserMessage::UserDeleteSuccess => "UserDeleteSuccess",
            UserMessage::UserGetProfileSuccess => "UserGetProfileSuccess",
            UserMessage::UserResetPasswordSuccess => "UserResetPasswordSuccess",
            UserMessage::UserGetSuccess => "UserGetSuccess",
            UserMessage::AuthInsertUserIdSessionFailed => "AuthInsertUserIdSessionFailed",
            UserMessage::AuthGetSessionUserIdSessionFailed => "AuthGetSessionUserIdSessionFailed",
            UserMessage::UserCreateFailed => "UserCreateFailed",
            UserMessage::UserNotFound => "UserNotFound",
            UserMessage::UserGetProfileFailed => "UserGetProfileFailed",
            UserMessage::UserDeleteFailed => "UserDeleteFailed",
            UserMessage::InvalidUuid => "InvalidUuid",
            UserMessage::UserUpdateFailed => "UserUpdateFailed",
            UserMessage::NothingToUpdate => "NothingToUpdate",
            UserMessage::UserResetPasswordFailed => "UserResetPasswordFailed",
            UserMessage::UserGetFailed => "UserGetFailed",
            UserMessage::UserResetPasswordEmailFailed => "UserResetPasswordEmailFailed",
            UserMessage::UserUpdateProfileEmailFailed => "UserUpdateProfileEmailFailed",
            UserMessage::UserCreateEmailFailed => "UserCreateEmailFailed",
        }
    }

    pub fn is_success(&self) -> (yes: bool)
        ensures
            yes == self.reports_success(),
    {
        match self {
            UserMessage::UserCreateSuccess | UserMessage::UserUpdateSuccess | UserMessage::UserDeleteSuccess | UserMessage::UserGetProfileSuccess | UserMessage::UserResetPasswordSuccess | UserMessage::UserGetSuccess => true,
            _ => false,
        }
    }
}

} // verus!

//! The codes the authentication endpoints and the session guard answer with.

use vstd::prelude::*;

verus! {

/// The codes the authentication endpoints and the session guard answer with.
#[derive(Debug, Clone, Copy, PartialEq, Eq, Structural)]
pub enum AuthMessage {
    // Success
    AuthSigninSuccess,
    AuthSignoutSuccess,
    // Error
    AuthUserNotFound,
    AuthInsertUserIdSessionFailed,
    AuthPasswordInvalid,
    AuthSigninFailed,
}

impl AuthMessage {
    /// The code as it stands in the `message` field of a response.
    pub open spec fn name(self) -> Seq<char> {
        match self {
            AuthMessage::AuthSigninSuccess => "AuthSigninSuccess"@,
            AuthMessage::AuthSignoutSuccess => "AuthSignoutSuccess"@,
            AuthMessage::AuthUserNotFound => "AuthUserNotFound"@,
            AuthMessage::AuthInsertUserIdSessionFailed => "AuthInsertUserIdSessionFailed"@,
            AuthMessage::AuthPasswordInvalid => "AuthPasswordInvalid"@,
            AuthMessage::AuthSigninFailed => "AuthSigninFailed"@,
        }
    }

    /// Whether the code reports a success.
    pub open spec fn reports_success(self) -> bool {
        match self {
            AuthMessage::AuthSigninSuccess | AuthMessage::AuthSignoutSuccess => true,
            _ => false,
        }
    }

    pub fn as_str(&self) -> (code: &'static str)
        ensures
            code@ == self.name(),
    {
        match self {
            AuthMessage::AuthSigninSuccess => "AuthSigninSuccess",
            AuthMessage::AuthSignoutSuccess => "AuthSignoutSuccess",
            AuthMessage::AuthUserNotFound => "AuthUserNotFound",
            AuthMessage::AuthInsertUserIdSessionFailed => "AuthInsertUserIdSessionFailed",
            AuthMessage::AuthPasswordInvalid => "AuthPasswordInvalid",
            AuthMessage::AuthSigninFailed => "AuthSigninFailed",
        }
    }

    pub fn is_success(&self) -> (yes: bool)
        ensures
            yes == self.reports_success(),
    {
        match self {
            AuthMessage::AuthSigninSuccess | AuthMessage::AuthSignoutSuccess => true,
            _ => false,
        }
    }
}

} // verus!

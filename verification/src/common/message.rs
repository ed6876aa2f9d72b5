//! The code of a response, whichever resource or rule it comes from.

use crate::auth::constants::AuthMessage;
use crate::common::api_res::{api_error, Response, Status, StatusCode};
use crate::common::validators::ValidationMessage;
use crate::otp_code::constants::OtpCodeMessage;
use crate::user::constants::UserMessage;
use crate::words::constants::WordsMessage;
use vstd::prelude::*;

verus! {

/// Any code an endpoint can answer with.
#[derive(Debug, Clone, Copy, PartialEq, Eq, Structural)]
pub enum Message {
    Auth(AuthMessage),
    User(UserMessage),
    OtpCode(OtpCodeMessage),
    Words(WordsMessage),
    Validation(ValidationMessage),
}

impl Message {
    /// The code as it stands in the `message` field of a response.
    pub open spec fn name(self) -> Seq<char> {
        match self {
            Message::Auth(code) => code.name(),
            Message::User(code) => code.name(),
            Message::OtpCode(code) => code.name(),
            Message::Words(code) => code.name(),
            Message::Validation(code) => code.name(),
        }
    }

    /// Whether the code reports a success. No validation code does.
    pub open spec fn reports_success(self) -> bool {
        match self {
            Message::Auth(code) => code.reports_success(),
            Message::User(code) => code.reports_success(),
            Message::OtpCode(code) => code.reports_success(),
            Message::Words(code) => code.reports_success(),
            Message::Validation(_) => false,
        }
    }

    pub fn as_str(&self) -> (code: &'static str)
        ensures
            code@ == self.name(),
    {
        match self {
            Message::Auth(code) => code.as_str(),
            Message::User(code) => code.as_str(),
            Message::OtpCode(code) => code.as_str(),
            Message::Words(code) => code.as_str(),
            Message::Validation(code) => code.as_str(),
        }
    }

    pub fn is_success(&self) -> (yes: bool)
        ensures
            yes == self.reports_success(),
    {
        match self {
            Message::Auth(code) => code.is_success(),
            Message::User(code) => code.is_success(),
            Message::OtpCode(code) => code.is_success(),
            Message::Words(code) => code.is_success(),
            Message::Validation(_) => false,
        }
    }
}

/// The three parts of a response say the same: the HTTP status is 200
/// exactly where the envelope's status is `ok`, which is exactly where the
/// code reports a success; and an envelope that reports an error carries no
/// data.
pub open spec fn coherent<T>(response: Response<T, Message>) -> bool {
    &&& response.consistent()
    &&& (response.body.status == Status::Success <==> response.body.message.reports_success())
}

/// The response to a request body that fails its rules: 400, with the code
/// of the first rule that failed.
pub open spec fn rejection<T>(violations: Seq<ValidationMessage>) -> Response<T, Message> {
    Response::error(StatusCode::BadRequest, Message::Validation(violations[0]))
}

/// Answers a request body that failed its rules.
pub fn reject<T>(errors: &Vec<ValidationMessage>) -> (response: Response<T, Message>)
    requires
        errors@.len() > 0,
    ensures
        response == rejection::<T>(errors@),
        coherent(response),
{
    api_error(StatusCode::BadRequest, Message::Validation(errors[0]))
}

} // verus!

use acme_server::auth::constants::AuthMessage;
use acme_server::common::api_res::{api_error, api_success, ApiResult, Response, Status, StatusCode};
use acme_server::common::message::{reject, Message};
use acme_server::common::validators::ValidationMessage;
use acme_server::otp_code::constants::OtpCodeMessage;
use acme_server::user::constants::UserMessage;
use acme_server::words::constants::WordsMessage;

#[test]
fn error_envelope_has_no_data() {
    let response: Response<u8, UserMessage> =
        api_error(StatusCode::BadRequest, UserMessage::UserNotFound);
    assert_eq!(response.status, StatusCode::BadRequest);
    assert_eq!(
        response.body,
        ApiResult { data: None, message: UserMessage::UserNotFound, status: Status::Error }
    );
}

#[test]
fn success_envelope_carries_the_data() {
    let response = api_success(StatusCode::Success, 7u8, UserMessage::UserGetSuccess);
    assert_eq!(response.status, StatusCode::Success);
    assert_eq!(response.body.data, Some(7u8));
    assert_eq!(response.body.message, UserMessage::UserGetSuccess);
    assert_eq!(response.body.status, Status::Success);
}

#[test]
fn status_codes_are_the_http_numbers() {
    assert_eq!(StatusCode::Success.as_u16(), 200);
    assert_eq!(StatusCode::BadRequest.as_u16(), 400);
    assert_eq!(StatusCode::Unauthorized.as_u16(), 401);
}

#[test]
fn status_names_are_lower_case() {
    assert_eq!(Status::Success.as_str(), "ok");
    assert_eq!(Status::Error.as_str(), "error");
}

#[test]
fn message_names_are_the_variant_names() {
    assert_eq!(AuthMessage::AuthSigninSuccess.as_str(), "AuthSigninSuccess");
    assert_eq!(AuthMessage::AuthSigninFailed.as_str(), "AuthSigninFailed");
    assert_eq!(AuthMessage::AuthPasswordInvalid.as_str(), "AuthPasswordInvalid");
    assert_eq!(UserMessage::UserCreateSuccess.as_str(), "UserCreateSuccess");
    assert_eq!(UserMessage::NothingToUpdate.as_str(), "NothingToUpdate");
    assert_eq!(UserMessage::UserUpdateProfileEmailFailed.as_str(), "UserUpdateProfileEmailFailed");
    assert_eq!(OtpCodeMessage::OtpCodeCreateFailed.as_str(), "OtpCodeCreateFailed");
    assert_eq!(WordsMessage::WordNotFound.as_str(), "WordNotFound");
    assert_eq!(ValidationMessage::ValidateEmailShape.as_str(), "ValidateEmailShape");
    assert_eq!(Message::Words(WordsMessage::WordGetSuccess).as_str(), "WordGetSuccess");
    assert_eq!(Message::Validation(ValidationMessage::InvalidUuid).as_str(), "InvalidUuid");
}

#[test]
fn success_codes_are_told_from_error_codes() {
    assert!(UserMessage::UserDeleteSuccess.is_success());
    assert!(!UserMessage::UserDeleteFailed.is_success());
    assert!(AuthMessage::AuthSignoutSuccess.is_success());
    assert!(!AuthMessage::AuthUserNotFound.is_success());
    assert!(OtpCodeMessage::OtpCodeCreateSuccess.is_success());
    assert!(!WordsMessage::NothingToUpdate.is_success());
    assert!(Message::User(UserMessage::UserGetProfileSuccess).is_success());
    assert!(!Message::Validation(ValidationMessage::ValidateLiteralLength).is_success());
}

#[test]
fn rejection_names_the_first_rule_that_failed() {
    let errors =
        vec![ValidationMessage::ValidatePasswordMinLength, ValidationMessage::ValidateEmailShape];
    let response: Response<(), Message> = reject(&errors);
    assert_eq!(response.status, StatusCode::BadRequest);
    assert_eq!(response.body.data, None);
    assert_eq!(response.body.status, Status::Error);
    assert_eq!(
        response.body.message,
        Message::Validation(ValidationMessage::ValidatePasswordMinLength)
    );
}

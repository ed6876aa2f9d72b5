use acme_server::auth::dto::{SigninDto, SignupDto};
use acme_server::common::validators::{
    check_length, check_optional_length, check_shape, uuid_from_str, uuid_to_string,
    validate_uuid, verdict, ValidationMessage,
};
use acme_server::user::dto::{CreateUserDto, ResetPasswordDto, UpdateUserDto};
use acme_server::words::dto::{WordsCreateDto, WordsUpdateDto};

fn jane() -> CreateUserDto {
    CreateUserDto {
        username: "jane".to_string(),
        password: "password1".to_string(),
        email: "jane@x.com".to_string(),
        first_name: "Jane".to_string(),
        last_name: "Smith".to_string(),
    }
}

fn no_change(user_id: u128) -> UpdateUserDto {
    UpdateUserDto {
        user_id,
        username: None,
        password: None,
        email: None,
        first_name: None,
        last_name: None,
    }
}

#[test]
fn length_bounds_are_inclusive() {
    let mut errors = Vec::new();
    check_length("a", Some(1), Some(255), ValidationMessage::ValidateUsernameLength, &mut errors);
    check_length(
        &"a".repeat(255),
        Some(1),
        Some(255),
        ValidationMessage::ValidateUsernameLength,
        &mut errors,
    );
    assert!(errors.is_empty());
    check_length("", Some(1), Some(255), ValidationMessage::ValidateUsernameLength, &mut errors);
    check_length(
        &"a".repeat(256),
        Some(1),
        Some(255),
        ValidationMessage::ValidateLastNameLength,
        &mut errors,
    );
    assert_eq!(
        errors,
        vec![ValidationMessage::ValidateUsernameLength, ValidationMessage::ValidateLastNameLength]
    );
}

#[test]
fn length_counts_characters_not_bytes() {
    let mut errors = Vec::new();
    // eight characters, sixteen bytes
    check_length(
        "éééééééé",
        Some(8),
        Some(8),
        ValidationMessage::ValidatePasswordMinLength,
        &mut errors,
    );
    assert!(errors.is_empty());
    check_length("ééééééé", Some(8), None, ValidationMessage::ValidatePasswordMinLength, &mut errors);
    assert_eq!(errors, vec![ValidationMessage::ValidatePasswordMinLength]);
}

#[test]
fn absent_optional_field_is_not_checked() {
    let mut errors = Vec::new();
    check_optional_length(
        &None,
        Some(1),
        Some(255),
        ValidationMessage::ValidateFirstNameLength,
        &mut errors,
    );
    assert!(errors.is_empty());
    check_optional_length(
        &Some(String::new()),
        Some(1),
        Some(255),
        ValidationMessage::ValidateFirstNameLength,
        &mut errors,
    );
    assert_eq!(errors, vec![ValidationMessage::ValidateFirstNameLength]);
}

#[test]
fn shape_check_reports_only_a_miss() {
    let mut errors = Vec::new();
    check_shape(true, ValidationMessage::ValidateEmailShape, &mut errors);
    assert!(errors.is_empty());
    check_shape(false, ValidationMessage::ValidateEmailShape, &mut errors);
    assert_eq!(errors, vec![ValidationMessage::ValidateEmailShape]);
}

#[test]
fn verdict_passes_only_an_empty_report() {
    assert_eq!(verdict(Vec::new()), Ok(()));
    assert_eq!(
        verdict(vec![ValidationMessage::InvalidUuid]),
        Err(vec![ValidationMessage::InvalidUuid])
    );
}

#[test]
fn signin_body_rules() {
    let good = SigninDto { username: "jane".to_string(), password: "password1".to_string() };
    assert_eq!(good.validate(), Ok(()));
    let bad = SigninDto { username: String::new(), password: "short".to_string() };
    assert_eq!(
        bad.validate(),
        Err(vec![
            ValidationMessage::ValidateUsernameLength,
            ValidationMessage::ValidatePasswordMinLength
        ])
    );
    let seven = SigninDto { username: "jane".to_string(), password: "1234567".to_string() };
    assert_eq!(seven.validate(), Err(vec![ValidationMessage::ValidatePasswordMinLength]));
    let eight = SigninDto { username: "jane".to_string(), password: "12345678".to_string() };
    assert_eq!(eight.validate(), Ok(()));
}

#[test]
fn signup_body_rules() {
    let good = SignupDto {
        username: "jane".to_string(),
        password: "password1".to_string(),
        email: "not an address".to_string(),
        first_name: "Jane".to_string(),
        last_name: "Smith".to_string(),
    };
    assert_eq!(good.validate(), Ok(()));
    let bad = SignupDto {
        username: "j".repeat(256),
        password: "pw".to_string(),
        email: String::new(),
        first_name: String::new(),
        last_name: String::new(),
    };
    assert_eq!(
        bad.validate(),
        Err(vec![
            ValidationMessage::ValidateUsernameLength,
            ValidationMessage::ValidatePasswordMinLength,
            ValidationMessage::ValidateEmailLength,
            ValidationMessage::ValidateFirstNameLength,
            ValidationMessage::ValidateLastNameLength,
        ])
    );
}

#[test]
fn create_user_body_rules() {
    assert_eq!(jane().validate(), Ok(()));

    let mut no_at = jane();
    no_at.email = "jane.x.com".to_string();
    assert_eq!(no_at.validate(), Err(vec![ValidationMessage::ValidateEmailShape]));

    let mut empty_email = jane();
    empty_email.email = String::new();
    assert_eq!(
        empty_email.validate(),
        Err(vec![ValidationMessage::ValidateEmailLength, ValidationMessage::ValidateEmailShape])
    );

    let all_wrong = CreateUserDto {
        username: String::new(),
        password: "1234567".to_string(),
        email: "@".to_string(),
        first_name: String::new(),
        last_name: "s".repeat(256),
    };
    assert_eq!(
        all_wrong.validate(),
        Err(vec![
            ValidationMessage::ValidateUsernameLength,
            ValidationMessage::ValidatePasswordMinLength,
            ValidationMessage::ValidateEmailShape,
            ValidationMessage::ValidateFirstNameLength,
            ValidationMessage::ValidateLastNameLength,
        ])
    );
}

#[test]
fn create_user_check_takes_the_shape_answer_as_given() {
    assert_eq!(jane().check(true), Vec::new());
    assert_eq!(jane().check(false), vec![ValidationMessage::ValidateEmailShape]);
}

#[test]
fn update_user_body_checks_only_present_fields() {
    assert_eq!(no_change(1).validate(), Ok(()));

    let mut one = no_change(1);
    one.first_name = Some("Janet".to_string());
    assert_eq!(one.validate(), Ok(()));

    let mut bad = no_change(1);
    bad.password = Some("short".to_string());
    bad.email = Some("nobody".to_string());
    bad.last_name = Some(String::new());
    assert_eq!(
        bad.validate(),
        Err(vec![
            ValidationMessage::ValidatePasswordMinLength,
            ValidationMessage::ValidateEmailShape,
            ValidationMessage::ValidateLastNameLength,
        ])
    );
    assert_eq!(one.check(false), vec![ValidationMessage::ValidateEmailShape]);
}

#[test]
fn words_body_rules() {
    let good = WordsCreateDto {
        category: "ab".to_string(),
        literal: "h".to_string(),
        user_id: 1,
        language: "es".to_string(),
        translated: String::new(),
    };
    assert_eq!(good.validate(), Ok(()));
    let bad = WordsCreateDto {
        category: "a".to_string(),
        literal: String::new(),
        user_id: 1,
        language: "es".to_string(),
        translated: String::new(),
    };
    assert_eq!(
        bad.validate(),
        Err(vec![
            ValidationMessage::ValidateCategoryLength,
            ValidationMessage::ValidateLiteralLength
        ])
    );
    let long = WordsCreateDto {
        category: "c".repeat(51),
        literal: "l".repeat(255),
        user_id: 1,
        language: "es".to_string(),
        translated: String::new(),
    };
    assert_eq!(long.validate(), Err(vec![ValidationMessage::ValidateCategoryLength]));

    let update = WordsUpdateDto {
        category: None,
        literal: Some("l".repeat(256)),
        word_id: None,
        language: None,
        translated: None,
    };
    assert_eq!(update.validate(), Err(vec![ValidationMessage::ValidateLiteralLength]));
    let nothing = WordsUpdateDto {
        category: None,
        literal: None,
        word_id: None,
        language: None,
        translated: None,
    };
    assert_eq!(nothing.validate(), Ok(()));
}

#[test]
fn uuid_shape_is_decided_by_parsing() {
    assert_eq!(validate_uuid("550e8400-e29b-41d4-a716-446655440000"), Ok(()));
    assert_eq!(validate_uuid("550e8400e29b41d4a716446655440000"), Ok(()));
    assert_eq!(validate_uuid("not-a-uuid"), Err(ValidationMessage::InvalidUuid));
    assert_eq!(validate_uuid(""), Err(ValidationMessage::InvalidUuid));
    assert_eq!(
        uuid_from_str("a1a2a3a4-b1b2-c1c2-d1d2-d3d4d5d6d7d8"),
        Some(0xa1a2a3a4b1b2c1c2d1d2d3d4d5d6d7d8u128)
    );
    assert_eq!(uuid_from_str("a1a2a3a4-b1b2-c1c2-d1d2"), None);
}

#[test]
fn uuid_text_is_hyphenated_and_reads_back() {
    let id = 0xa1a2a3a4b1b2c1c2d1d2d3d4d5d6d7d8u128;
    let text = uuid_to_string(id);
    assert_eq!(text, "a1a2a3a4-b1b2-c1c2-d1d2-d3d4d5d6d7d8");
    assert_eq!(uuid_from_str(&text), Some(id));
    assert_eq!(uuid_to_string(0), "00000000-0000-0000-0000-000000000000");
}

#[test]
fn reset_body_needs_a_uuid() {
    let good = ResetPasswordDto { user_id: "550e8400-e29b-41d4-a716-446655440000".to_string() };
    assert_eq!(good.validate(), Ok(()));
    let bad = ResetPasswordDto { user_id: "jane".to_string() };
    assert_eq!(bad.validate(), Err(vec![ValidationMessage::InvalidUuid]));
}

//! The request bodies of the authentication endpoints.

use crate::common::validators::{check_length, length_violation, verdict, ValidationMessage};
use vstd::prelude::*;

verus! {

/// The body of a sign-in request.
#[derive(Debug, Clone, PartialEq, Eq)]
pub struct SigninDto {
    pub username: String,
    pub password: String,
}

impl SigninDto {
    /// What the rules report, in the order of the fields.
    pub open spec fn violations(self) -> Seq<ValidationMessage> {
        length_violation(
            self.username@,
            Some(1),
            Some(255),
            ValidationMessage::ValidateUsernameLength,
        ) + length_violation(
            self.password@,
            Some(8),
            None,
            ValidationMessage::ValidatePasswordMinLength,
        )
    }

    pub open spec fn is_valid(self) -> bool {
        self.violations().len() == 0
    }

    /// Holds the body to its rules: a username of 1 to 255 characters and a
    /// password of at least 8.
    pub fn validate(&self) -> (checked: Result<(), Vec<ValidationMessage>>)
        ensures
            checked is Ok <==> self.is_valid(),
            checked matches Err(errors) ==> errors@ == self.violations(),
    {
        let mut errors: Vec<ValidationMessage> = Vec::new();
        check_length(
            self.username.as_str(),
            Some(1),
            Some(255),
            ValidationMessage::ValidateUsernameLength,
            &mut errors,
        );
        check_length(
            self.password.as_str(),
            Some(8),
            None,
            ValidationMessage::ValidatePasswordMinLength,
            &mut errors,
        );
        assert(errors@ =~= self.violations());
        verdict(errors)
    }
}

/// The body of a sign-up request.
#[derive(Debug, Clone, PartialEq, Eq)]
pub struct SignupDto {
    pub username: String,
    pub password: String,
    pub email: String,
    pub first_name: String,
    pub last_name: String,
}

impl SignupDto {
    /// What the rules report, in the order of the fields.
    pub open spec fn violations(self) -> Seq<ValidationMessage> {
        length_violation(
            self.username@,
            Some(1),
            Some(255),
            ValidationMessage::ValidateUsernameLength,
        ) + length_violation(
            self.password@,
            Some(8),
            None,
            ValidationMessage::ValidatePasswordMinLength,
        ) + length_violation(self.email@, Some(1), Some(255), ValidationMessage::ValidateEmailLength)
            + length_violation(
            self.first_name@,
            Some(1),
            Some(255),
            ValidationMessage::ValidateFirstNameLength,
        ) + length_violation(
            self.last_name@,
            Some(1),
            Some(255),
            ValidationMessage::ValidateLastNameLength,
        )
    }

    pub open spec fn is_valid(self) -> bool {
        self.violations().len() == 0
    }

    /// Holds the body to its rules: each name and the email of 1 to 255
    /// characters, the password of at least 8.
    pub fn validate(&self) -> (checked: Result<(), Vec<ValidationMessage>>)
        ensures
            checked is Ok <==> self.is_valid(),
            checked matches Err(errors) ==> errors@ == self.violations(),
    {
        let mut errors: Vec<ValidationMessage> = Vec::new();
        check_length(
            self.username.as_str(),
            Some(1),
            Some(255),
            ValidationMessage::ValidateUsernameLength,
            &mut errors,
        );
        check_length(
            self.password.as_str(),
            Some(8),
            None,
            ValidationMessage::ValidatePasswordMinLength,
            &mut errors,
        );
        check_length(
            self.email.as_str(),
            Some(1),
            Some(255),
            ValidationMessage::ValidateEmailLength,
            &mut errors,
        );
        check_length(
            self.first_name.as_str(),
            Some(1),
            Some(255),
            ValidationMessage::ValidateFirstNameLength,
            &mut errors,
        );
        check_length(
            self.last_name.as_str(),
            Some(1),
            Some(255),
            ValidationMessage::ValidateLastNameLength,
            &mut errors,
        );
        assert(errors@ =~= self.violations());
        verdict(errors)
    }
}

} // verus!

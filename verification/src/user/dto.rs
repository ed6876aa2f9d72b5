//! The request bodies of the user endpoints.

use crate::common::validators::{
    check_length, check_optional_length, check_shape, email_shaped, has_email_shape,
    length_violation, optional_length_violation, shape_violation, text_of, uuid_from_str,
    uuid_value, verdict, ValidationMessage,
};
use vstd::prelude::*;

verus! {

/// The body of a request to create a user.
#[derive(Debug, Clone, PartialEq, Eq)]
pub struct CreateUserDto {
    pub username: String,
    pub password: String,
    pub email: String,
    pub first_name: String,
    pub last_name: String,
}

impl CreateUserDto {
    /// What the rules report, in the order of the fields, given whether the
    /// email has the shape of an address.
    pub open spec fn violations_given(self, email_ok: bool) -> Seq<ValidationMessage> {
        length_violation(
            self.username@,
            Some(1),
            Some(255),
            ValidationMessage::ValidateUsernameLength,
        ) + length_violation(
            self.password@,
            Some(8),
            None,
            ValidationMessage::ValidatePasswordMinLength,
        ) + length_violation(self.email@, Some(1), Some(255), ValidationMessage::ValidateEmailLength)
            + shape_violation(email_ok, ValidationMessage::ValidateEmailShape) + length_violation(
            self.first_name@,
            Some(1),
            Some(255),
            ValidationMessage::ValidateFirstNameLength,
        ) + length_violation(
            self.last_name@,
            Some(1),
            Some(255),
            ValidationMessage::ValidateLastNameLength,
        )
    }

    pub open spec fn violations(self) -> Seq<ValidationMessage> {
        self.violations_given(email_shaped(self.email@))
    }

    pub open spec fn is_valid(self) -> bool {
        self.violations().len() == 0
    }

    /// Runs the rules with the answer of the email shape check handed in.
    pub fn check(&self, email_ok: bool) -> (errors: Vec<ValidationMessage>)
        ensures
            errors@ == self.violations_given(email_ok),
    {
        let mut errors: Vec<ValidationMessage> = Vec::new();
        check_length(
            self.username.as_str(),
            Some(1),
            Some(255),
            ValidationMessage::ValidateUsernameLength,
            &mut errors,
        );
        check_length(
            self.password.as_str(),
            Some(8),
            None,
            ValidationMessage::ValidatePasswordMinLength,
            &mut errors,
        );
        check_length(
            self.email.as_str(),
            Some(1),
            Some(255),
            ValidationMessage::ValidateEmailLength,
            &mut errors,
        );
        check_shape(email_ok, ValidationMessage::ValidateEmailShape, &mut errors);
        check_length(
            self.first_name.as_str(),
            Some(1),
            Some(255),
            ValidationMessage::ValidateFirstNameLength,
            &mut errors,
        );
        check_length(
            self.last_name.as_str(),
            Some(1),
            Some(255),
            ValidationMessage::ValidateLastNameLength,
            &mut errors,
        );
        assert(errors@ =~= self.violations_given(email_ok));
        errors
    }

    /// Holds the body to its rules: each name and the email of 1 to 255
    /// characters, the email shaped as an address, the password of at least
    /// 8 characters.
    pub fn validate(&self) -> (checked: Result<(), Vec<ValidationMessage>>)
        ensures
            checked is Ok <==> self.is_valid(),
            checked matches Err(errors) ==> errors@ == self.violations(),
    {
        let email_ok = has_email_shape(self.email.as_str());
        verdict(self.check(email_ok))
    }
}

/// The body of a request to update a user: the id and any subset of the
/// fields.
#[derive(Debug, Clone, PartialEq, Eq)]
pub struct UpdateUserDto {
    pub user_id: u128,
    pub username: Option<String>,
    pub password: Option<String>,
    pub email: Option<String>,
    pub first_name: Option<String>,
    pub last_name: Option<String>,
}

impl UpdateUserDto {
    /// Whether the email passes the shape rule: an absent one does.
    pub open spec fn email_ok(self) -> bool {
        match self.email {
            Some(email) => email_shaped(email@),
            None => true,
        }
    }

    /// What the rules report, in the order of the fields, given whether the
    /// email passes the shape rule.
    pub open spec fn violations_given(self, email_ok: bool) -> Seq<ValidationMessage> {
        optional_length_violation(
            text_of(self.username),
            Some(1),
            Some(255),
            ValidationMessage::ValidateUsernameLength,
        ) + optional_length_violation(
            text_of(self.password),
            Some(8),
            None,
            ValidationMessage::ValidatePasswordMinLength,
        ) + optional_length_violation(
            text_of(self.email),
            Some(1),
            Some(255),
            ValidationMessage::ValidateEmailLength,
        ) + shape_violation(email_ok, ValidationMessage::ValidateEmailShape)
            + optional_length_violation(
            text_of(self.first_name),
            Some(1),
            Some(255),
            ValidationMessage::ValidateFirstNameLength,
        ) + optional_length_violation(
            text_of(self.last_name),
            Some(1),
            Some(255),
            ValidationMessage::ValidateLastNameLength,
        )
    }

    pub open spec fn violations(self) -> Seq<ValidationMessage> {
        self.violations_given(self.email_ok())
    }

    pub open spec fn is_valid(self) -> bool {
        self.violations().len() == 0
    }

    /// Whether no field to update is present.
    pub open spec fn is_empty(self) -> bool {
        &&& self.username is None
        &&& self.password is None
        &&& self.email is None
        &&& self.first_name is None
        &&& self.last_name is None
    }

    /// Runs the rules with the answer of the email shape check handed in.
    pub fn check(&self, email_ok: bool) -> (errors: Vec<ValidationMessage>)
        ensures
            errors@ == self.violations_given(email_ok),
    {
        let mut errors: Vec<ValidationMessage> = Vec::new();
        check_optional_length(
            &self.username,
            Some(1),
            Some(255),
            ValidationMessage::ValidateUsernameLength,
            &mut errors,
        );
        check_optional_length(
            &self.password,
            Some(8),
            None,
            ValidationMessage::ValidatePasswordMinLength,
            &mut errors,
        );
        check_optional_length(
            &self.email,
            Some(1),
            Some(255),
            ValidationMessage::ValidateEmailLength,
            &mut errors,
        );
        check_shape(email_ok, ValidationMessage::ValidateEmailShape, &mut errors);
        check_optional_length(
            &self.first_name,
            Some(1),
            Some(255),
            ValidationMessage::ValidateFirstNameLength,
            &mut errors,
        );
        check_optional_length(
            &self.last_name,
            Some(1),
            Some(255),
            ValidationMessage::ValidateLastNameLength,
            &mut errors,
        );
        assert(errors@ =~= self.violations_given(email_ok));
        errors
    }

    /// Holds the body to its rules. Only the fields that are present are
    /// checked, each by the rule it has in a create request.
    pub fn validate(&self) -> (checked: Result<(), Vec<ValidationMessage>>)
        ensures
            checked is Ok <==> self.is_valid(),
            checked matches Err(errors) ==> errors@ == self.violations(),
    {
        let email_ok = match &self.email {
            Some(email) => has_email_shape(email.as_str()),
            None => true,
        };
        verdict(self.check(email_ok))
    }
}

/// The body of a request to delete a user.
#[derive(Debug, Clone, PartialEq, Eq)]
pub struct DeleteUserDto {
    pub user_id: u128,
}

/// The body of a request for a password reset. The id arrives as text.
#[derive(Debug, Clone, PartialEq, Eq)]
pub struct ResetPasswordDto {
    pub user_id: String,
}

impl ResetPasswordDto {
    pub open spec fn violations(self) -> Seq<ValidationMessage> {
        shape_violation(uuid_value(self.user_id@) is Some, ValidationMessage::InvalidUuid)
    }

    pub open spec fn is_valid(self) -> bool {
        self.violations().len() == 0
    }

    /// Holds the body to its one rule: the id has the shape of a UUID.
    pub fn validate(&self) -> (checked: Result<(), Vec<ValidationMessage>>)
        ensures
            checked is Ok <==> self.is_valid(),
            checked matches Err(errors) ==> errors@ == self.violations(),
    {
        let mut errors: Vec<ValidationMessage> = Vec::new();
        let parsed = uuid_from_str(self.user_id.as_str());
        check_shape(parsed.is_some(), ValidationMessage::InvalidUuid, &mut errors);
        assert(errors@ =~= self.violations());
        verdict(errors)
    }
}

} // verus!

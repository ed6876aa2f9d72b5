//! The request bodies of the word endpoints.

use crate::common::validators::{
    check_length, check_optional_length, length_violation, optional_length_violation, text_of,
    verdict, ValidationMessage,
};
use vstd::prelude::*;

verus! {

/// The body of a request to create a word. `translated` is never read from
/// the client: the handler fills it from the translation service.
#[derive(Debug, Clone, PartialEq, Eq)]
pub struct WordsCreateDto {
    pub category: String,
    pub literal: String,
    pub user_id: u128,
    pub language: String,
    pub translated: String,
}

impl WordsCreateDto {
    /// What the rules report, in the order of the fields.
    pub open spec fn violations(self) -> Seq<ValidationMessage> {
        length_violation(
            self.category@,
            Some(2),
            Some(50),
            ValidationMessage::ValidateCategoryLength,
        ) + length_violation(
            self.literal@,
            Some(1),
            Some(255),
            ValidationMessage::ValidateLiteralLength,
        )
    }

    pub open spec fn is_valid(self) -> bool {
        self.violations().len() == 0
    }

    /// Holds the body to its rules: a category of 2 to 50 characters and a
    /// literal of 1 to 255.
    pub fn validate(&self) -> (checked: Result<(), Vec<ValidationMessage>>)
        ensures
            checked is Ok <==> self.is_valid(),
            checked matches Err(errors) ==> errors@ == self.violations(),
    {
        let mut errors: Vec<ValidationMessage> = Vec::new();
        check_length(
            self.category.as_str(),
            Some(2),
            Some(50),
            ValidationMessage::ValidateCategoryLength,
            &mut errors,
        );
        check_length(
            self.literal.as_str(),
            Some(1),
            Some(255),
            ValidationMessage::ValidateLiteralLength,
            &mut errors,
        );
        assert(errors@ =~= self.violations());
        verdict(errors)
    }
}

/// The body of a request to delete a word: the word and the user who asks.
#[derive(Debug, Clone, PartialEq, Eq)]
pub struct WordsDeleteDto {
    pub user_id: u128,
    pub id: u128,
}

/// The body of a request to update a word. Only the category is written.
#[derive(Debug, Clone, PartialEq, Eq)]
pub struct WordsUpdateDto {
    pub category: Option<String>,
    pub literal: Option<String>,
    pub word_id: Option<u128>,
    pub language: Option<String>,
    pub translated: Option<String>,
}

impl WordsUpdateDto {
    /// What the rules report, in the order of the fields.
    pub open spec fn violations(self) -> Seq<ValidationMessage> {
        optional_length_violation(
            text_of(self.category),
            Some(2),
            Some(50),
            ValidationMessage::ValidateCategoryLength,
        ) + optional_length_violation(
            text_of(self.literal),
            Some(1),
            Some(255),
            ValidationMessage::ValidateLiteralLength,
        )
    }

    pub open spec fn is_valid(self) -> bool {
        self.violations().len() == 0
    }

    /// Holds the body to its rules. Only the fields that are present are
    /// checked.
    pub fn validate(&self) -> (checked: Result<(), Vec<ValidationMessage>>)
        ensures
            checked is Ok <==> self.is_valid(),
            checked matches Err(errors) ==> errors@ == self.violations(),
    {
        let mut errors: Vec<ValidationMessage> = Vec::new();
        check_optional_length(
            &self.category,
            Some(2),
            Some(50),
            ValidationMessage::ValidateCategoryLength,
            &mut errors,
        );
        check_optional_length(
            &self.literal,
            Some(1),
            Some(255),
            ValidationMessage::ValidateLiteralLength,
            &mut errors,
        );
        assert(errors@ =~= self.violations());
        verdict(errors)
    }
}

} // verus!

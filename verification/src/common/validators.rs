//! The rules a request body is held to before any handler runs: length
//! bounds, the shape of an email address, the shape of a UUID.

use validator::{ValidateEmail, ValidateLength};
use vstd::prelude::*;

verus! {

/// The codes a rejected request body is answered with, one per rule.
#[derive(Debug, Clone, Copy, PartialEq, Eq, Structural)]
pub enum ValidationMessage {
    ValidateUsernameLength,
    ValidatePasswordMinLength,
    ValidateEmailLength,
    ValidateEmailShape,
    ValidateFirstNameLength,
    ValidateLastNameLength,
    ValidateCategoryLength,
    ValidateLiteralLength,
    InvalidUuid,
}

impl ValidationMessage {
    /// The code as it stands in the `message` field of a response.
    pub open spec fn name(self) -> Seq<char> {
        match self {
            ValidationMessage::ValidateUsernameLength => "ValidateUsernameLength"@,
            ValidationMessage::ValidatePasswordMinLength => "ValidatePasswordMinLength"@,
            ValidationMessage::ValidateEmailLength => "ValidateEmailLength"@,
            ValidationMessage::ValidateEmailShape => "ValidateEmailShape"@,
            ValidationMessage::ValidateFirstNameLength => "ValidateFirstNameLength"@,
            ValidationMessage::ValidateLastNameLength => "ValidateLastNameLength"@,
            ValidationMessage::ValidateCategoryLength => "ValidateCategoryLength"@,
            ValidationMessage::ValidateLiteralLength => "ValidateLiteralLength"@,
            ValidationMessage::InvalidUuid => "InvalidUuid"@,
        }
    }

    pub fn as_str(&self) -> (code: &'static str)
        ensures
            code@ == self.name(),
    {
        match self {
            ValidationMessage::ValidateUsernameLength => "ValidateUsernameLength",
            ValidationMessage::ValidatePasswordMinLength => "ValidatePasswordMinLength",
            ValidationMessage::ValidateEmailLength => "ValidateEmailLength",
            ValidationMessage::ValidateEmailShape => "ValidateEmailShape",
            ValidationMessage::ValidateFirstNameLength => "ValidateFirstNameLength",
            ValidationMessage::ValidateLastNameLength => "ValidateLastNameLength",
            ValidationMessage::ValidateCategoryLength => "ValidateCategoryLength",
            ValidationMessage::ValidateLiteralLength => "ValidateLiteralLength",
            ValidationMessage::InvalidUuid => "InvalidUuid",
        }
    }
}

/// A text of `len` characters lies within the inclusive bounds; an absent
/// bound does not constrain.
pub open spec fn length_within(len: nat, min: Option<u64>, max: Option<u64>) -> bool {
    &&& (min matches Some(least) ==> len >= least)
    &&& (max matches Some(most) ==> len <= most)
}

/// What the length rule reports for one field: nothing, or its code.
pub open spec fn length_violation(
    text: Seq<char>,
    min: Option<u64>,
    max: Option<u64>,
    code: ValidationMessage,
) -> Seq<ValidationMessage> {
    if length_within(text.len(), min, max) {
        seq![]
    } else {
        seq![code]
    }
}

/// The length rule on an optional field: an absent field is not checked.
pub open spec fn optional_length_violation(
    text: Option<Seq<char>>,
    min: Option<u64>,
    max: Option<u64>,
    code: ValidationMessage,
) -> Seq<ValidationMessage> {
    match text {
        Some(text) => length_violation(text, min, max, code),
        None => seq![],
    }
}

/// The text of an optional field, if the field is present.
pub open spec fn text_of(field: Option<String>) -> Option<Seq<char>> {
    match field {
        Some(text) => Some(text@),
        None => None,
    }
}

/// What the shape rule reports, given whether the text has the shape.
pub open spec fn shape_violation(shaped: bool, code: ValidationMessage) -> Seq<ValidationMessage> {
    if shaped {
        seq![]
    } else {
        seq![code]
    }
}

/// Whether `validator` takes the text for an email address.
pub uninterp spec fn email_shaped(text: Seq<char>) -> bool;

/// The 128-bit value `uuid` reads from the text, where it reads one.
pub uninterp spec fn uuid_value(text: Seq<char>) -> Option<u128>;

/// The text `uuid` writes an id as.
pub uninterp spec fn uuid_text(id: u128) -> Seq<char>;

#[verifier::external_type_specification]
#[verifier::external_body]
pub struct ExUuidError(uuid::Error);

/// `validator::ValidateLength::validate_length` on a string, with no `equal`
/// bound. The crate counts the string's characters and compares the count
/// with each bound that is given, both inclusive.
#[verifier::external_body]
fn has_length_within(value: &str, min: Option<u64>, max: Option<u64>) -> (ok: bool)
    ensures
        ok == length_within(value@.len(), min, max),
{
    value.validate_length(min, max, None)
}

/// `validator::ValidateEmail::validate_email` on a string. The answer depends
/// on the text alone; it is named, not spelled out.
#[verifier::external_body]
pub(crate) fn has_email_shape(value: &str) -> (ok: bool)
    ensures
        ok == email_shaped(value@),
{
    value.validate_email()
}

/// `uuid::Uuid::parse_str`, the parsed id handed back as the 128-bit value
/// that `Uuid::as_u128` gives. Whether and to what the text parses depends on
/// the text alone.
#[verifier::external_body]
fn parse_uuid(text: &str) -> (parsed: Result<u128, uuid::Error>)
    ensures
        match parsed {
            Ok(id) => uuid_value(text@) == Some(id),
            Err(_) => uuid_value(text@) is None,
        },
{
    match uuid::Uuid::parse_str(text) {
        Ok(id) => Ok(id.as_u128()),
        Err(e) => Err(e),
    }
}

/// `Display` of `uuid::Uuid`, on the id that `Uuid::from_u128` makes of the
/// value. The text depends on the value alone, and `Uuid::parse_str` reads
/// every text the crate writes back to the id it was written from.
#[verifier::external_body]
fn format_uuid(id: u128) -> (text: String)
    ensures
        text@ == uuid_text(id),
        uuid_value(text@) == Some(id),
{
    uuid::Uuid::from_u128(id).to_string()
}

/// Writes an id as text.
pub fn uuid_to_string(id: u128) -> (text: String)
    ensures
        text@ == uuid_text(id),
        uuid_value(text@) == Some(id),
{
    format_uuid(id)
}

/// Applies the length rule to one field and appends what it reports.
pub fn check_length(
    value: &str,
    min: Option<u64>,
    max: Option<u64>,
    code: ValidationMessage,
    errors: &mut Vec<ValidationMessage>,
)
    ensures
        final(errors)@ == old(errors)@ + length_violation(value@, min, max, code),
{
    if !has_length_within(value, min, max) {
        errors.push(code);
    }
}

/// Applies the length rule to an optional field: only a present one is
/// checked.
pub fn check_optional_length(
    value: &Option<String>,
    min: Option<u64>,
    max: Option<u64>,
    code: ValidationMessage,
    errors: &mut Vec<ValidationMessage>,
)
    ensures
        final(errors)@ == old(errors)@ + optional_length_violation(text_of(*value), min, max, code),
{
    match value {
        Some(text) => check_length(text.as_str(), min, max, code, errors),
        None => {},
    }
}

/// Appends the code of a shape rule unless the text has the shape.
pub fn check_shape(shaped: bool, code: ValidationMessage, errors: &mut Vec<ValidationMessage>)
    ensures
        final(errors)@ == old(errors)@ + shape_violation(shaped, code),
{
    if !shaped {
        errors.push(code);
    }
}

/// The id a text stands for, if it has the shape of a UUID.
pub fn uuid_from_str(id: &str) -> (parsed: Option<u128>)
    ensures
        parsed == uuid_value(id@),
{
    match parse_uuid(id) {
        Ok(value) => Some(value),
        Err(_) => None,
    }
}

/// The UUID shape rule: the text must parse as a UUID.
pub fn validate_uuid(id: &str) -> (checked: Result<(), ValidationMessage>)
    ensures
        checked == (if uuid_value(id@) is Some {
            Ok::<(), ValidationMessage>(())
        } else {
            Err(ValidationMessage::InvalidUuid)
        }),
{
    match uuid_from_str(id) {
        Some(_) => Ok(()),
        None => Err(ValidationMessage::InvalidUuid),
    }
}

/// Closes a run of checks: no report is a pass, any report a rejection.
pub fn verdict(errors: Vec<ValidationMessage>) -> (checked: Result<(), Vec<ValidationMessage>>)
    ensures
        checked == (if errors@.len() == 0 {
            Ok::<(), Vec<ValidationMessage>>(())
        } else {
            Err(errors)
        }),
{
    if errors.len() == 0 {
        Ok(())
    } else {
        Err(errors)
    }
}

} // verus!

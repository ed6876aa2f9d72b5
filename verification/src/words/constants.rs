//! The codes the word endpoints answer with.

use vstd::prelude::*;

verus! {

/// The codes the word endpoints answer with.
#[derive(Debug, Clone, Copy, PartialEq, Eq, Structural)]
pub enum WordsMessage {
    // Success
    WordGetSuccess,
    WordCreateSuccess,
    WordUpdateSuccess,
    WordDeleteSuccess,
    // Error
    WordGetFailed,
    WordCreateFailed,
    WordUpdateFailed,
    WordDeleteFailed,
    WordNotFound,
    NothingToUpdate,
}

impl WordsMessage {
    /// The code as it stands in the `message` field of a response.
    pub open spec fn name(self) -> Seq<char> {
        match self {
            WordsMessage::WordGetSuccess => "WordGetSuccess"@,
            WordsMessage::WordCreateSuccess => "WordCreateSuccess"@,
            WordsMessage::WordUpdateSuccess => "WordUpdateSuccess"@,
            WordsMessage::WordDeleteSuccess => "WordDeleteSuccess"@,
            WordsMessage::WordGetFailed => "WordGetFailed"@,
            WordsMessage::WordCreateFailed => "WordCreateFailed"@,
            WordsMessage::WordUpdateFailed => "WordUpdateFailed"@,
            WordsMessage::WordDeleteFailed => "WordDeleteFailed"@,
            WordsMessage::WordNotFound => "WordNotFound"@,
            WordsMessage::NothingToUpdate => "NothingToUpdate"@,
        }
    }

    /// Whether the code reports a success.
    pub open spec fn reports_success(self) -> bool {
        match self {
            WordsMessage::WordGetSuccess | WordsMessage::WordCreateSuccess | WordsMessage::WordUpdateSuccess | WordsMessage::WordDeleteSuccess => true,
            _ => false,
        }
    }

    pub fn as_str(&self) -> (code: &'static str)
        ensures
            code@ == self.name(),
    {
        match self {
            WordsMessage::WordGetSuccess => "WordGetSuccess",
            WordsMessage::WordCreateSuccess => "WordCreateSuccess",
            WordsMessage::WordUpdateSuccess => "WordUpdateSuccess",
            WordsMessage::WordDeleteSuccess => "WordDeleteSuccess",
            WordsMessage::WordGetFailed => "WordGetFailed",
            WordsMessage::WordCreateFailed => "WordCreateFailed",
            WordsMessage::WordUpdateFailed => "WordUpdateFailed",
            WordsMessage::WordDeleteFailed => "WordDeleteFailed",
            WordsMessage::WordNotFound => "WordNotFound",
            WordsMessage::NothingToUpdate => "NothingToUpdate",
        }
    }

    pub fn is_success(&self) -> (yes: bool)
        ensures
            yes == self.reports_success(),
    {
        match self {
            WordsMessage::WordGetSuccess | WordsMessage::WordCreateSuccess | WordsMessage::WordUpdateSuccess | WordsMessage::WordDeleteSuccess => true,
            _ => false,
        }
    }
}

} // verus!

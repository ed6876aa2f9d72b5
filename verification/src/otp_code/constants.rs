//! The codes the one-time-code service answers with.

use vstd::prelude::*;

verus! {

/// The codes the one-time-code service answers with.
#[derive(Debug, Clone, Copy, PartialEq, Eq, Structural)]
pub enum OtpCodeMessage {
    // Success
    OtpCodeCreateSuccess,
    // Error
    OtpCodeCreateFailed,
}

impl OtpCodeMessage {
    /// The code as it stands in the `message` field of a response.
    pub open spec fn name(self) -> Seq<char> {
        match self {
            OtpCodeMessage::OtpCodeCreateSuccess => "OtpCodeCreateSuccess"@,
            OtpCodeMessage::OtpCodeCreateFailed => "OtpCodeCreateFailed"@,
        }
    }

    /// Whether the code reports a success.
    pub open spec fn reports_success(self) -> bool {
        match self {
            OtpCodeMessage::OtpCodeCreateSuccess => true,
            _ => false,
        }
    }

    pub fn as_str(&self) -> (code: &'static str)
        ensures
            code@ == self.name(),
    {
        match self {
            OtpCodeMessage::OtpCodeCreateSuccess => "OtpCodeCreateSuccess",
            OtpCodeMessage::OtpCodeCreateFailed => "OtpCodeCreateFailed",
        }
    }

    pub fn is_success(&self) -> (yes: bool)
        ensures
            yes == self.reports_success(),
    {
        match self {
            OtpCodeMessage::OtpCodeCreateSuccess => true,
            _ => false,
        }
    }
}

} // verus!

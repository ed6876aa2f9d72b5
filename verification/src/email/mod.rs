//! What the mailer is asked to send.

use vstd::prelude::*;

pub mod emails;

verus! {

/// Who every email is from.
pub const SENDER: &'static str = "Acme App <admin@example.com>";

/// The subject every email goes out under.
pub const SUBJECT: &'static str = "Reset Password";

/// An HTML email, ready for the mailer.
#[derive(Debug, Clone, PartialEq, Eq)]
pub struct Mail {
    pub from: String,
    pub to: String,
    pub subject: String,
    pub html: String,
}

/// Why an email cannot be handed to the mailer.
#[derive(Debug, Clone, Copy, PartialEq, Eq, Structural)]
pub enum MailError {
    /// The recipient is no mailbox.
    InvalidRecipient,
}

#[verifier::external_type_specification]
#[verifier::external_body]
pub struct ExMailbox(lettre::message::Mailbox);

#[verifier::external_type_specification]
#[verifier::external_body]
pub struct ExAddressError(lettre::address::AddressError);

/// Whether `lettre` reads the text as a mailbox: an address, with or without
/// a name before it.
pub uninterp spec fn is_mailbox(text: Seq<char>) -> bool;

/// `str::parse` into a `lettre::message::Mailbox`. Whether the text is read
/// as one depends on the text alone.
#[verifier::external_body]
fn parse_mailbox(text: &str) -> (parsed: Result<lettre::message::Mailbox, lettre::address::AddressError>)
    ensures
        (parsed is Ok) == is_mailbox(text@),
{
    text.parse::<lettre::message::Mailbox>()
}

/// The email as it is addressed.
pub open spec fn addressed(mail: Mail, recipient: Seq<char>, html: Seq<char>) -> bool {
    &&& mail.from@ == SENDER@
    &&& mail.to@ == recipient
    &&& mail.subject@ == SUBJECT@
    &&& mail.html@ == html
}

/// Addresses a rendered email, given whether the recipient is a mailbox.
pub fn address_email(recipient: &str, html: &str, recipient_ok: bool) -> (mail: Result<
    Mail,
    MailError,
>)
    ensures
        match mail {
            Ok(mail) => recipient_ok && addressed(mail, recipient@, html@),
            Err(error) => !recipient_ok && error == MailError::InvalidRecipient,
        },
{
    if recipient_ok {
        Ok(
            Mail {
                from: SENDER.to_string(),
                to: recipient.to_string(),
                subject: SUBJECT.to_string(),
                html: html.to_string(),
            },
        )
    } else {
        Err(MailError::InvalidRecipient)
    }
}

/// Addresses a rendered email: from the application, to the recipient, under
/// the fixed subject, the HTML as its body. A recipient that is no mailbox
/// is refused, and nothing is handed to the mailer.
pub fn send_reset_email(recipient: &str, html: &str) -> (mail: Result<Mail, MailError>)
    ensures
        match mail {
            Ok(mail) => is_mailbox(recipient@) && addressed(mail, recipient@, html@),
            Err(error) => !is_mailbox(recipient@) && error == MailError::InvalidRecipient,
        },
{
    let recipient_ok = match parse_mailbox(recipient) {
        Ok(_) => true,
        Err(_) => false,
    };
    address_email(recipient, html, recipient_ok)
}

} // verus!

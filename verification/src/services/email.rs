//! The messages that carry a code to a registered address.

use vstd::prelude::*;
use vstd::string::StringExecFns;

verus! {

/// A message ready to be handed to a mail transport.
#[derive(Debug)]
pub struct EmailMessage {
    pub from: String,
    pub to: String,
    pub subject: String,
    pub body: String,
}

/// The address that verification mail is sent from.
pub open spec fn sender_text() -> Seq<char> {
    "no-reply@example.com"@
}

/// The subject of verification mail.
pub open spec fn subject_text() -> Seq<char> {
    "Email Verification"@
}

/// The body of the message that carries `code`.
pub open spec fn body_text(code: Seq<char>) -> Seq<char> {
    "Please verify your email using this code: "@ + code
}

/// The subject of password-reset mail.
pub open spec fn reset_subject_text() -> Seq<char> {
    "Password Reset"@
}

/// The body of the message that carries the password-reset code `code`.
pub open spec fn reset_body_text(code: Seq<char>) -> Seq<char> {
    "Reset your password using this code: "@ + code
}

/// The message that carries the password-reset code `code` to `to`.
pub fn reset_email(to: &str, code: &str) -> (mail: EmailMessage)
    ensures
        mail.from@ == sender_text(),
        mail.to@ == to@,
        mail.subject@ == reset_subject_text(),
        mail.body@ == reset_body_text(code@),
{
    EmailMessage {
        from: "no-reply@example.com".to_owned(),
        to: to.to_owned(),
        subject: "Password Reset".to_owned(),
        body: String::from_str("Reset your password using this code: ").concat(code),
    }
}

/// The message that carries the verification code `code` to `to`.
pub fn verification_email(to: &str, code: &str) -> (mail: EmailMessage)
    ensures
        mail.from@ == sender_text(),
        mail.to@ == to@,
        mail.subject@ == subject_text(),
        mail.body@ == body_text(code@),
{
    EmailMessage {
        from: "no-reply@example.com".to_owned(),
        to: to.to_owned(),
        subject: "Email Verification".to_owned(),
        body: String::from_str("Please verify your email using this code: ").concat(code),
    }
}

} // verus!

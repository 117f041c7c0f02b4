//! The rules that request bodies are held to: an e-mail address has to be
//! one, and a password has at least six characters.

use vstd::prelude::*;
use vstd::string::{StrSliceExecFns, StringExecFns};
use crate::error::{ErrorResponse, Status};

verus! {

/// The least number of characters of a password.
pub const MIN_PASSWORD_LENGTH: usize = 6;

/// What `validator::ValidateEmail::validate_email` answers for a text.
pub uninterp spec fn email_is_valid(text: Seq<char>) -> bool;

/// Calls `validator::ValidateEmail::validate_email`, which holds a text to
/// the HTML5 rules for e-mail addresses. The contract names the answer.
#[verifier::external_body]
fn validate_email(text: &str) -> (valid: bool)
    ensures
        valid == email_is_valid(text@),
{
    validator::ValidateEmail::validate_email(&text)
}

/// Which of the validated fields of a request body broke their rule.
#[derive(Clone, Copy, Debug, PartialEq, Eq, Structural)]
pub struct ValidationErrors {
    pub email: bool,
    pub password: bool,
}

/// Whether a password is long enough.
pub open spec fn password_is_valid(password: Seq<char>) -> bool {
    password.len() >= MIN_PASSWORD_LENGTH
}

/// The outcome of validating fields: `Ok` when none broke its rule, else
/// the fields that did.
pub open spec fn validation_outcome(email_ok: bool, password_ok: bool) -> Result<
    (),
    ValidationErrors,
> {
    if email_ok && password_ok {
        Ok(())
    } else {
        Err(ValidationErrors { email: !email_ok, password: !password_ok })
    }
}

/// Whether a text is an e-mail address.
pub fn is_email(text: &str) -> (valid: bool)
    ensures
        valid == email_is_valid(text@),
{
    validate_email(text)
}

/// Whether a password has at least six characters.
pub fn is_password(password: &str) -> (valid: bool)
    ensures
        valid == password_is_valid(password@),
{
    password.unicode_len() >= MIN_PASSWORD_LENGTH
}

/// Collects the answers for the two fields.
pub fn collect(email_ok: bool, password_ok: bool) -> (outcome: Result<(), ValidationErrors>)
    ensures
        outcome == validation_outcome(email_ok, password_ok),
{
    if email_ok && password_ok {
        Ok(())
    } else {
        Err(ValidationErrors { email: !email_ok, password: !password_ok })
    }
}

/// Whether a text begins with another.
pub open spec fn has_prefix(text: Seq<char>, prefix: Seq<char>) -> bool {
    text.len() >= prefix.len() && text.subrange(0, prefix.len() as int) == prefix
}

/// Whether an outcome is the refusal of a request whose body broke its
/// rules: a bad request, with a message that begins with
/// `Validation error: `.
pub open spec fn refused_as_invalid<T>(outcome: Result<T, (Status, ErrorResponse)>) -> bool {
    outcome matches Err(refusal) && refusal.0 == Status::BadRequest && has_prefix(
        refusal.1.error@,
        "Validation error: "@,
    )
}

/// A text that is made longer behind keeps what it begins with.
proof fn lemma_prefix_stays(text: Seq<char>, prefix: Seq<char>, more: Seq<char>)
    requires
        has_prefix(text, prefix),
    ensures
        has_prefix(text + more, prefix),
{
    assert((text + more).subrange(0, prefix.len() as int) =~= text.subrange(
        0,
        prefix.len() as int,
    ));
}

impl ValidationErrors {
    /// The text that reports these errors. It begins with
    /// `Validation error: `; what follows names the fields that broke their
    /// rules, in words that may change.
    pub fn message(&self) -> (text: String)
        ensures
            has_prefix(text@, "Validation error: "@),
    {
        let mut text = String::from_str("Validation error: ");
        assert(text@.subrange(0, text@.len() as int) =~= text@);
        if self.email {
            proof {
                lemma_prefix_stays(text@, "Validation error: "@, "email is not an address"@);
            }
            text.append("email is not an address");
        }
        if self.email && self.password {
            proof {
                lemma_prefix_stays(text@, "Validation error: "@, "; "@);
            }
            text.append("; ");
        }
        if self.password {
            proof {
                lemma_prefix_stays(text@, "Validation error: "@, "password is too short"@);
            }
            text.append("password is too short");
        }
        text
    }

    /// The refusal for a request whose body broke these rules: a bad
    /// request, with the text that reports the errors.
    pub fn refusal(&self) -> (response: (Status, ErrorResponse))
        ensures
            response.0 == Status::BadRequest,
            has_prefix(response.1.error@, "Validation error: "@),
    {
        let text = self.message();
        ErrorResponse::new(Status::BadRequest, text.as_str())
    }
}

} // verus!

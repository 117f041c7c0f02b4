//! Asking for a code with which a password can be set anew.

use vstd::prelude::*;
use crate::entities::{NewToken, TokenType, User};
use crate::error::{refused, ErrorResponse, Status, StorageFailure};
use crate::id::Id;
use crate::validation::{collect, email_is_valid, is_email, validation_outcome, ValidationErrors};

verus! {

/// The request: the e-mail address of the account.
#[derive(Clone, Debug)]
pub struct RequestPasswordRecoverBody {
    pub email: String,
}

/// The answer: the code that redeems the token.
#[derive(Clone, Copy, Debug)]
pub struct RequestPasswordRecoverResponse {
    pub code: Id,
}

impl RequestPasswordRecoverBody {
    /// Holds the e-mail address to its rule.
    pub fn validate(&self) -> (outcome: Result<(), ValidationErrors>)
        ensures
            outcome == validation_outcome(email_is_valid(self.email@), true),
    {
        collect(is_email(self.email.as_str()), true)
    }
}

/// The token to make for a request, given what storage holds for the
/// e-mail address: a recovery token of the user found. An address that is
/// not known is forbidden, and a failed lookup is a failure of the service.
pub fn recovery_token(found: Result<Option<User>, StorageFailure>) -> (token: Result<
    NewToken,
    (Status, ErrorResponse),
>)
    ensures
        match found {
            Ok(Some(user)) => token matches Ok(fresh) && fresh.user_id == user.id && fresh.kind
                == TokenType::PasswordRecover,
            Ok(None) => refused(token, Status::Forbidden, "Invalid credentials."@),
            Err(_) => refused(token, Status::InternalServerError, "Internal server error"@),
        },
{
    match found {
        Ok(Some(user)) => Ok(NewToken { kind: TokenType::PasswordRecover, user_id: user.id }),
        Ok(None) => Err(ErrorResponse::new(Status::Forbidden, "Invalid credentials.")),
        Err(_) => Err(ErrorResponse::new(Status::InternalServerError, "Internal server error")),
    }
}

/// Answers the request: the code is the identifier of the recovery token.
pub fn request_password_recover(code: Id) -> (answer: (Status, RequestPasswordRecoverResponse))
    ensures
        answer.0 == Status::Success,
        answer.1.code == code,
{
    (Status::Success, RequestPasswordRecoverResponse { code })
}

} // verus!

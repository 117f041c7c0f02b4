//! Signing in with an e-mail address and a password.

use vstd::prelude::*;
use crate::auth::{session_claims, signed_token, SESSION_SECONDS};
use crate::auth::issue_token;
use crate::entities::User;
use crate::error::{refused, ErrorResponse, Status, StorageFailure};
use crate::password::{password_check, verify_password, PasswordCheck};
use crate::validation::{collect, email_is_valid, is_email, is_password, password_is_valid};
use crate::validation::{refused_as_invalid, validation_outcome, ValidationErrors};

verus! {

/// The request: who signs in, and with which password.
#[derive(Clone, Debug)]
pub struct AuthenticateWithPasswordBody {
    pub email: String,
    pub password: String,
}

/// The answer: the token of the new session.
#[derive(Clone, Debug)]
pub struct AuthenticateWithPasswordResponse {
    pub token: String,
}

impl AuthenticateWithPasswordBody {
    /// Holds the e-mail address and the password to their rules.
    pub fn validate(&self) -> (outcome: Result<(), ValidationErrors>)
        ensures
            outcome == validation_outcome(
                email_is_valid(self.email@),
                password_is_valid(self.password@),
            ),
    {
        collect(is_email(self.email.as_str()), is_password(self.password.as_str()))
    }
}

/// Why signing in is refused, if it is, given what storage holds for the
/// e-mail address: the status and the message.
pub open spec fn credentials_refusal(
    body: AuthenticateWithPasswordBody,
    found: Result<Option<User>, StorageFailure>,
) -> Option<(Status, Seq<char>)> {
    match found {
        Err(_) => Some((Status::InternalServerError, "Internal server error"@)),
        Ok(None) => Some((Status::Forbidden, "Invalid credentials."@)),
        Ok(Some(user)) => match user.password_hash {
            None => Some(
                (Status::BadRequest, "User does not have a password, use social login."@),
            ),
            Some(stored) => match password_check(body.password@, stored@) {
                PasswordCheck::Unreadable => Some(
                    (Status::InternalServerError, "Internal server error"@),
                ),
                PasswordCheck::Rejected => Some((Status::Forbidden, "Invalid credentials."@)),
                PasswordCheck::Verified => None,
            },
        },
    }
}

/// Answers a request to sign in, given what storage holds for the e-mail
/// address and the second at which the request is served.
///
/// A body that breaks its rules is a bad request, whatever storage holds. A
/// user who is not known or whose password is another one is forbidden,
/// with one message for both; a user without a password is told to sign in
/// otherwise; a failed lookup, an unreadable hash or a failed signature is a
/// failure of the service. Otherwise the answer is a token for a session of
/// the user that ends seven days after `now`.
pub fn authenticate_with_password(
    body: &AuthenticateWithPasswordBody,
    found: Result<Option<User>, StorageFailure>,
    now: i64,
    jwt_secret: &str,
) -> (answer: Result<(Status, AuthenticateWithPasswordResponse), (Status, ErrorResponse)>)
    requires
        now + SESSION_SECONDS <= i64::MAX,
    ensures
        match validation_outcome(email_is_valid(body.email@), password_is_valid(body.password@)) {
            Err(_) => refused_as_invalid(answer),
            Ok(_) => match credentials_refusal(*body, found) {
                Some(refusal) => refused(answer, refusal.0, refusal.1),
                None => match signed_token(
                    found->Ok_0->Some_0.id.spec_text(),
                    now + SESSION_SECONDS,
                    jwt_secret@,
                ) {
                    Some(token) => answer matches Ok(created) && created.0 == Status::Created
                        && created.1.token@ == token,
                    None => refused(
                        answer,
                        Status::InternalServerError,
                        "Internal server error"@,
                    ),
                },
            },
        },
{
    if let Err(errors) = body.validate() {
        return Err(errors.refusal());
    }
    let user = match found {
        Ok(Some(user)) => user,
        Ok(None) => {
            return Err(ErrorResponse::new(Status::Forbidden, "Invalid credentials."));
        },
        Err(_) => {
            return Err(ErrorResponse::new(Status::InternalServerError, "Internal server error"));
        },
    };
    let stored = match &user.password_hash {
        Some(stored) => stored,
        None => {
            return Err(
                ErrorResponse::new(
                    Status::BadRequest,
                    "User does not have a password, use social login.",
                ),
            );
        },
    };
    match verify_password(body.password.as_str(), stored.as_str()) {
        PasswordCheck::Unreadable => {
            return Err(ErrorResponse::new(Status::InternalServerError, "Internal server error"));
        },
        PasswordCheck::Rejected => {
            return Err(ErrorResponse::new(Status::Forbidden, "Invalid credentials."));
        },
        PasswordCheck::Verified => {},
    }
    let claims = session_claims(&user.id, now);
    match issue_token(&claims, jwt_secret) {
        Ok(token) => Ok((Status::Created, AuthenticateWithPasswordResponse { token })),
        Err(refusal) => Err(refusal),
    }
}

/// A user whose stored hash verifies the password of the request is not
/// refused for the credentials.
pub proof fn law_verified_password_signs_in(body: AuthenticateWithPasswordBody, user: User)
    requires
        user.password_hash matches Some(stored) && password_check(body.password@, stored@)
            == PasswordCheck::Verified,
    ensures
        credentials_refusal(body, Ok(Some(user))).is_none(),
{
}

/// A request for an address that is not known and a request with a password
/// that is another one are refused alike: the answer does not tell whether
/// the address has an account.
pub proof fn law_refusal_hides_accounts(body: AuthenticateWithPasswordBody, user: User)
    requires
        user.password_hash matches Some(stored) && password_check(body.password@, stored@)
            == PasswordCheck::Rejected,
    ensures
        credentials_refusal(body, Ok(Some(user))) == credentials_refusal(body, Ok(None)),
{
}

} // verus!

//! Setting a password anew with a recovery code.

use vstd::prelude::*;
use crate::entities::Token;
use crate::error::{refused, ErrorResponse, Status, StorageFailure};
use crate::id::Id;
use crate::password::{hash_password, password_check, PasswordCheck};
use crate::validation::{collect, is_password, password_is_valid, validation_outcome};
use crate::validation::{refused_as_invalid, ValidationErrors};

verus! {

/// The request: the recovery code and the new password.
#[derive(Clone, Debug)]
pub struct ResetPasswordRequest {
    pub code: Id,
    pub password: String,
}

/// What is to be changed in storage, in one transaction: the user gets the
/// new hash, and the token is spent.
#[derive(Clone, Debug)]
pub struct PasswordChange {
    pub user_id: Id,
    pub password_hash: String,
    pub token_id: Id,
}

impl ResetPasswordRequest {
    /// Holds the password to its rule.
    pub fn validate(&self) -> (outcome: Result<(), ValidationErrors>)
        ensures
            outcome == validation_outcome(true, password_is_valid(self.password@)),
    {
        collect(true, is_password(self.password.as_str()))
    }
}

/// The change to make for a request, given what storage holds for the code
/// and the hash of the new password. A code that storage does not hold is
/// forbidden; a failed lookup and a failed hashing are failures of the
/// service.
pub fn password_change(
    found: Result<Option<Token>, StorageFailure>,
    password_hash: Option<String>,
) -> (change: Result<PasswordChange, (Status, ErrorResponse)>)
    ensures
        match found {
            Ok(Some(token)) => match password_hash {
                Some(hash) => change matches Ok(planned) && planned.user_id == token.user_id
                    && planned.password_hash == hash && planned.token_id == token.id,
                None => refused(change, Status::InternalServerError, "Internal server error"@),
            },
            Ok(None) => refused(change, Status::Forbidden, "Invalid or expired recovery code."@),
            Err(_) => refused(change, Status::InternalServerError, "Internal server error"@),
        },
{
    let token = match found {
        Ok(Some(token)) => token,
        Ok(None) => {
            return Err(
                ErrorResponse::new(Status::Forbidden, "Invalid or expired recovery code."),
            );
        },
        Err(_) => {
            return Err(ErrorResponse::new(Status::InternalServerError, "Internal server error"));
        },
    };
    match password_hash {
        Some(hash) => Ok(
            PasswordChange { user_id: token.user_id, password_hash: hash, token_id: token.id },
        ),
        None => Err(ErrorResponse::new(Status::InternalServerError, "Internal server error")),
    }
}

/// Plans the change for a request: holds the body to its rule, hashes the
/// new password under a fresh salt, where storage holds the code, and hands
/// the rest to [`password_change`]. The hash differs from call to call;
/// whatever it is, the new password is verified against it, and the change is
/// made to the user of the token and spends that token. A body that breaks
/// its rule is a bad request, whatever storage holds.
pub fn prepare_reset(body: &ResetPasswordRequest, found: Result<Option<Token>, StorageFailure>) -> (change:
    Result<PasswordChange, (Status, ErrorResponse)>)
    ensures
        match validation_outcome(true, password_is_valid(body.password@)) {
            Err(_) => refused_as_invalid(change),
            Ok(_) => match found {
                Ok(Some(token)) => match change {
                    Ok(planned) => planned.user_id == token.user_id && planned.token_id
                        == token.id && password_check(body.password@, planned.password_hash@)
                        == PasswordCheck::Verified,
                    Err(_) => refused(
                        change,
                        Status::InternalServerError,
                        "Internal server error"@,
                    ),
                },
                Ok(None) => refused(
                    change,
                    Status::Forbidden,
                    "Invalid or expired recovery code."@,
                ),
                Err(_) => refused(change, Status::InternalServerError, "Internal server error"@),
            },
        },
{
    if let Err(errors) = body.validate() {
        return Err(errors.refusal());
    }
    match &found {
        Ok(Some(_)) => {},
        _ => {
            return password_change(found, None);
        },
    }
    let password_hash = hash_password(body.password.as_str());
    password_change(found, password_hash)
}

/// Answers the request once the change has been made: there is nothing to
/// say, unless the transaction failed.
pub fn reset_password(applied: Result<(), StorageFailure>) -> (answer: Result<
    Status,
    (Status, ErrorResponse),
>)
    ensures
        match applied {
            Ok(_) => answer == Ok::<Status, (Status, ErrorResponse)>(Status::NoContent),
            Err(_) => refused(answer, Status::InternalServerError, "Internal server error"@),
        },
{
    match applied {
        Ok(_) => Ok(Status::NoContent),
        Err(_) => Err(ErrorResponse::new(Status::InternalServerError, "Internal server error")),
    }
}

} // verus!

//! Creating an account.

use vstd::prelude::*;
use vstd::string::StrSliceExecFns;
use crate::entities::{NewMembership, NewUser, Organization, Role, User};
use crate::error::{refused, ErrorResponse, Status, StorageFailure};
use crate::id::Id;
use crate::password::{hash_password, password_check, PasswordCheck};
use crate::validation::{collect, email_is_valid, is_email, is_password, password_is_valid};
use crate::validation::{refused_as_invalid, validation_outcome, ValidationErrors};

verus! {

/// The request: the name, the e-mail address and the password of the new
/// user.
#[derive(Clone, Debug)]
pub struct CreateAccountBody {
    pub name: String,
    pub email: String,
    pub password: String,
}

/// The answer: the identifier of the new user.
#[derive(Clone, Copy, Debug)]
pub struct CreateAccountResponse {
    pub user_id: Id,
}

impl CreateAccountBody {
    /// Holds the e-mail address and the password to their rules.
    pub fn validate(&self) -> (outcome: Result<(), ValidationErrors>)
        ensures
            outcome == validation_outcome(
                email_is_valid(self.email@),
                password_is_valid(self.password@),
            ),
    {
        collect(is_email(self.email.as_str()), is_password(self.password.as_str()))
    }
}

/// The place of the first `@` at or after `from`, or the length of the text
/// where there is none.
pub open spec fn next_at(text: Seq<char>, from: int) -> int
    decreases text.len() - from,
{
    if from < 0 || from >= text.len() {
        text.len() as int
    } else if text[from] == '@' {
        from
    } else {
        next_at(text, from + 1)
    }
}

/// The domain of an e-mail address: what stands between its first `@` and
/// the next one or the end; empty where the address holds no `@`.
pub open spec fn domain_of(email: Seq<char>) -> Seq<char> {
    let first = next_at(email, 0);
    if first >= email.len() {
        Seq::empty()
    } else {
        email.subrange(first + 1, next_at(email, first + 1))
    }
}

/// Finds the first `@` at or after `from`.
fn find_at(text: &str, from: usize) -> (place: usize)
    requires
        from <= text@.len(),
    ensures
        place == next_at(text@, from as int),
        from <= place <= text@.len(),
{
    let length = text.unicode_len();
    let mut place = from;
    while place < length && text.get_char(place) != '@'
        invariant
            from <= place <= length,
            length == text@.len(),
            next_at(text@, from as int) == next_at(text@, place as int),
        decreases length - place,
    {
        place = place + 1;
    }
    place
}

/// The domain of an e-mail address.
pub fn email_domain(email: &str) -> (domain: String)
    ensures
        domain@ == domain_of(email@),
{
    let length = email.unicode_len();
    let first = find_at(email, 0);
    if first >= length {
        String::new()
    } else {
        let end = find_at(email, first + 1);
        email.substring_char(first + 1, end).to_owned()
    }
}

/// Decides whether an account may be created, given what storage holds for
/// the e-mail address: an address that is taken is a conflict, and a failed
/// lookup is a failure of the service.
pub fn ensure_email_is_free(found: Result<Option<User>, StorageFailure>) -> (decision: Result<
    (),
    (Status, ErrorResponse),
>)
    ensures
        match found {
            Ok(None) => decision is Ok,
            Ok(Some(_)) => refused(
                decision,
                Status::Conflict,
                "User with same e-mail already exists."@,
            ),
            Err(_) => refused(decision, Status::InternalServerError, "Internal server error"@),
        },
{
    match found {
        Ok(None) => Ok(()),
        Ok(Some(_)) => Err(
            ErrorResponse::new(Status::Conflict, "User with same e-mail already exists."),
        ),
        Err(_) => Err(ErrorResponse::new(Status::InternalServerError, "Internal server error")),
    }
}

/// The user to store for a request, and the organization that the user
/// joins, given the organization that storage holds for the domain of the
/// address and the hash of the password.
///
/// A failed lookup and a failed hashing are failures of the service.
pub fn new_account(
    body: &CreateAccountBody,
    auto_join: Result<Option<Organization>, StorageFailure>,
    password_hash: Option<String>,
) -> (account: Result<(NewUser, Option<Id>), (Status, ErrorResponse)>)
    ensures
        match (auto_join, password_hash) {
            (Ok(organization), Some(hash)) => account matches Ok(prepared) && prepared.0.name
                == Some(body.name) && prepared.0.email == body.email && prepared.0.password_hash
                == Some(hash) && prepared.0.avatar_url.is_none() && prepared.1 == match organization {
                Some(found) => Some(found.id),
                None => None,
            },
            _ => refused(account, Status::InternalServerError, "Internal server error"@),
        },
{
    let organization = match auto_join {
        Ok(organization) => organization,
        Err(_) => {
            return Err(ErrorResponse::new(Status::InternalServerError, "Internal server error"));
        },
    };
    let hash = match password_hash {
        Some(hash) => hash,
        None => {
            return Err(ErrorResponse::new(Status::InternalServerError, "Internal server error"));
        },
    };
    let join = match organization {
        Some(found) => Some(found.id),
        None => None,
    };
    Ok(
        (
            NewUser {
                name: Some(body.name.clone()),
                email: body.email.clone(),
                password_hash: Some(hash),
                avatar_url: None,
            },
            join,
        ),
    )
}

/// Prepares the account for a request: holds the body to its rules, hashes
/// the password under a fresh salt, unless the body broke a rule or the
/// lookup of the organization has failed, and hands the rest to
/// [`new_account`]. The hash differs from call to call; whatever it is, the
/// user to store carries the name and the address of the request and a hash
/// against which the password of the request is verified. A body that breaks
/// its rules is a bad request; every other refusal is a failure of the
/// service.
pub fn prepare_account(
    body: &CreateAccountBody,
    auto_join: Result<Option<Organization>, StorageFailure>,
) -> (account: Result<(NewUser, Option<Id>), (Status, ErrorResponse)>)
    ensures
        match validation_outcome(email_is_valid(body.email@), password_is_valid(body.password@)) {
            Err(_) => refused_as_invalid(account),
            Ok(_) => match account {
                Ok(prepared) => {
                    &&& auto_join matches Ok(organization)
                    &&& prepared.1 == match organization {
                        Some(found) => Some(found.id),
                        None => None,
                    }
                    &&& prepared.0.name == Some(body.name)
                    &&& prepared.0.email == body.email
                    &&& prepared.0.avatar_url.is_none()
                    &&& prepared.0.password_hash matches Some(hash)
                    &&& password_check(body.password@, hash@) == PasswordCheck::Verified
                },
                Err(_) => refused(account, Status::InternalServerError, "Internal server error"@),
            },
        },
{
    if let Err(errors) = body.validate() {
        return Err(errors.refusal());
    }
    if auto_join.is_err() {
        return new_account(body, auto_join, None);
    }
    let password_hash = hash_password(body.password.as_str());
    new_account(body, auto_join, password_hash)
}

/// What follows the storing of the user: the answer to give, and the
/// membership to store where the user joins an organization as a member. A
/// user that could not be stored is a failure of the service.
pub fn account_created(inserted: Result<User, StorageFailure>, join: Option<Id>) -> (next: Result<
    (CreateAccountResponse, Option<NewMembership>),
    (Status, ErrorResponse),
>)
    ensures
        match inserted {
            Ok(user) => next matches Ok(created) && created.0.user_id == user.id && match join {
                Some(organization_id) => created.1 matches Some(membership)
                    && membership.user_id == user.id && membership.organization_id
                    == organization_id && membership.role == Role::Member,
                None => created.1.is_none(),
            },
            Err(_) => refused(next, Status::InternalServerError, "Internal server error"@),
        },
{
    match inserted {
        Ok(user) => {
            let membership = match join {
                Some(organization_id) => Some(
                    NewMembership { role: Role::Member, organization_id, user_id: user.id },
                ),
                None => None,
            };
            Ok((CreateAccountResponse { user_id: user.id }, membership))
        },
        Err(_) => Err(ErrorResponse::new(Status::InternalServerError, "Internal server error")),
    }
}

/// Answers the request once the membership, if there was one, has been
/// stored: the account was created, unless storing the membership failed.
pub fn create_account(response: CreateAccountResponse, joined: Result<(), StorageFailure>) -> (answer:
    Result<(Status, CreateAccountResponse), (Status, ErrorResponse)>)
    ensures
        match joined {
            Ok(_) => answer matches Ok(created) && created.0 == Status::Created && created.1
                == response,
            Err(_) => refused(answer, Status::InternalServerError, "Internal server error"@),
        },
{
    match joined {
        Ok(_) => Ok((Status::Created, response)),
        Err(_) => Err(ErrorResponse::new(Status::InternalServerError, "Internal server error")),
    }
}

} // verus!

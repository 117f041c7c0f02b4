//! Signing in with an account at GitHub.

use vstd::prelude::*;
use crate::auth::{issue_token, session_claims, signed_token, SESSION_SECONDS};
use crate::decimal::{decimal, decimal_text};
use crate::entities::{Account, AccountProvider, NewAccount, NewUser, User};
use crate::error::{refused, ErrorResponse, Status, StorageFailure};
use crate::id::Id;

verus! {

/// The request: the code that GitHub gave the user to hand on.
#[derive(Clone, Debug)]
pub struct AuthenticateWithGithubBody {
    pub code: String,
}

/// The answer: the token of the new session.
#[derive(Clone, Debug)]
pub struct AuthenticateWithGithubResponse {
    pub token: String,
}

/// What GitHub tells of the user behind an access token.
#[derive(Clone, Debug)]
pub struct GithubUser {
    pub id: i64,
    pub name: Option<String>,
    pub email: Option<String>,
    pub avatar_url: String,
}

/// An exchange with GitHub that did not give an answer that can be read.
#[derive(Clone, Copy, Debug, PartialEq, Eq, Structural)]
pub struct GithubFailure;

/// The user to sign in: the one that storage holds, or one still to store.
#[derive(Clone, Debug)]
pub enum Registration {
    Known(User),
    Unknown(NewUser),
}

/// Passes on what GitHub answered; an exchange that failed is a failure of
/// the service, whichever exchange it was.
pub fn github_reply<T>(reply: Result<T, GithubFailure>) -> (passed: Result<
    T,
    (Status, ErrorResponse),
>)
    ensures
        match reply {
            Ok(value) => passed matches Ok(same) && same == value,
            Err(_) => refused(passed, Status::InternalServerError, "GitHub authentication failed"@),
        },
{
    match reply {
        Ok(value) => Ok(value),
        Err(_) => Err(
            ErrorResponse::new(Status::InternalServerError, "GitHub authentication failed"),
        ),
    }
}

/// The e-mail address under which a GitHub user signs in. A user whose
/// address GitHub does not tell cannot sign in.
pub fn github_email(profile: &GithubUser) -> (email: Result<String, (Status, ErrorResponse)>)
    ensures
        match profile.email {
            Some(address) => email matches Ok(same) && same == address,
            None => refused(
                email,
                Status::BadRequest,
                "Your GitHub account must have an email to authenticate."@,
            ),
        },
{
    match &profile.email {
        Some(address) => Ok(address.clone()),
        None => Err(
            ErrorResponse::new(
                Status::BadRequest,
                "Your GitHub account must have an email to authenticate.",
            ),
        ),
    }
}

/// The user to sign in, given what storage holds for the e-mail address:
/// the user found, or a new one with the name and the picture that GitHub
/// tells and no password. A failed lookup is a failure of the service.
pub fn github_registration(
    profile: GithubUser,
    email: String,
    found: Result<Option<User>, StorageFailure>,
) -> (registration: Result<Registration, (Status, ErrorResponse)>)
    ensures
        match found {
            Ok(Some(user)) => registration matches Ok(Registration::Known(same)) && same == user,
            Ok(None) => registration matches Ok(Registration::Unknown(fresh)) && fresh.email
                == email && fresh.name == profile.name && fresh.avatar_url == Some(
                profile.avatar_url,
            ) && fresh.password_hash.is_none(),
            Err(_) => refused(registration, Status::InternalServerError, "Internal server error"@),
        },
{
    match found {
        Ok(Some(user)) => Ok(Registration::Known(user)),
        Ok(None) => Ok(
            Registration::Unknown(
                NewUser {
                    name: profile.name,
                    email,
                    password_hash: None,
                    avatar_url: Some(profile.avatar_url),
                },
            ),
        ),
        Err(_) => Err(ErrorResponse::new(Status::InternalServerError, "Internal server error")),
    }
}

/// The link to store between a user and the GitHub account with the given
/// number, given what storage holds for that account: a link is stored only
/// where the lookup succeeded and found none. Its account identifier is the
/// number written in decimal.
pub fn github_account(
    found: Result<Option<Account>, StorageFailure>,
    user_id: Id,
    github_id: i64,
) -> (link: Option<NewAccount>)
    ensures
        match found {
            Ok(None) => link matches Some(fresh) && fresh.provider == AccountProvider::Github
                && fresh.user_id == user_id && fresh.provider_account_id@ == decimal_text(
                github_id as int,
            ),
            _ => link.is_none(),
        },
{
    match found {
        Ok(None) => Some(
            NewAccount {
                provider: AccountProvider::Github,
                provider_account_id: decimal(github_id),
                user_id,
            },
        ),
        _ => None,
    }
}

/// Answers the request once the user is known and the link, if one was
/// needed, has been stored: a token for a session of the user that ends
/// seven days after `now`. A link that could not be stored and a failed
/// signature are failures of the service.
pub fn authenticate_with_github(
    user_id: &Id,
    linked: Result<(), StorageFailure>,
    now: i64,
    jwt_secret: &str,
) -> (answer: Result<(Status, AuthenticateWithGithubResponse), (Status, ErrorResponse)>)
    requires
        now + SESSION_SECONDS <= i64::MAX,
    ensures
        match linked {
            Err(_) => refused(answer, Status::InternalServerError, "Internal server error"@),
            Ok(_) => match signed_token(
                user_id.spec_text(),
                now + SESSION_SECONDS,
                jwt_secret@,
            ) {
                Some(token) => answer matches Ok(created) && created.0 == Status::Created
                    && created.1.token@ == token,
                None => refused(answer, Status::InternalServerError, "Internal server error"@),
            },
        },
{
    if linked.is_err() {
        return Err(ErrorResponse::new(Status::InternalServerError, "Internal server error"));
    }
    let claims = session_claims(user_id, now);
    match issue_token(&claims, jwt_secret) {
        Ok(token) => Ok((Status::Created, AuthenticateWithGithubResponse { token })),
        Err(refusal) => Err(refusal),
    }
}

} // verus!

//! The profile of the caller.

use vstd::prelude::*;
use crate::entities::User;
use crate::error::{refused, ErrorResponse, Status, StorageFailure};
use crate::id::Id;

verus! {

/// The answer: what a user may see of the user's own account.
#[derive(Clone, Debug)]
pub struct ProfileResponse {
    pub id: Id,
    pub name: Option<String>,
    pub email: String,
    pub avatar_url: Option<String>,
}

/// Answers a request for the caller's profile, given what storage holds for
/// the caller's identifier: the profile of the user found; a caller for whom
/// storage holds no user record of the caller's own is not authenticated; a
/// failed lookup is a failure of the service.
pub fn get_profile(caller_id: &Id, found: Result<Option<User>, StorageFailure>) -> (answer: Result<
    (Status, ProfileResponse),
    (Status, ErrorResponse),
>)
    ensures
        match found {
            Ok(Some(user)) => if user.id == *caller_id {
                answer matches Ok(profile) && profile.0 == Status::Success && profile.1.id
                    == user.id && profile.1.name == user.name && profile.1.email == user.email
                    && profile.1.avatar_url == user.avatar_url
            } else {
                refused(answer, Status::Unauthorized, "Unauthorized"@)
            },
            Ok(None) => refused(answer, Status::Unauthorized, "Unauthorized"@),
            Err(_) => refused(answer, Status::InternalServerError, "Internal Server Error"@),
        },
{
    match found {
        Ok(Some(user)) => {
            if user.id == *caller_id {
                Ok(
                    (
                        Status::Success,
                        ProfileResponse {
                            id: user.id,
                            name: user.name,
                            email: user.email,
                            avatar_url: user.avatar_url,
                        },
                    ),
                )
            } else {
                Err(ErrorResponse::unauthorized())
            }
        },
        Ok(None) => Err(ErrorResponse::unauthorized()),
        Err(_) => Err(ErrorResponse::internal_error()),
    }
}

} // verus!

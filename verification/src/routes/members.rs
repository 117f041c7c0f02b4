//! The members of an organization.

use vstd::prelude::*;
use crate::entities::{Membership, Role, User};
use crate::error::{refused, ErrorResponse, Status, StorageFailure};
use crate::id::Id;
use crate::rbac::{get_user_permission, permits, Action, Resource};

verus! {

/// One member of an organization, as the list shows it.
#[derive(Clone, Debug)]
pub struct Member {
    pub id: Id,
    pub user_id: Id,
    pub role: Role,
    pub name: Option<String>,
    pub email: String,
    pub avatar_url: Option<String>,
}

/// The answer: the members of the organization.
#[derive(Clone, Debug)]
pub struct GetMembersResponse {
    pub members: Vec<Member>,
}

/// Whether a membership allows its user to see who the members are: whether
/// its role may read users.
pub open spec fn may_list_members(membership: Membership) -> bool {
    permits(membership.user_id, membership.role, Action::Read, Resource::Subject("User"))
}

/// Decides whether the holder of a membership may see the members of the
/// organization; the refusal is a lack of permission.
pub fn authorize_listing(membership: &Membership) -> (decision: Result<
    (),
    (Status, ErrorResponse),
>)
    ensures
        if may_list_members(*membership) {
            decision is Ok
        } else {
            refused(
                decision,
                Status::Forbidden,
                "You're not allowed to see organization members."@,
            )
        },
{
    let ability = get_user_permission(membership.user_id, membership.role);
    if ability.cannot(&Action::Read, &Resource::Subject("User")) {
        return Err(
            ErrorResponse::new(
                Status::Forbidden,
                "You're not allowed to see organization members.",
            ),
        );
    }
    Ok(())
}

/// The entry that the list shows for a membership and its user.
pub open spec fn member_of(membership: Membership, user: User) -> Member {
    Member {
        id: membership.id,
        user_id: user.id,
        role: membership.role,
        name: user.name,
        email: user.email,
        avatar_url: user.avatar_url,
    }
}

/// The entries of a list, last first.
fn in_reverse(list: Vec<Member>) -> (turned: Vec<Member>)
    ensures
        turned@.len() == list@.len(),
        forall|i: int| 0 <= i < list@.len() ==> #[trigger] turned@[i] == list@[list@.len() - 1 - i],
{
    let ghost all = list@;
    let mut list = list;
    let mut turned: Vec<Member> = Vec::new();
    while list.len() > 0
        invariant
            list@.len() + turned@.len() == all.len(),
            forall|i: int| 0 <= i < list@.len() ==> #[trigger] list@[i] == all[i],
            forall|i: int|
                0 <= i < turned@.len() ==> #[trigger] turned@[i] == all[all.len() - 1 - i],
        decreases list@.len(),
    {
        match list.pop() {
            Some(entry) => {
                turned.push(entry);
            },
            None => {},
        }
    }
    turned
}

/// Answers a request for the members of an organization, given the rows
/// that storage holds for it or the failure to read them: one entry for
/// each row, in the order of the rows.
pub fn get_members(rows: Result<Vec<(Membership, User)>, StorageFailure>) -> (answer: Result<
    (Status, GetMembersResponse),
    (Status, ErrorResponse),
>)
    ensures
        match rows {
            Ok(list) => answer matches Ok(listed) && listed.0 == Status::Success
                && listed.1.members@.len() == list@.len() && forall|i: int|
                0 <= i < list@.len() ==> #[trigger] listed.1.members@[i] == member_of(
                    list@[i].0,
                    list@[i].1,
                ),
            Err(_) => refused(answer, Status::InternalServerError, "Internal Server Error"@),
        },
{
    let list = match rows {
        Ok(list) => list,
        Err(_) => {
            return Err(ErrorResponse::internal_error());
        },
    };
    let ghost all = list@;
    let mut list = list;
    let mut members: Vec<Member> = Vec::new();
    while list.len() > 0
        invariant
            list@.len() + members@.len() == all.len(),
            forall|i: int| 0 <= i < list@.len() ==> #[trigger] list@[i] == all[i],
            forall|i: int|
                0 <= i < members@.len() ==> #[trigger] members@[i] == member_of(
                    all[all.len() - 1 - i].0,
                    all[all.len() - 1 - i].1,
                ),
        decreases list@.len(),
    {
        match list.pop() {
            Some((membership, user)) => {
                members.push(
                    Member {
                        id: membership.id,
                        user_id: user.id,
                        role: membership.role,
                        name: user.name,
                        email: user.email,
                        avatar_url: user.avatar_url,
                    },
                );
            },
            None => {},
        }
    }
    let members = in_reverse(members);
    Ok((Status::Success, GetMembersResponse { members }))
}

/// A caller who is no member of the organization and a member who may not
/// see the list are both forbidden, and are told apart by the reason.
pub proof fn law_forbidden_reasons_differ()
    ensures
        "You're not a member of this organization."@
            != "You're not allowed to see organization members."@,
{
    reveal_strlit("You're not a member of this organization.");
    reveal_strlit("You're not allowed to see organization members.");
    assert("You're not a member of this organization."@.len()
        != "You're not allowed to see organization members."@.len());
}

} // verus!

//! What holds of the access rules for every caller and every record.

use vstd::prelude::*;
use crate::entities::{Invite, Organization, Project, Role};
use crate::id::Id;
use crate::rbac::{admin_denied, billing_granted, member_granted, permits, Ability, Action, Resource};

verus! {

/// The two ways of asking agree: an ability permits what the rules permit
/// its user under its role.
pub proof fn law_surfaces_agree(ability: Ability, action: Action, resource: Resource)
    ensures
        ability.permits(action, resource) == permits(
            ability.user_id,
            ability.role,
            action,
            resource,
        ),
{
}

/// What no rule of a member or of a billing contact grants is refused, and
/// what no rule refuses an administrator is allowed.
pub proof fn law_defaults(user_id: Id, action: Action, resource: Resource)
    ensures
        !member_granted(user_id, action, resource) ==> !permits(
            user_id,
            Role::Member,
            action,
            resource,
        ),
        !billing_granted(action, resource) ==> !permits(user_id, Role::Billing, action, resource),
        !admin_denied(user_id, action, resource) ==> permits(
            user_id,
            Role::Admin,
            action,
            resource,
        ),
{
}

/// An administrator may manage everything, whoever the administrator is.
pub proof fn law_admin_wildcard(caller: Id)
    ensures
        permits(caller, Role::Admin, Action::Manage, Resource::All),
{
}

/// An administrator is allowed every action on `All`, on a kind of record, on
/// a project and on a user.
pub proof fn law_admin_unrestricted(caller: Id, action: Action, resource: Resource)
    requires
        resource is All || resource is Subject || resource is Project || resource is User,
    ensures
        permits(caller, Role::Admin, action, resource),
{
}

/// An administrator may update an organization exactly when the
/// administrator owns it, and the same holds of transferring its ownership.
pub proof fn law_admin_organization_owner(caller: Id, organization: &Organization)
    ensures
        permits(caller, Role::Admin, Action::Update, Resource::Organization(organization)) == (
        organization.owner_id == caller),
        permits(
            caller,
            Role::Admin,
            Action::TransferOwnership,
            Resource::Organization(organization),
        ) == (organization.owner_id == caller),
{
}

/// An administrator may create an invitation exactly when it invites a
/// member.
pub proof fn law_admin_invite(caller: Id, invite: &Invite)
    ensures
        permits(caller, Role::Admin, Action::Create, Resource::Invite(invite)) == (invite.role
            == Role::Member),
{
}

/// A member may delete, update and manage a project exactly when the member
/// owns it.
pub proof fn law_member_project_owner(caller: Id, project: &Project)
    ensures
        permits(caller, Role::Member, Action::Delete, Resource::Project(project)) == (
        project.owner_id == caller),
        permits(caller, Role::Member, Action::Update, Resource::Project(project)) == (
        project.owner_id == caller),
        permits(caller, Role::Member, Action::Manage, Resource::Project(project)) == (
        project.owner_id == caller),
{
}

/// A member is refused every action on `All` and on a kind of record.
pub proof fn law_member_no_wildcard(caller: Id, action: Action, kind: &str)
    ensures
        !permits(caller, Role::Member, Action::Manage, Resource::All),
        !permits(caller, Role::Member, action, Resource::All),
        !permits(caller, Role::Member, action, Resource::Subject(kind)),
{
}

/// A member may create an invitation exactly when it invites a member.
pub proof fn law_member_invite(caller: Id, invite: &Invite)
    ensures
        permits(caller, Role::Member, Action::Create, Resource::Invite(invite)) == (invite.role
            == Role::Member),
{
}

/// A billing contact may read any organization and do nothing else.
pub proof fn law_billing_read_only(
    caller: Id,
    organization: &Organization,
    action: Action,
    resource: Resource,
)
    ensures
        permits(caller, Role::Billing, Action::Read, Resource::Organization(organization)),
        !permits(caller, Role::Billing, Action::Update, Resource::Organization(organization)),
        !permits(caller, Role::Billing, Action::Manage, Resource::All),
        permits(caller, Role::Billing, action, resource) ==> action == Action::Read
            && resource is Organization,
{
}

/// No role may create an invitation to a role other than `Member`.
pub proof fn law_invites_never_escalate(caller: Id, role: Role, invite: &Invite)
    requires
        invite.role != Role::Member,
    ensures
        !permits(caller, role, Action::Create, Resource::Invite(invite)),
{
}

/// What a billing contact may do a member may do, and what a member may do
/// an administrator may do.
pub proof fn law_roles_are_ordered(caller: Id, action: Action, resource: Resource)
    ensures
        permits(caller, Role::Billing, action, resource) ==> permits(
            caller,
            Role::Member,
            action,
            resource,
        ),
        permits(caller, Role::Member, action, resource) ==> permits(
            caller,
            Role::Admin,
            action,
            resource,
        ),
{
}

} // verus!

//! The access rules: whether a caller, acting under one role, may perform an
//! action on a resource.
//!
//! The rules are stated once, as the spec function [`permits`], and the
//! executable checks are proved to compute exactly that predicate. A decision
//! depends on nothing but the caller, the role, the action and the fields of
//! the resource that the rules compare.

use vstd::prelude::*;
use crate::entities::{Invite, Organization, Project, Role, User};
use crate::id::Id;

verus! {

/// What a caller intends to do.
#[derive(Clone, Copy, Debug, PartialEq, Eq, Structural, Hash)]
pub enum Action {
    Manage,
    Create,
    Read,
    Update,
    Delete,
    TransferOwnership,
}

/// What the caller intends to act on. A concrete variant borrows the record;
/// `Subject` names a kind of record where no instance exists yet; `All`
/// stands for everything.
#[derive(Clone, Copy, Debug)]
pub enum Resource<'a> {
    Organization(&'a Organization),
    Project(&'a Project),
    Invite(&'a Invite),
    User(&'a User),
    Subject(&'a str),
    All,
}

/// The caller and the role under which one check is made.
#[derive(Clone, Copy, Debug)]
pub struct Ability {
    pub user_id: Id,
    pub role: Role,
}

/// The three cases in which an administrator is refused: an invitation to a
/// role other than `Member`, and updating or transferring an organization
/// owned by somebody else.
pub open spec fn admin_denied(user_id: Id, action: Action, resource: Resource) -> bool {
    ||| (resource matches Resource::Invite(invite) && action == Action::Create && invite.role
        != Role::Member)
    ||| (resource matches Resource::Organization(organization) && action == Action::Update
        && organization.owner_id != user_id)
    ||| (resource matches Resource::Organization(organization) && action
        == Action::TransferOwnership && organization.owner_id != user_id)
}

/// What a member is granted: reading projects and organizations, editing the
/// member's own user record, creating projects, managing, updating and
/// deleting the member's own projects, and inviting other members.
pub open spec fn member_granted(user_id: Id, action: Action, resource: Resource) -> bool {
    ||| (action == Action::Read && resource is Project)
    ||| (action == Action::Read && resource is Organization)
    ||| (resource matches Resource::User(user) && action == Action::Update && user.id == user_id)
    ||| (action == Action::Create && resource is Project)
    ||| (resource matches Resource::Project(project) && (action == Action::Manage || action
        == Action::Update || action == Action::Delete) && project.owner_id == user_id)
    ||| (resource matches Resource::Invite(invite) && action == Action::Create && invite.role
        == Role::Member)
}

/// What a billing contact is granted: reading an organization.
pub open spec fn billing_granted(action: Action, resource: Resource) -> bool {
    action == Action::Read && resource is Organization
}

/// The decision: an administrator may do all that is not refused, a member
/// and a billing contact only what is granted.
pub open spec fn permits(user_id: Id, role: Role, action: Action, resource: Resource) -> bool {
    match role {
        Role::Admin => !admin_denied(user_id, action, resource),
        Role::Member => member_granted(user_id, action, resource),
        Role::Billing => billing_granted(action, resource),
    }
}

/// Decides whether `user_id`, acting as `role`, may perform `action` on
/// `resource`. Every combination has an answer; what no rule grants is
/// refused.
pub fn can(user_id: &Id, role: &Role, action: &Action, resource: &Resource) -> (allowed: bool)
    ensures
        allowed == permits(*user_id, *role, *action, *resource),
{
    match role {
        Role::Admin => can_admin(user_id, action, resource),
        Role::Member => can_member(user_id, action, resource),
        Role::Billing => can_billing(action, resource),
    }
}

/// The negation of [`can`].
pub fn cannot(user_id: &Id, role: &Role, action: &Action, resource: &Resource) -> (refused: bool)
    ensures
        refused == !permits(*user_id, *role, *action, *resource),
{
    !can(user_id, role, action, resource)
}

/// The administrator's rules: allowed unless one of the refusals applies.
pub fn can_admin(user_id: &Id, action: &Action, resource: &Resource) -> (allowed: bool)
    ensures
        allowed == !admin_denied(*user_id, *action, *resource),
{
    match (action, resource) {
        (Action::Create, Resource::Invite(invite)) => invite.role == Role::Member,
        (Action::Update, Resource::Organization(organization)) => organization.owner_id
            == *user_id,
        (Action::TransferOwnership, Resource::Organization(organization)) => {
            organization.owner_id == *user_id
        },
        _ => true,
    }
}

/// The member's rules: refused unless one of the grants applies.
pub fn can_member(user_id: &Id, action: &Action, resource: &Resource) -> (allowed: bool)
    ensures
        allowed == member_granted(*user_id, *action, *resource),
{
    match (action, resource) {
        (Action::Read, Resource::Project(_)) => true,
        (Action::Read, Resource::Organization(_)) => true,
        (Action::Update, Resource::User(user)) => user.id == *user_id,
        (Action::Manage, Resource::Project(project)) => project.owner_id == *user_id,
        (Action::Create, Resource::Project(_)) => true,
        (Action::Update, Resource::Project(project)) => project.owner_id == *user_id,
        (Action::Delete, Resource::Project(project)) => project.owner_id == *user_id,
        (Action::Create, Resource::Invite(invite)) => invite.role == Role::Member,
        _ => false,
    }
}

/// The billing contact's rules: only reading an organization.
pub fn can_billing(action: &Action, resource: &Resource) -> (allowed: bool)
    ensures
        allowed == billing_granted(*action, *resource),
{
    match (action, resource) {
        (Action::Read, Resource::Organization(_)) => true,
        _ => false,
    }
}

/// The ability of `user_id` acting as `role`.
pub fn get_user_permission(user_id: Id, role: Role) -> (ability: Ability)
    ensures
        ability.user_id == user_id,
        ability.role == role,
{
    Ability { user_id, role }
}

impl Ability {
    /// What this ability permits.
    pub open spec fn permits(&self, action: Action, resource: Resource) -> bool {
        permits(self.user_id, self.role, action, resource)
    }

    /// Whether the caller may perform `action` on `resource`.
    pub fn can(&self, action: &Action, resource: &Resource) -> (allowed: bool)
        ensures
            allowed == self.permits(*action, *resource),
    {
        can(&self.user_id, &self.role, action, resource)
    }

    /// Whether the caller is refused `action` on `resource`.
    pub fn cannot(&self, action: &Action, resource: &Resource) -> (refused: bool)
        ensures
            refused == !self.permits(*action, *resource),
    {
        !self.can(action, resource)
    }
}

} // verus!

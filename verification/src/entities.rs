//! The records that the access rules read: users, organizations, projects,
//! invitations and memberships.

use vstd::prelude::*;
use crate::id::Id;

verus! {

/// The role that a membership gives a user inside one organization.
#[derive(Clone, Copy, Debug, PartialEq, Eq, Structural, Hash)]
pub enum Role {
    Admin,
    Member,
    Billing,
}

/// A user account.
#[derive(Clone, Debug)]
pub struct User {
    pub id: Id,
    pub name: Option<String>,
    pub email: String,
    pub password_hash: Option<String>,
    pub avatar_url: Option<String>,
    pub created_at: i64,
    pub updated_at: i64,
}

/// An organization, owned by one user.
#[derive(Clone, Debug)]
pub struct Organization {
    pub id: Id,
    pub name: String,
    pub slug: String,
    pub domain: Option<String>,
    pub should_attach_users_by_domain: bool,
    pub avatar_url: Option<String>,
    pub owner_id: Id,
    pub created_at: i64,
    pub updated_at: i64,
}

/// A project inside an organization, owned by one user.
#[derive(Clone, Debug)]
pub struct Project {
    pub id: Id,
    pub name: String,
    pub description: String,
    pub slug: String,
    pub avatar_url: Option<String>,
    pub organization_id: Id,
    pub owner_id: Id,
    pub created_at: i64,
    pub updated_at: i64,
}

/// An invitation to join an organization under a role.
#[derive(Clone, Debug)]
pub struct Invite {
    pub id: Id,
    pub email: String,
    pub role: Role,
    pub author_id: Option<Id>,
    pub organization_id: Id,
    pub created_at: i64,
}

/// The link between a user and an organization; it carries exactly one role.
#[derive(Clone, Copy, Debug)]
pub struct Membership {
    pub id: Id,
    pub role: Role,
    pub organization_id: Id,
    pub user_id: Id,
}

/// What a one-time token is for.
#[derive(Clone, Copy, Debug, PartialEq, Eq, Structural, Hash)]
pub enum TokenType {
    PasswordRecover,
}

/// A one-time token of a user; its identifier is the code that redeems it.
#[derive(Clone, Copy, Debug)]
pub struct Token {
    pub id: Id,
    pub kind: TokenType,
    pub user_id: Id,
    pub created_at: i64,
}

/// A one-time token that is to be stored.
#[derive(Clone, Copy, Debug)]
pub struct NewToken {
    pub kind: TokenType,
    pub user_id: Id,
}

/// Who vouches for an account that signs in from outside.
#[derive(Clone, Copy, Debug, PartialEq, Eq, Structural, Hash)]
pub enum AccountProvider {
    Github,
    Google,
}

/// The link between a user and an account at a provider.
#[derive(Clone, Debug)]
pub struct Account {
    pub id: Id,
    pub provider: AccountProvider,
    pub provider_account_id: String,
    pub user_id: Id,
}

/// A link to a provider's account that is to be stored.
#[derive(Clone, Debug)]
pub struct NewAccount {
    pub provider: AccountProvider,
    pub provider_account_id: String,
    pub user_id: Id,
}

/// A user account that is to be stored; storage gives it its identifier.
#[derive(Clone, Debug)]
pub struct NewUser {
    pub name: Option<String>,
    pub email: String,
    pub password_hash: Option<String>,
    pub avatar_url: Option<String>,
}

/// A membership that is to be stored.
#[derive(Clone, Copy, Debug)]
pub struct NewMembership {
    pub role: Role,
    pub organization_id: Id,
    pub user_id: Id,
}

} // verus!

use saas_rbac::entities::{Invite, Organization, Project, Role, User};
use saas_rbac::id::Id;
use saas_rbac::rbac::{can, Action, Resource};

fn new_id() -> Id {
    Id::from_u128(uuid::Uuid::new_v4().as_u128())
}

#[test]
fn test_admin_permissions() {
    let admin_id = new_id();
    let other_user_id = new_id();
    let org_owned_by_other = Organization {
        id: new_id(),
        owner_id: other_user_id,
        name: "Test Org".to_string(),
        slug: "test-org".to_string(),
        created_at: Default::default(),
        updated_at: Default::default(),
        domain: None,
        should_attach_users_by_domain: false,
        avatar_url: None,
    };
    let org_owned_by_admin = Organization {
        id: new_id(),
        owner_id: admin_id,
        ..org_owned_by_other.clone()
    };
    let project = Project {
        id: new_id(),
        owner_id: admin_id,
        organization_id: org_owned_by_admin.id,
        name: "Test Project".to_string(),
        slug: "test-project".to_string(),
        description: "A test project".to_string(),
        created_at: Default::default(),
        updated_at: Default::default(),
        avatar_url: None,
    };

    // Admin can do almost anything
    assert!(can(&admin_id, &Role::Admin, &Action::Manage, &Resource::All));
    assert!(can(&admin_id, &Role::Admin, &Action::Create, &Resource::Project(&project)));

    // Except update an org they don't own
    assert!(!can(&admin_id, &Role::Admin, &Action::Update, &Resource::Organization(&org_owned_by_other)));

    // Or transfer ownership
    assert!(!can(&admin_id, &Role::Admin, &Action::TransferOwnership, &Resource::Organization(&org_owned_by_other)));

    // But can if they are the owner
    assert!(can(&admin_id, &Role::Admin, &Action::Update, &Resource::Organization(&org_owned_by_admin)));

    // And cannot create an invite for an Admin
    let invite_for_admin = Invite {
        id: new_id(),
        author_id: Some(admin_id),
        organization_id: org_owned_by_admin.id,
        email: "new@member.com".to_string(),
        role: Role::Admin,
        created_at: Default::default(),
    };
    assert!(!can(&admin_id, &Role::Admin, &Action::Create, &Resource::Invite(&invite_for_admin)));

    // But can for a Member
    let invite_for_member = Invite {
        role: Role::Member,
        ..invite_for_admin
    };
    assert!(can(&admin_id, &Role::Admin, &Action::Create, &Resource::Invite(&invite_for_member)));
}

#[test]
fn test_member_permissions() {
    let member_id = new_id();
    let other_user_id = new_id();
    let org = Organization {
        id: new_id(),
        owner_id: other_user_id,
        name: "Test Org".to_string(),
        slug: "test-org".to_string(),
        created_at: Default::default(),
        updated_at: Default::default(),
        domain: None,
        should_attach_users_by_domain: false,
        avatar_url: None,
    };

    let own_project = Project {
        id: new_id(),
        owner_id: member_id,
        organization_id: org.id,
        name: "Own Project".to_string(),
        slug: "own-project".to_string(),
        description: "A test project".to_string(),
        created_at: Default::default(),
        updated_at: Default::default(),
        avatar_url: None,
    };
    let other_project = Project {
        id: new_id(),
        owner_id: other_user_id,
        organization_id: org.id,
        name: "Other Project".to_string(),
        slug: "other-project".to_string(),
        description: "Another test project".to_string(),
        created_at: Default::default(),
        updated_at: Default::default(),
        avatar_url: None,
    };

    // Members can read projects and orgs
    assert!(can(&member_id, &Role::Member, &Action::Read, &Resource::Organization(&org)));
    assert!(can(&member_id, &Role::Member, &Action::Read, &Resource::Project(&own_project)));

    // But cannot manage all
    assert!(!can(&member_id, &Role::Member, &Action::Manage, &Resource::All));

    // Can update their own user model
    let user_model = User {
        id: member_id,
        email: "test@test.com".to_string(),
        name: None,
        password_hash: None,
        avatar_url: None,
        created_at: Default::default(),
        updated_at: Default::default(),
    };
    assert!(can(&member_id, &Role::Member, &Action::Update, &Resource::User(&user_model)));
    let other_user_model = User {
        id: other_user_id,
        ..user_model
    };
    assert!(!can(&member_id, &Role::Member, &Action::Update, &Resource::User(&other_user_model)));

    // Can manage their own project
    assert!(can(&member_id, &Role::Member, &Action::Manage, &Resource::Project(&own_project)));
    assert!(can(&member_id, &Role::Member, &Action::Delete, &Resource::Project(&own_project)));

    // But not others' projects
    assert!(!can(&member_id, &Role::Member, &Action::Update, &Resource::Project(&other_project)));
    assert!(!can(&member_id, &Role::Member, &Action::Delete, &Resource::Project(&other_project)));

    // Can create invites for other Members
    let invite_for_member = Invite {
        id: new_id(),
        author_id: Some(member_id),
        organization_id: org.id,
        email: "new@member.com".to_string(),
        role: Role::Member,
        created_at: Default::default(),
    };
    assert!(can(&member_id, &Role::Member, &Action::Create, &Resource::Invite(&invite_for_member)));

    // Cannot create invites for Admins
    let invite_for_admin = Invite {
        role: Role::Admin,
        ..invite_for_member
    };
    assert!(!can(&member_id, &Role::Member, &Action::Create, &Resource::Invite(&invite_for_admin)));
}

#[test]
fn test_billing_permissions() {
    let billing_id = new_id();
    let owner_id = new_id();
    let org = Organization {
        id: new_id(),
        owner_id,
        name: "Test Org".to_string(),
        slug: "test-org".to_string(),
        created_at: Default::default(),
        updated_at: Default::default(),
        domain: None,
        should_attach_users_by_domain: false,
        avatar_url: None,
    };
    let project = Project {
        id: new_id(),
        owner_id,
        organization_id: org.id,
        name: "Test Project".to_string(),
        slug: "test-project".to_string(),
        description: "A test project".to_string(),
        created_at: Default::default(),
        updated_at: Default::default(),
        avatar_url: None,
    };

    // Can read organization
    assert!(can(&billing_id, &Role::Billing, &Action::Read, &Resource::Organization(&org)));

    // Cannot do much else
    assert!(!can(&billing_id, &Role::Billing, &Action::Update, &Resource::Organization(&org)));
    assert!(!can(&billing_id, &Role::Billing, &Action::Manage, &Resource::All));
    assert!(!can(&billing_id, &Role::Billing, &Action::Create, &Resource::Project(&project)));
}

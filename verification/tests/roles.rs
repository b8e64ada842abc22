use backend::responses::{role_add_status, role_remove_status};
use backend::roles::{
    after_all_roles, after_target_roles, begin_role_removal, check_add_role, count_admins,
    is_admin, is_email_verified, validate_role_name, RoleError, RoleRemoval,
};

fn roles(names: &[&str]) -> Vec<String> {
    names.iter().map(|s| s.to_string()).collect()
}

#[test]
fn role_names_are_validated() {
    for r in ["user", "email-verified", "trusted-contact", "admin"] {
        assert_eq!(validate_role_name(r), Ok(()));
    }
    for r in ["Admin", "superuser", "", "admin "] {
        assert_eq!(validate_role_name(r), Err(RoleError::InvalidRoleName));
    }
}

#[test]
fn the_user_role_cannot_be_added() {
    assert_eq!(check_add_role("user"), Err(RoleError::CannotAddUserRole));
    assert_eq!(check_add_role("bogus"), Err(RoleError::InvalidRoleName));
    assert_eq!(check_add_role("trusted-contact"), Ok(()));
    assert_eq!(check_add_role("admin"), Ok(()));
}

#[test]
fn role_removal_first_step() {
    assert_eq!(begin_role_removal("bogus"), RoleRemoval::Refuse(RoleError::InvalidRoleName));
    assert_eq!(begin_role_removal("user"), RoleRemoval::Refuse(RoleError::CannotRemoveUserRole));
    assert_eq!(begin_role_removal("admin"), RoleRemoval::FetchTargetRoles);
    assert_eq!(begin_role_removal("email-verified"), RoleRemoval::Remove);
    assert_eq!(begin_role_removal("trusted-contact"), RoleRemoval::Remove);
}

#[test]
fn removing_admin_from_a_non_admin_is_harmless() {
    assert_eq!(after_target_roles(&roles(&["user"])), RoleRemoval::Remove);
    assert_eq!(after_target_roles(&roles(&["user", "admin"])), RoleRemoval::FetchAllRoles);
}

#[test]
fn the_last_admin_keeps_the_role() {
    let one_admin = vec![Some(roles(&["user", "admin"])), Some(roles(&["user"])), None];
    assert_eq!(count_admins(&one_admin), 1);
    assert_eq!(after_all_roles(&one_admin), RoleRemoval::Refuse(RoleError::LastAdmin));

    let two_admins = vec![Some(roles(&["admin"])), None, Some(roles(&["user", "admin"]))];
    assert_eq!(count_admins(&two_admins), 2);
    assert_eq!(after_all_roles(&two_admins), RoleRemoval::Remove);

    assert_eq!(after_all_roles(&vec![]), RoleRemoval::Refuse(RoleError::LastAdmin));
}

#[test]
fn role_membership() {
    assert!(is_admin(&roles(&["user", "admin"])));
    assert!(!is_admin(&roles(&["user", "administrator"])));
    assert!(is_email_verified(&roles(&["email-verified"])));
    assert!(!is_email_verified(&roles(&[])));
}

#[test]
fn role_error_messages() {
    assert_eq!(
        RoleError::InvalidRoleName.message(),
        "Invalid role name. Allowed roles: user, email-verified, trusted-contact, admin"
    );
    assert_eq!(
        RoleError::CannotAddUserRole.message(),
        "Cannot manually add 'user' role - it is automatically assigned on registration"
    );
    assert_eq!(
        RoleError::CannotRemoveUserRole.message(),
        "Cannot remove 'user' role - it is a permanent base role"
    );
    assert_eq!(
        RoleError::LastAdmin.message(),
        "Cannot remove the last admin role from the system"
    );
}

#[test]
fn role_refusal_statuses() {
    assert_eq!(role_add_status(RoleError::InvalidRoleName), 400);
    assert_eq!(role_add_status(RoleError::CannotAddUserRole), 400);
    assert_eq!(role_add_status(RoleError::LastAdmin), 500);
    assert_eq!(role_remove_status(RoleError::LastAdmin), 409);
    assert_eq!(role_remove_status(RoleError::CannotRemoveUserRole), 400);
    assert_eq!(role_remove_status(RoleError::InvalidRoleName), 400);
    assert_eq!(role_remove_status(RoleError::CannotAddUserRole), 500);
}

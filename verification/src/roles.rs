//! Role management rules for administrators.

use vstd::prelude::*;

use crate::text::{contains_str, contains_text, str_eq};

verus! {

/// The roles an administrator may manage.
pub open spec fn manageable_role(name: Seq<char>) -> bool {
    name == "user"@ || name == "email-verified"@ || name == "trusted-contact"@ || name
        == "admin"@
}

/// Why a role change is refused.
#[derive(Clone, Copy, PartialEq, Eq, Debug)]
pub enum RoleError {
    /// Not one of the manageable roles.
    InvalidRoleName,
    /// The base `user` role is assigned on registration only.
    CannotAddUserRole,
    /// The base `user` role is permanent.
    CannotRemoveUserRole,
    /// Removing it would leave the system without an administrator.
    LastAdmin,
}

impl RoleError {
    /// The text of the message for this error.
    pub open spec fn text(self) -> Seq<char> {
        match self {
            RoleError::InvalidRoleName => "Invalid role name. Allowed roles: user, email-verified, trusted-contact, admin"@,
            RoleError::CannotAddUserRole => "Cannot manually add 'user' role - it is automatically assigned on registration"@,
            RoleError::CannotRemoveUserRole => "Cannot remove 'user' role - it is a permanent base role"@,
            RoleError::LastAdmin => "Cannot remove the last admin role from the system"@,
        }
    }

    /// The message shown for this error.
    pub fn message(&self) -> (r: String)
        ensures
            r@ == self.text(),
    {
        match self {
            RoleError::InvalidRoleName => "Invalid role name. Allowed roles: user, email-verified, trusted-contact, admin".to_owned(),
            RoleError::CannotAddUserRole => "Cannot manually add 'user' role - it is automatically assigned on registration".to_owned(),
            RoleError::CannotRemoveUserRole => "Cannot remove 'user' role - it is a permanent base role".to_owned(),
            RoleError::LastAdmin => "Cannot remove the last admin role from the system".to_owned(),
        }
    }
}

/// Validate a role name against the manageable roles.
pub fn validate_role_name(role_name: &str) -> (r: Result<(), RoleError>)
    ensures
        r is Ok <==> manageable_role(role_name@),
        r is Err ==> r == Err::<(), RoleError>(RoleError::InvalidRoleName),
{
    if str_eq(role_name, "user") || str_eq(role_name, "email-verified") || str_eq(
        role_name,
        "trusted-contact",
    ) || str_eq(role_name, "admin") {
        Ok(())
    } else {
        Err(RoleError::InvalidRoleName)
    }
}

/// Check that a role may be added: it must be manageable and not `user`.
pub fn check_add_role(role_name: &str) -> (r: Result<(), RoleError>)
    ensures
        !manageable_role(role_name@) ==> r == Err::<(), RoleError>(RoleError::InvalidRoleName),
        manageable_role(role_name@) && role_name@ == "user"@ ==> r == Err::<(), RoleError>(
            RoleError::CannotAddUserRole,
        ),
        manageable_role(role_name@) && role_name@ != "user"@ ==> r is Ok,
{
    validate_role_name(role_name)?;
    if str_eq(role_name, "user") {
        return Err(RoleError::CannotAddUserRole);
    }
    Ok(())
}

/// Whether a role list holds the `admin` role.
pub open spec fn holds_admin(roles: Seq<String>) -> bool {
    contains_text(roles, "admin"@)
}

/// Whether a user's roles include `admin`.
pub fn is_admin(roles: &Vec<String>) -> (r: bool)
    ensures
        r == holds_admin(roles@),
{
    contains_str(roles, "admin")
}

/// Whether a user's roles include `email-verified`.
pub fn is_email_verified(roles: &Vec<String>) -> (r: bool)
    ensures
        r == contains_text(roles@, "email-verified"@),
{
    contains_str(roles, "email-verified")
}

/// The number of users whose (possibly missing) role list holds `admin`.
pub open spec fn admin_count(users: Seq<Option<Vec<String>>>) -> nat
    decreases users.len(),
{
    if users.len() == 0 {
        0
    } else {
        admin_count(users.drop_last()) + match users.last() {
            Some(roles) => if holds_admin(roles@) {
                1nat
            } else {
                0nat
            },
            None => 0nat,
        }
    }
}

/// Count the users holding the `admin` role.
pub fn count_admins(users: &Vec<Option<Vec<String>>>) -> (r: usize)
    ensures
        r == admin_count(users@),
{
    let mut n: usize = 0;
    let mut i: usize = 0;
    while i < users.len()
        invariant
            i <= users.len(),
            n == admin_count(users@.take(i as int)),
            n <= i,
        decreases users.len() - i,
    {
        proof {
            assert(users@.take(i + 1).drop_last() =~= users@.take(i as int));
        }
        match &users[i] {
            Some(roles) => {
                if is_admin(roles) {
                    n = n + 1;
                }
            },
            None => {},
        }
        i = i + 1;
    }
    proof {
        assert(users@.take(users.len() as int) =~= users@);
    }
    n
}

/// What removing a role needs next.
#[derive(Clone, Copy, PartialEq, Eq, Debug)]
pub enum RoleRemoval {
    /// Remove the role now.
    Remove,
    /// Fetch the target user's roles and call `after_target_roles`.
    FetchTargetRoles,
    /// Fetch every user's roles and call `after_all_roles`.
    FetchAllRoles,
    /// Do not remove the role.
    Refuse(RoleError),
}

/// First decision on removing a role: unknown roles and `user` are refused;
/// removing `admin` needs the target's roles; any other role is removed.
pub fn begin_role_removal(role_name: &str) -> (r: RoleRemoval)
    ensures
        !manageable_role(role_name@) ==> r == RoleRemoval::Refuse(RoleError::InvalidRoleName),
        manageable_role(role_name@) && role_name@ == "user"@ ==> r == RoleRemoval::Refuse(
            RoleError::CannotRemoveUserRole,
        ),
        manageable_role(role_name@) && role_name@ == "admin"@ ==> r
            == RoleRemoval::FetchTargetRoles,
        manageable_role(role_name@) && role_name@ != "user"@ && role_name@ != "admin"@ ==> r
            == RoleRemoval::Remove,
{
    proof {
        reveal_strlit("user");
        reveal_strlit("admin");
        assert("user"@.len() != "admin"@.len());
    }
    if validate_role_name(role_name).is_err() {
        return RoleRemoval::Refuse(RoleError::InvalidRoleName);
    }
    if str_eq(role_name, "user") {
        return RoleRemoval::Refuse(RoleError::CannotRemoveUserRole);
    }
    if str_eq(role_name, "admin") {
        return RoleRemoval::FetchTargetRoles;
    }
    RoleRemoval::Remove
}

/// Removing `admin` from a user who is an admin needs the admin count;
/// from anyone else it is harmless.
pub fn after_target_roles(target_roles: &Vec<String>) -> (r: RoleRemoval)
    ensures
        holds_admin(target_roles@) ==> r == RoleRemoval::FetchAllRoles,
        !holds_admin(target_roles@) ==> r == RoleRemoval::Remove,
{
    if is_admin(target_roles) {
        RoleRemoval::FetchAllRoles
    } else {
        RoleRemoval::Remove
    }
}

/// The last admin keeps the role: removal goes ahead only when at least two
/// users hold `admin`.
pub fn after_all_roles(users: &Vec<Option<Vec<String>>>) -> (r: RoleRemoval)
    ensures
        admin_count(users@) <= 1 ==> r == RoleRemoval::Refuse(RoleError::LastAdmin),
        admin_count(users@) > 1 ==> r == RoleRemoval::Remove,
{
    if count_admins(users) <= 1 {
        RoleRemoval::Refuse(RoleError::LastAdmin)
    } else {
        RoleRemoval::Remove
    }
}

/// The admin count is the number of users that have a role list holding the
/// role "admin" at any position.
pub proof fn lemma_admin_count_is_filter(users: Seq<Option<Vec<String>>>)
    ensures
        admin_count(users) == users.filter(
            |u: Option<Vec<String>>| u matches Some(r) && contains_text(r@, "admin"@),
        ).len(),
    decreases users.len(),
{
    reveal(Seq::filter);
    if users.len() > 0 {
        lemma_admin_count_is_filter(users.drop_last());
    }
}

} // verus!
